//! Which Orbit attachment Venus keeps, retries or gives up.

use vstd::prelude::*;
use vstd::string::StringExecFns;
use crate::model::{ConnectionState, FailureCode, NoticeFilter, SessionModel, bounded_text, keep_pred, notices_view};
use crate::text::bytes_eq;
use crate::interaction::dismisses_clipboard_notice;
use crate::model::{LocalNoticeSource, NoticeOwner};
use crate::transport::SendError;
use crate::input::{spec_retire, InputState};
use crate::presentation::PresentationState;
use crate::selection::{DeferredSelection, SelectionGate};
use crate::timing::{next_retry_delay, OrbitRetry, INITIAL_RETRY_DELAY};
use std::collections::VecDeque;

verus! {

/// A reconnect is allowed for a standalone attachment, and for a workspace only while
/// the selected pane is live and is still the attached endpoint.
pub open spec fn spec_retry_is_allowed(workspace: bool, selected: Option<(Seq<u8>, bool)>, active: Option<Seq<u8>>) -> bool {
    !workspace || match selected {
        Some((endpoint, live)) => live && active == Some(endpoint),
        None => false,
    }
}

pub fn retry_is_allowed(workspace: bool, selected: Option<(&[u8], bool)>, active: Option<&[u8]>) -> (allowed: bool)
    ensures
        allowed == spec_retry_is_allowed(
            workspace,
            match selected {
                Some((endpoint, live)) => Some((endpoint@, live)),
                None => None,
            },
            match active {
                Some(active) => Some(active@),
                None => None,
            },
        ),
{
    if !workspace {
        return true;
    }
    match selected {
        Some((endpoint, live)) => live && match active {
            Some(active) => bytes_eq(active, endpoint),
            None => false,
        },
        None => false,
    }
}

/// Protocol and terminal failures are not cured by reconnecting the socket.
pub fn server_failure_suppresses_retry(failure: Option<FailureCode>) -> (suppresses: bool)
    ensures
        suppresses == (failure == Some(FailureCode::Protocol) || failure == Some(FailureCode::Terminal)),
{
    match failure {
        Some(FailureCode::Protocol) | Some(FailureCode::Terminal) => true,
        _ => false,
    }
}

/// A busy reply is retried only when Venus runs supervised, where the previous
/// presentation client is known to be departing.
pub fn managed_busy_is_retryable(supervised: bool, busy: bool) -> (retryable: bool)
    ensures
        retryable == (supervised && busy),
{
    supervised && busy
}

/// Record a retryable loss and report whether a reconnect should be scheduled: only
/// when the attachment had not already ended and retries are not suppressed.
pub fn apply_retryable_loss<S, R>(model: &mut SessionModel<S, R>, detail: String, retry_suppressed: bool) -> (schedule: bool)
    ensures
        schedule == (!old(model).connection.spec_is_terminal() && !retry_suppressed),
        old(model).connection.spec_is_terminal() ==> *final(model) == *old(model),
        !old(model).connection.spec_is_terminal() ==> {
            &&& final(model).connection matches ConnectionState::Lost { detail: lost }
            &&& lost@ == bounded_text(detail@)
            &&& notices_view(final(model).notices@)
                == notices_view(old(model).notices@).filter(keep_pred(NoticeFilter::KeepConstraining))
        },
{
    let schedule = !model.is_terminal() && !retry_suppressed;
    model.mark_lost_preserving_constraining_notice(detail);
    schedule
}

/// The native window title: a renderer failure, else a non-empty terminal title,
/// else the application name.
pub fn window_title<'a>(scene_title: Option<&'a str>, render_notice: Option<&'a str>) -> (title: &'a str)
    ensures
        title@ == match render_notice {
            Some(notice) => notice@,
            None => match scene_title {
                Some(t) => if t@.len() > 0 { t@ } else { "Venus"@ },
                None => "Venus"@,
            },
        },
{
    match render_notice {
        Some(notice) => notice,
        None => match scene_title {
            Some(t) => if !t.is_empty() { t } else { "Venus" },
            None => "Venus",
        },
    }
}

/// How the presented picture is affected by a server message.
#[derive(Clone, Copy, Debug, PartialEq, Eq, Structural)]
pub enum PresentationChange {
    Unchanged,
    /// Output changed cells; the presented input geometry still holds.
    ContentChanged,
    /// The geometry or the screen may have changed; nothing presented holds.
    Invalidated,
}

pub open spec fn spec_presentation_change(accepted_frame: bool, plain_frame: bool, geometry_kept: bool) -> PresentationChange {
    if !accepted_frame {
        PresentationChange::Unchanged
    } else if plain_frame && geometry_kept {
        PresentationChange::ContentChanged
    } else {
        PresentationChange::Invalidated
    }
}

/// An accepted plain frame with the same columns, rows and screen only dirties the
/// content; any other accepted frame, such as a scroll or wheel outcome or a
/// structural change, invalidates the presentation.
pub fn presentation_change(accepted_frame: bool, plain_frame: bool, geometry_kept: bool) -> (change: PresentationChange)
    ensures
        change == spec_presentation_change(accepted_frame, plain_frame, geometry_kept),
{
    if !accepted_frame {
        PresentationChange::Unchanged
    } else if plain_frame && geometry_kept {
        PresentationChange::ContentChanged
    } else {
        PresentationChange::Invalidated
    }
}

/// A server failure cancels a pointer sequence that is under way, or a selection
/// that still waits for its finish.
pub fn failure_cancels_pointer(server_failure: bool, pointer_sequence: bool, gate_ready: bool) -> (cancel: bool)
    ensures
        cancel == (server_failure && (pointer_sequence || !gate_ready)),
{
    server_failure && (pointer_sequence || !gate_ready)
}

/// What becomes of the attachment after a transport event.
#[derive(Clone, Copy, Debug, PartialEq, Eq, Structural)]
pub enum AttachmentEnd {
    /// The attachment goes on.
    Continue,
    /// The attachment is dropped and its pairing state retired; a reconnect is
    /// scheduled where `retry` holds, else the retry schedule is reset.
    Stop { retry: bool },
}

pub open spec fn spec_attachment_end(retryable_event: bool, terminal: bool, schedule_retry: bool, retry_allowed: bool) -> AttachmentEnd {
    if retryable_event || terminal {
        AttachmentEnd::Stop { retry: schedule_retry && retry_allowed }
    } else {
        AttachmentEnd::Continue
    }
}

/// A retryable event or a terminal connection state ends the attachment; it is
/// retried only where the loss asked for a retry and the workspace still allows it.
pub fn attachment_end(retryable_event: bool, terminal: bool, schedule_retry: bool, retry_allowed: bool) -> (end: AttachmentEnd)
    ensures
        end == spec_attachment_end(retryable_event, terminal, schedule_retry, retry_allowed),
{
    if retryable_event || terminal {
        AttachmentEnd::Stop { retry: schedule_retry && retry_allowed }
    } else {
        AttachmentEnd::Continue
    }
}

/// The notices left after a message was handed to the transport: the queue notice
/// and the notice of the message's own path go, and input also retires a clipboard
/// result.
pub open spec fn notices_after_send(notices: Seq<(NoticeOwner, Seq<char>)>, source: LocalNoticeSource) -> Seq<(NoticeOwner, Seq<char>)> {
    let queue_cleared = notices.filter(keep_pred(NoticeFilter::DropVenus(LocalNoticeSource::Queue)));
    let clipboard_cleared = if source == LocalNoticeSource::Input {
        queue_cleared.filter(keep_pred(NoticeFilter::DropVenus(LocalNoticeSource::Clipboard)))
    } else {
        queue_cleared
    };
    clipboard_cleared.filter(keep_pred(NoticeFilter::DropVenus(source)))
}

/// Record what became of handing a message from `source` to the transport, and
/// report whether the client view must be refreshed. A refused message stands as
/// the queue notice; a delivered one resolves the notices that it answers.
pub fn record_send<S, R>(model: &mut SessionModel<S, R>, source: LocalNoticeSource, sent: Result<(), SendError>) -> (refresh: bool)
    ensures
        final(model).current == old(model).current,
        final(model).scene == old(model).scene,
        final(model).scroll_preview == old(model).scroll_preview,
        final(model).connection == old(model).connection,
        final(model).awaiting_current_frame == old(model).awaiting_current_frame,
        match sent {
            Err(error) => {
                &&& refresh
                &&& old(model).connection.spec_is_terminal() ==> notices_view(final(model).notices@) == notices_view(old(model).notices@)
                &&& !old(model).connection.spec_is_terminal() ==> notices_view(final(model).notices@)
                    == notices_view(old(model).notices@).filter(keep_pred(NoticeFilter::DropVenus(LocalNoticeSource::Queue))).push(
                    (NoticeOwner::Venus(LocalNoticeSource::Queue), bounded_text(error.spec_message())))
            },
            Ok(()) => {
                &&& notices_view(final(model).notices@) == notices_after_send(notices_view(old(model).notices@), source)
                &&& refresh == (final(model).notices@.len() != old(model).notices@.len())
            },
        },
{
    match sent {
        Err(error) => {
            let detail = String::from_str(error.message());
            model.set_venus_notice(LocalNoticeSource::Queue, detail);
            true
        },
        Ok(()) => {
            let ghost n0 = model.notices@.len();
            let queue_recovered = model.clear_venus_notice(LocalNoticeSource::Queue);
            let ghost n1 = model.notices@.len();
            let ghost v1 = notices_view(model.notices@);
            let clipboard_cleared = dismisses_clipboard_notice(source) && model.clear_venus_notice(LocalNoticeSource::Clipboard);
            let ghost n2 = model.notices@.len();
            let own_cleared = model.clear_venus_notice(source);
            proof {
                let all = notices_view(old(model).notices@);
                all.filter_lemma(keep_pred(NoticeFilter::DropVenus(LocalNoticeSource::Queue)));
                v1.filter_lemma(keep_pred(NoticeFilter::DropVenus(LocalNoticeSource::Clipboard)));
                assert(notices_view(model.notices@).len() == model.notices@.len());
                assert(all.len() == n0);
                assert(v1.len() == n1);
            }
            own_cleared || queue_recovered || clipboard_cleared
        },
    }
}

/// Which screen of the terminal a frame shows.
#[derive(Clone, Copy, Debug, PartialEq, Eq, Structural)]
pub enum TerminalScreen {
    Primary,
    Alternate,
}

/// The grid and screen that a frame is laid out on.
#[derive(Clone, Copy, Debug, PartialEq, Eq, Structural)]
pub struct FrameGeometry {
    pub columns: u16,
    pub rows: u16,
    pub screen: TerminalScreen,
}

/// Whether a frame kept the geometry of the one before it: the same grid on the
/// same screen, or no frame either time.
pub fn geometry_kept(previous: Option<FrameGeometry>, current: Option<FrameGeometry>) -> (kept: bool)
    ensures
        kept == (previous == current),
{
    match (previous, current) {
        (Some(a), Some(b)) => a.columns == b.columns && a.rows == b.rows && a.screen == b.screen,
        (None, None) => true,
        _ => false,
    }
}

/// Carry out what an attachment's end decided. A continuing attachment keeps
/// everything. A stopping one drops any selection gesture and waiting selection
/// steps, opens the selection gate, retires the input generation, stops the
/// cursor animation and invalidates the presented geometry; its reconnect is
/// scheduled where the end asks for a retry, and forgotten otherwise. Returns
/// whether the attachment stopped.
pub fn stop_attachment<P>(
    end: AttachmentEnd,
    input: &mut InputState,
    gate: &mut SelectionGate,
    deferred: &mut VecDeque<DeferredSelection<P>>,
    next_animation: &mut Option<u64>,
    presentation: &mut PresentationState,
    retry: &mut OrbitRetry,
    now: u64,
) -> (stopped: bool)
    requires
        old(presentation).generation < u64::MAX,
        end == (AttachmentEnd::Stop { retry: true }) && old(retry).deadline is None
            ==> now + old(retry).next_delay <= u64::MAX,
    ensures
        stopped == (end is Stop),
        !stopped ==> {
            &&& final(input)@ == old(input)@
            &&& *final(gate) == *old(gate)
            &&& final(deferred)@ == old(deferred)@
            &&& *final(next_animation) == *old(next_animation)
            &&& *final(presentation) == *old(presentation)
            &&& *final(retry) == *old(retry)
        },
        stopped ==> {
            &&& final(input)@ == spec_retire(old(input)@)
            &&& *final(gate) == SelectionGate::Ready
            &&& final(deferred)@.len() == 0
            &&& *final(next_animation) is None
            &&& final(presentation).generation == old(presentation).generation + 1
            &&& final(presentation).presented is None
        },
        end == (AttachmentEnd::Stop { retry: true }) ==> {
            &&& old(retry).deadline is Some ==> *final(retry) == *old(retry)
            &&& old(retry).deadline is None ==> final(retry).deadline == Some((now + old(retry).next_delay) as u64)
                && final(retry).next_delay == next_retry_delay(old(retry).next_delay)
        },
        end == (AttachmentEnd::Stop { retry: false }) ==> final(retry).deadline is None
            && final(retry).next_delay == INITIAL_RETRY_DELAY,
        old(retry).wf() ==> final(retry).wf(),
{
    let schedule = match end {
        AttachmentEnd::Continue => return false,
        AttachmentEnd::Stop { retry } => retry,
    };
    deferred.clear();
    *gate = SelectionGate::Ready;
    input.cancel_selection();
    input.retire_orbit_generation();
    *next_animation = None;
    presentation.invalidate();
    if schedule {
        retry.schedule(now);
    } else {
        retry.reset();
    }
    true
}

} // verus!
