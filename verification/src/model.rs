//! The persistent client state of one local Orbit attachment: connection lifecycle,
//! accepted frame, scroll preview, and the client-visible notices by owner.
//!
//! Frame reduction and scene construction belong to the Orbit frame reducer; the
//! model receives their outcome and decides what becomes presentation state.

use vstd::prelude::*;
use vstd::string::StringExecFns;
use vstd::string::StrSliceExecFns;

verus! {

/// Longest notice or loss detail, in characters, before it is cut.
pub const MAX_NOTICE_CHARS: usize = 1024;

/// `detail` cut to [`MAX_NOTICE_CHARS`] characters, with an ellipsis when it was cut.
pub open spec fn bounded_text(detail: Seq<char>) -> Seq<char> {
    if detail.len() > MAX_NOTICE_CHARS {
        detail.take(MAX_NOTICE_CHARS as int) + "…"@
    } else {
        detail
    }
}

/// Cut a client-visible detail to its bounded length.
pub fn bounded(detail: String) -> (result: String)
    ensures
        result@ == bounded_text(detail@),
{
    if detail.as_str().unicode_len() > MAX_NOTICE_CHARS {
        let mut cut = String::from_str(detail.as_str().substring_char(0, MAX_NOTICE_CHARS));
        cut.append("…");
        cut
    } else {
        detail
    }
}

/// Bounded lifecycle state for one local Orbit attachment.
#[derive(Clone, Debug, PartialEq, Eq)]
pub enum ConnectionState {
    Connecting,
    Attached,
    Busy,
    Incompatible { version: u16 },
    Lost { detail: String },
    Exited { code: i32 },
}

impl ConnectionState {
    /// A lifecycle end: nothing but a reconnect leaves it.
    pub open spec fn spec_is_terminal(&self) -> bool {
        !(self is Connecting || self is Attached)
    }
}

/// Venus path allowed to resolve its own client-visible notice.
#[derive(Clone, Copy, Debug, PartialEq, Eq, Structural)]
pub enum LocalNoticeSource {
    Input,
    Queue,
    Resize,
    Clipboard,
}

/// Class of an Orbit failure reply.
#[derive(Clone, Copy, Debug, PartialEq, Eq, Structural)]
pub enum FailureCode {
    InvalidInput,
    Protocol,
    Terminal,
}

/// Who may resolve a notice.
#[derive(Clone, Copy, Debug, PartialEq, Eq, Structural)]
pub enum NoticeOwner {
    Orbit(FailureCode),
    Venus(LocalNoticeSource),
}

/// One client-visible notice.
#[derive(Debug)]
pub struct Notice {
    pub owner: NoticeOwner,
    pub detail: String,
}

/// The notices as owners and texts, oldest first.
pub open spec fn notices_view(notices: Seq<Notice>) -> Seq<(NoticeOwner, Seq<char>)> {
    notices.map_values(|notice: Notice| (notice.owner, notice.detail@))
}

/// Which notices survive a resolution step.
#[derive(Clone, Copy, Debug, PartialEq, Eq, Structural)]
pub enum NoticeFilter {
    /// Drop every Orbit-owned notice.
    DropOrbit,
    /// Drop the notices of one Venus path.
    DropVenus(LocalNoticeSource),
    /// Keep only Orbit protocol and terminal failures.
    KeepConstraining,
}

/// Whether `filter` keeps a notice of this owner.
pub open spec fn keeps(filter: NoticeFilter, owner: NoticeOwner) -> bool {
    match filter {
        NoticeFilter::DropOrbit => !(owner is Orbit),
        NoticeFilter::DropVenus(source) => owner != NoticeOwner::Venus(source),
        NoticeFilter::KeepConstraining => owner == NoticeOwner::Orbit(FailureCode::Protocol)
            || owner == NoticeOwner::Orbit(FailureCode::Terminal),
    }
}

pub open spec fn keep_pred(filter: NoticeFilter) -> spec_fn((NoticeOwner, Seq<char>)) -> bool {
    |entry: (NoticeOwner, Seq<char>)| keeps(filter, entry.0)
}

fn notice_kept(filter: NoticeFilter, owner: NoticeOwner) -> (kept: bool)
    ensures
        kept == keeps(filter, owner),
{
    match filter {
        NoticeFilter::DropOrbit => match owner {
            NoticeOwner::Orbit(_) => false,
            _ => true,
        },
        NoticeFilter::DropVenus(source) => owner != NoticeOwner::Venus(source),
        NoticeFilter::KeepConstraining => match owner {
            NoticeOwner::Orbit(FailureCode::Protocol) | NoticeOwner::Orbit(FailureCode::Terminal) => true,
            _ => false,
        },
    }
}

/// Keep the notices that `filter` accepts, in order.
fn retain_notices(notices: &Vec<Notice>, filter: NoticeFilter) -> (kept: Vec<Notice>)
    ensures
        notices_view(kept@) == notices_view(notices@).filter(keep_pred(filter)),
{
    let mut kept: Vec<Notice> = Vec::new();
    let ghost all = notices_view(notices@);
    let mut i: usize = 0;
    while i < notices.len()
        invariant
            i <= notices@.len(),
            all == notices_view(notices@),
            notices_view(kept@) == all.take(i as int).filter(keep_pred(filter)),
        decreases notices@.len() - i,
    {
        let notice = &notices[i];
        let keeps_notice = notice_kept(filter, notice.owner);
        proof {
            reveal_with_fuel(Seq::<(NoticeOwner, Seq<char>)>::filter, 1);
            assert(all.take(i + 1).drop_last() =~= all.take(i as int));
        }
        if keeps_notice {
            let ghost before = kept@;
            kept.push(Notice { owner: notice.owner, detail: notice.detail.clone() });
            assert(notices_view(kept@) =~= notices_view(before).push(all[i as int]));
        }
        i = i + 1;
    }
    assert(all.take(notices@.len() as int) =~= all);
    kept
}


/// Revision and grid of one complete Orbit frame.
#[derive(Clone, Copy, Debug, PartialEq, Eq, Structural)]
pub struct FrameInfo {
    pub revision: u64,
    pub cols: u16,
    pub rows: u16,
}

/// Vertical scroll direction of a preview.
#[derive(Clone, Copy, Debug, PartialEq, Eq, Structural)]
pub enum VerticalDirection {
    Up,
    Down,
}

/// Rows beyond the current frame that a smooth scroll may show, bound to the frame
/// revision they extend. `R` holds the drawable rows.
#[derive(Debug)]
pub enum ScenePreview<R> {
    /// The terminal application owns scrolling; nothing is previewed.
    TerminalOwned { frame_revision: u64, direction: VerticalDirection },
    /// Orbit sent the rows that follow the current viewport in `direction`.
    Viewport { frame_revision: u64, direction: VerticalDirection, edge_reached: bool, rows: R },
}

/// Orbit's answer to a preview request, with its rows already made drawable.
#[derive(Debug)]
pub enum PreviewOutcome<R> {
    TerminalRouted,
    Viewport { cols: u16, edge_reached: bool, rows: R, row_count: usize },
}

/// A frame accepted by the Orbit frame reducer, with the scene built from it.
#[derive(Debug)]
pub struct ReducedFrame<S> {
    pub scene: S,
    pub info: FrameInfo,
}

/// Native clipboard that Orbit addressed.
#[derive(Clone, Copy, Debug, PartialEq, Eq, Structural)]
pub enum ClipboardLocation {
    Standard,
    Selection,
    Primary,
}

/// One transient native clipboard effect from Orbit.
#[derive(Clone, Debug, PartialEq, Eq)]
pub enum ClipboardEffect {
    SelectionCopy { location: ClipboardLocation, text: String },
    TerminalWrite { location: ClipboardLocation, text: String },
}

/// A message violated the accepted local-session order or frame sequence.
#[derive(Clone, Debug, PartialEq, Eq)]
pub enum ModelError<E> {
    UnexpectedMessage,
    Frame(E),
}

impl ModelError<String> {
    pub open spec fn spec_message(&self) -> Seq<char> {
        match self {
            ModelError::UnexpectedMessage => "Orbit sent a local-session message out of order"@,
            ModelError::Frame(error) => "Orbit frame rejected: "@ + error@,
        }
    }

    /// What the user is told of this failure, given the frame failure's own text.
    pub fn message(&self) -> (message: String)
        ensures
            message@ == self.spec_message(),
    {
        match self {
            ModelError::UnexpectedMessage => String::from_str("Orbit sent a local-session message out of order"),
            ModelError::Frame(error) => {
                let mut message = String::from_str("Orbit frame rejected: ");
                message.append(error.as_str());
                message
            },
        }
    }
}

/// One Orbit server message as the model consumes it. Frame-carrying messages carry
/// the frame reducer's outcome; `E` is the reducer's error.
#[derive(Debug)]
pub enum ServerEvent<S, R, E> {
    Attached,
    /// A complete frame, alone or as a wheel outcome that moved the viewport.
    Frame(Result<ReducedFrame<S>, E>),
    VerticalPreview { frame_revision: u64, direction: VerticalDirection, outcome: PreviewOutcome<R> },
    ScrollTerminalOwned { requested_rows: i16 },
    /// A scroll that moved the viewport: the new frame, the preview beyond it and
    /// the reducer's outcome for the frame.
    ScrollViewport {
        requested_rows: i16,
        frame: FrameInfo,
        next: PreviewOutcome<R>,
        reduced: Result<ReducedFrame<S>, E>,
    },
    /// Input accepted, a selection finished, or a wheel routed to the terminal.
    Acknowledged,
    Failure { failure: FailureCode, detail: String },
    Busy,
    Exited { code: i32 },
    CopiedText { location: ClipboardLocation, text: String },
    ClipboardWrite { location: ClipboardLocation, text: String },
    /// Any message that has no place in a presentation attachment.
    Other,
}

/// The direction a requested row count scrolls.
pub open spec fn spec_scroll_direction(rows: i16) -> VerticalDirection {
    if rows < 0 { VerticalDirection::Up } else { VerticalDirection::Down }
}

pub fn scroll_direction(rows: i16) -> (direction: VerticalDirection)
    ensures
        direction == spec_scroll_direction(rows),
{
    if rows < 0 { VerticalDirection::Up } else { VerticalDirection::Down }
}

/// Whether `outcome` fits the grid of `frame`.
pub open spec fn preview_fits<R>(frame: FrameInfo, outcome: PreviewOutcome<R>) -> bool {
    match outcome {
        PreviewOutcome::TerminalRouted => true,
        PreviewOutcome::Viewport { cols, row_count, .. } => cols == frame.cols && row_count <= frame.rows,
    }
}

/// The preview that a fitting `outcome` yields for `frame`.
pub open spec fn spec_scene_preview<R>(frame: FrameInfo, direction: VerticalDirection, outcome: PreviewOutcome<R>) -> ScenePreview<R> {
    match outcome {
        PreviewOutcome::TerminalRouted => ScenePreview::TerminalOwned { frame_revision: frame.revision, direction },
        PreviewOutcome::Viewport { edge_reached, rows, .. } => ScenePreview::Viewport {
            frame_revision: frame.revision,
            direction,
            edge_reached,
            rows,
        },
    }
}

fn scene_preview<R>(frame: FrameInfo, direction: VerticalDirection, outcome: PreviewOutcome<R>) -> (preview: Option<ScenePreview<R>>)
    ensures
        preview_fits(frame, outcome) ==> preview == Some(spec_scene_preview(frame, direction, outcome)),
        !preview_fits(frame, outcome) ==> preview is None,
{
    match outcome {
        PreviewOutcome::TerminalRouted => Some(ScenePreview::TerminalOwned { frame_revision: frame.revision, direction }),
        PreviewOutcome::Viewport { cols, edge_reached, rows, row_count } => {
            if cols != frame.cols || row_count > frame.rows as usize {
                None
            } else {
                Some(ScenePreview::Viewport { frame_revision: frame.revision, direction, edge_reached, rows })
            }
        }
    }
}

/// How an Orbit failure is labelled to the user.
pub open spec fn failure_label(code: FailureCode) -> Seq<char> {
    match code {
        FailureCode::InvalidInput => "rejected input"@,
        FailureCode::Protocol => "protocol failure"@,
        FailureCode::Terminal => "terminal failure"@,
    }
}

/// The notice text for an Orbit failure.
pub open spec fn failure_notice(code: FailureCode, detail: Seq<char>) -> Seq<char> {
    bounded_text("Orbit "@ + failure_label(code) + ": "@ + detail)
}

fn failure_text(code: FailureCode, detail: &str) -> (text: String)
    ensures
        text@ == failure_notice(code, detail@),
{
    let mut text = String::from_str("Orbit ");
    text.append(match code {
        FailureCode::InvalidInput => "rejected input",
        FailureCode::Protocol => "protocol failure",
        FailureCode::Terminal => "terminal failure",
    });
    text.append(": ");
    text.append(detail);
    bounded(text)
}

/// The sole persistent owner of accepted presentation state in one client process.
#[derive(Debug)]
pub struct SessionModel<S, R> {
    /// The frame the Orbit reducer holds as current.
    pub current: Option<FrameInfo>,
    /// The scene of the last accepted frame; it survives reconnects.
    pub scene: Option<S>,
    pub scroll_preview: Option<ScenePreview<R>>,
    pub connection: ConnectionState,
    pub awaiting_current_frame: bool,
    /// Client-visible notices, oldest first; the newest is shown.
    pub notices: Vec<Notice>,
}

impl<S, R> SessionModel<S, R> {
    pub open spec fn attached(&self) -> bool {
        self.connection is Attached
    }

    pub open spec fn connecting(&self) -> bool {
        self.connection is Connecting
    }

    /// A model for a fresh attachment attempt.
    pub fn new() -> (model: Self)
        ensures
            model.current is None,
            model.scene is None,
            model.scroll_preview is None,
            model.connection == ConnectionState::Connecting,
            model.awaiting_current_frame,
            model.notices@.len() == 0,
    {
        SessionModel {
            current: None,
            scene: None,
            scroll_preview: None,
            connection: ConnectionState::Connecting,
            awaiting_current_frame: true,
            notices: Vec::new(),
        }
    }

    pub fn scene(&self) -> (scene: Option<&S>)
        ensures
            scene == match self.scene {
                Some(s) => Some(&s),
                None => None::<&S>,
            },
    {
        self.scene.as_ref()
    }

    pub fn scroll_preview(&self) -> (preview: Option<&ScenePreview<R>>)
        ensures
            preview == match self.scroll_preview {
                Some(p) => Some(&p),
                None => None::<&ScenePreview<R>>,
            },
    {
        self.scroll_preview.as_ref()
    }

    pub fn connection(&self) -> (connection: &ConnectionState)
        ensures
            *connection == self.connection,
    {
        &self.connection
    }

    /// The newest notice, if any.
    pub fn notice(&self) -> (notice: Option<&str>)
        ensures
            notices_view(self.notices@).len() == 0 ==> notice is None,
            notices_view(self.notices@).len() > 0 ==> (notice matches Some(text)
                && text@ == notices_view(self.notices@).last().1),
    {
        if self.notices.len() == 0 {
            None
        } else {
            Some(self.notices[self.notices.len() - 1].detail.as_str())
        }
    }

    pub fn is_attached(&self) -> (attached: bool)
        ensures
            attached == self.attached(),
    {
        match self.connection {
            ConnectionState::Attached => true,
            _ => false,
        }
    }

    pub fn awaiting_current_frame(&self) -> (awaiting: bool)
        ensures
            awaiting == self.awaiting_current_frame,
    {
        self.awaiting_current_frame
    }

    /// Whether the attachment reached a lifecycle end.
    pub fn is_terminal(&self) -> (terminal: bool)
        ensures
            terminal == self.connection.spec_is_terminal(),
    {
        match self.connection {
            ConnectionState::Connecting | ConnectionState::Attached => false,
            _ => true,
        }
    }

    fn filter_notices(&mut self, filter: NoticeFilter)
        ensures
            notices_view(final(self).notices@) == notices_view(old(self).notices@).filter(keep_pred(filter)),
            final(self).current == old(self).current,
            final(self).scene == old(self).scene,
            final(self).scroll_preview == old(self).scroll_preview,
            final(self).connection == old(self).connection,
            final(self).awaiting_current_frame == old(self).awaiting_current_frame,
    {
        self.notices = retain_notices(&self.notices, filter);
    }

    /// Orbit's attachment ended incompatibly; a lifecycle end is kept as it is.
    pub fn mark_incompatible(&mut self, version: u16)
        ensures
            old(self).connection.spec_is_terminal() ==> *final(self) == *old(self),
            !old(self).connection.spec_is_terminal() ==> {
                &&& final(self).connection == ConnectionState::Incompatible { version }
                &&& final(self).scroll_preview is None
                &&& final(self).notices@.len() == 0
                &&& final(self).current == old(self).current
                &&& final(self).scene == old(self).scene
                &&& final(self).awaiting_current_frame == old(self).awaiting_current_frame
            },
    {
        if self.is_terminal() {
            return;
        }
        self.connection = ConnectionState::Incompatible { version };
        self.scroll_preview = None;
        self.notices = Vec::new();
    }

    /// The attachment was lost; a lifecycle end is kept as it is.
    pub fn mark_lost(&mut self, detail: String)
        ensures
            old(self).connection.spec_is_terminal() ==> *final(self) == *old(self),
            !old(self).connection.spec_is_terminal() ==> {
                &&& final(self).connection matches ConnectionState::Lost { detail: lost }
                &&& lost@ == bounded_text(detail@)
                &&& final(self).scroll_preview is None
                &&& final(self).notices@.len() == 0
                &&& final(self).current == old(self).current
                &&& final(self).scene == old(self).scene
                &&& final(self).awaiting_current_frame == old(self).awaiting_current_frame
            },
    {
        if self.is_terminal() {
            return;
        }
        self.connection = ConnectionState::Lost { detail: bounded(detail) };
        self.scroll_preview = None;
        self.notices = Vec::new();
    }

    /// The socket was lost, but Orbit protocol and terminal failures stay visible:
    /// they explain why a reconnect would not help.
    pub fn mark_lost_preserving_constraining_notice(&mut self, detail: String)
        ensures
            old(self).connection.spec_is_terminal() ==> *final(self) == *old(self),
            !old(self).connection.spec_is_terminal() ==> {
                &&& final(self).connection matches ConnectionState::Lost { detail: lost }
                &&& lost@ == bounded_text(detail@)
                &&& final(self).scroll_preview is None
                &&& notices_view(final(self).notices@)
                    == notices_view(old(self).notices@).filter(keep_pred(NoticeFilter::KeepConstraining))
                &&& final(self).current == old(self).current
                &&& final(self).scene == old(self).scene
                &&& final(self).awaiting_current_frame == old(self).awaiting_current_frame
            },
    {
        if self.is_terminal() {
            return;
        }
        self.connection = ConnectionState::Lost { detail: bounded(detail) };
        self.scroll_preview = None;
        self.filter_notices(NoticeFilter::KeepConstraining);
    }

    /// Start a new attachment attempt on the same endpoint, keeping the last scene.
    pub fn prepare_reconnect(&mut self)
        ensures
            final(self).current is None,
            final(self).scene == old(self).scene,
            final(self).connection == ConnectionState::Connecting,
            final(self).awaiting_current_frame,
            final(self).scroll_preview is None,
            final(self).notices@.len() == 0,
    {
        self.current = None;
        self.connection = ConnectionState::Connecting;
        self.awaiting_current_frame = true;
        self.scroll_preview = None;
        self.notices = Vec::new();
    }

    /// Show a notice owned by one Venus path, replacing that path's earlier notice.
    /// A lifecycle end keeps its own explanation.
    pub fn set_venus_notice(&mut self, source: LocalNoticeSource, detail: String)
        ensures
            old(self).connection.spec_is_terminal() ==> *final(self) == *old(self),
            !old(self).connection.spec_is_terminal() ==> {
                &&& notices_view(final(self).notices@) == notices_view(old(self).notices@).filter(
                    keep_pred(NoticeFilter::DropVenus(source))).push(
                    (NoticeOwner::Venus(source), bounded_text(detail@)))
                &&& final(self).current == old(self).current
                &&& final(self).scene == old(self).scene
                &&& final(self).scroll_preview == old(self).scroll_preview
                &&& final(self).connection == old(self).connection
                &&& final(self).awaiting_current_frame == old(self).awaiting_current_frame
            },
    {
        if self.is_terminal() {
            return;
        }
        self.filter_notices(NoticeFilter::DropVenus(source));
        let ghost before = self.notices@;
        self.notices.push(Notice { owner: NoticeOwner::Venus(source), detail: bounded(detail) });
        assert(notices_view(self.notices@) =~= notices_view(before).push(
            (NoticeOwner::Venus(source), bounded_text(detail@))));
    }

    /// Resolve the notice of one Venus path. Returns whether a notice went away.
    pub fn clear_venus_notice(&mut self, source: LocalNoticeSource) -> (changed: bool)
        ensures
            notices_view(final(self).notices@)
                == notices_view(old(self).notices@).filter(keep_pred(NoticeFilter::DropVenus(source))),
            changed == (final(self).notices@.len() != old(self).notices@.len()),
            final(self).current == old(self).current,
            final(self).scene == old(self).scene,
            final(self).scroll_preview == old(self).scroll_preview,
            final(self).connection == old(self).connection,
            final(self).awaiting_current_frame == old(self).awaiting_current_frame,
    {
        let previous_len = self.notices.len();
        self.filter_notices(NoticeFilter::DropVenus(source));
        self.notices.len() != previous_len
    }

    /// Apply one Orbit message in the accepted local-session order.
    pub fn apply<E>(&mut self, event: ServerEvent<S, R, E>) -> (result: Result<Option<ClipboardEffect>, ModelError<E>>)
        ensures
            // Anything out of order is refused and changes nothing.
            result == Err::<Option<ClipboardEffect>, ModelError<E>>(ModelError::UnexpectedMessage) ==> *final(self) == *old(self),
            result matches Err(ModelError::Frame(_)) ==> *final(self) == *old(self),
            // Only a connecting or attached session accepts anything.
            !old(self).attached() && !old(self).connecting()
                ==> result == Err::<Option<ClipboardEffect>, ModelError<E>>(ModelError::UnexpectedMessage),
            // A lifecycle end refuses every message and stays as it is.
            old(self).connection.spec_is_terminal() ==> {
                &&& result == Err::<Option<ClipboardEffect>, ModelError<E>>(ModelError::UnexpectedMessage)
                &&& *final(self) == *old(self)
            },
            match event {
                ServerEvent::Attached => if old(self).connecting() {
                    &&& result == Ok::<Option<ClipboardEffect>, ModelError<E>>(None)
                    &&& final(self).connection == ConnectionState::Attached
                    &&& final(self).notices@.len() == 0
                    &&& final(self).current == old(self).current
                    &&& final(self).scene == old(self).scene
                    &&& final(self).scroll_preview == old(self).scroll_preview
                    &&& final(self).awaiting_current_frame == old(self).awaiting_current_frame
                } else {
                    result == Err::<Option<ClipboardEffect>, ModelError<E>>(ModelError::UnexpectedMessage)
                },
                ServerEvent::Frame(reduced) => if old(self).attached() {
                    match reduced {
                        Err(error) => result == Err::<Option<ClipboardEffect>, ModelError<E>>(ModelError::Frame(error)),
                        Ok(frame) => {
                            &&& result == Ok::<Option<ClipboardEffect>, ModelError<E>>(None)
                            &&& final(self).scene == Some(frame.scene)
                            &&& final(self).current == Some(frame.info)
                            &&& final(self).scroll_preview is None
                            &&& !final(self).awaiting_current_frame
                            &&& final(self).connection == old(self).connection
                            &&& final(self).notices == old(self).notices
                        },
                    }
                } else {
                    result == Err::<Option<ClipboardEffect>, ModelError<E>>(ModelError::UnexpectedMessage)
                },
                ServerEvent::VerticalPreview { frame_revision, direction, outcome } => if !old(self).attached() {
                    result == Err::<Option<ClipboardEffect>, ModelError<E>>(ModelError::UnexpectedMessage)
                } else {
                    match old(self).current {
                        None => result == Err::<Option<ClipboardEffect>, ModelError<E>>(ModelError::UnexpectedMessage),
                        Some(current) => if frame_revision != current.revision {
                            &&& result == Ok::<Option<ClipboardEffect>, ModelError<E>>(None)
                            &&& final(self).scroll_preview is None
                            &&& final(self).current == old(self).current
                            &&& final(self).scene == old(self).scene
                            &&& final(self).connection == old(self).connection
                            &&& final(self).notices == old(self).notices
                            &&& final(self).awaiting_current_frame == old(self).awaiting_current_frame
                        } else if !preview_fits(current, outcome) {
                            result == Err::<Option<ClipboardEffect>, ModelError<E>>(ModelError::UnexpectedMessage)
                        } else {
                            &&& result == Ok::<Option<ClipboardEffect>, ModelError<E>>(None)
                            &&& final(self).scroll_preview == Some(spec_scene_preview(current, direction, outcome))
                            &&& final(self).current == old(self).current
                            &&& final(self).scene == old(self).scene
                            &&& final(self).connection == old(self).connection
                            &&& final(self).notices == old(self).notices
                            &&& final(self).awaiting_current_frame == old(self).awaiting_current_frame
                        },
                    }
                },
                ServerEvent::ScrollTerminalOwned { requested_rows } => if !old(self).attached() || old(self).current is None {
                    result == Err::<Option<ClipboardEffect>, ModelError<E>>(ModelError::UnexpectedMessage)
                } else {
                    &&& result == Ok::<Option<ClipboardEffect>, ModelError<E>>(None)
                    &&& final(self).scroll_preview == Some(ScenePreview::<R>::TerminalOwned {
                        frame_revision: old(self).current->0.revision,
                        direction: spec_scroll_direction(requested_rows),
                    })
                    &&& final(self).current == old(self).current
                    &&& final(self).scene == old(self).scene
                    &&& final(self).connection == old(self).connection
                    &&& final(self).notices == old(self).notices
                    &&& final(self).awaiting_current_frame == old(self).awaiting_current_frame
                },
                ServerEvent::ScrollViewport { requested_rows, frame, next, reduced } => if !old(self).attached()
                    || !preview_fits(frame, next) {
                    result == Err::<Option<ClipboardEffect>, ModelError<E>>(ModelError::UnexpectedMessage)
                } else {
                    match reduced {
                        Err(error) => result == Err::<Option<ClipboardEffect>, ModelError<E>>(ModelError::Frame(error)),
                        Ok(reduced) => {
                            &&& result == Ok::<Option<ClipboardEffect>, ModelError<E>>(None)
                            &&& final(self).scene == Some(reduced.scene)
                            &&& final(self).current == Some(reduced.info)
                            &&& final(self).scroll_preview == Some(spec_scene_preview(frame,
                                spec_scroll_direction(requested_rows), next))
                            &&& !final(self).awaiting_current_frame
                            &&& final(self).connection == old(self).connection
                            &&& final(self).notices == old(self).notices
                        },
                    }
                },
                ServerEvent::Acknowledged => if old(self).attached() {
                    &&& result == Ok::<Option<ClipboardEffect>, ModelError<E>>(None)
                    &&& notices_view(final(self).notices@)
                        == notices_view(old(self).notices@).filter(keep_pred(NoticeFilter::DropOrbit))
                    &&& final(self).current == old(self).current
                    &&& final(self).scene == old(self).scene
                    &&& final(self).scroll_preview == old(self).scroll_preview
                    &&& final(self).connection == old(self).connection
                    &&& final(self).awaiting_current_frame == old(self).awaiting_current_frame
                } else {
                    result == Err::<Option<ClipboardEffect>, ModelError<E>>(ModelError::UnexpectedMessage)
                },
                ServerEvent::Failure { failure, detail } => if old(self).attached() || old(self).connecting() {
                    &&& result == Ok::<Option<ClipboardEffect>, ModelError<E>>(None)
                    &&& final(self).scroll_preview is None
                    &&& notices_view(final(self).notices@)
                        == notices_view(old(self).notices@).filter(keep_pred(NoticeFilter::DropOrbit)).push(
                        (NoticeOwner::Orbit(failure), failure_notice(failure, detail@)))
                    &&& final(self).current == old(self).current
                    &&& final(self).scene == old(self).scene
                    &&& final(self).connection == old(self).connection
                    &&& final(self).awaiting_current_frame == old(self).awaiting_current_frame
                } else {
                    result == Err::<Option<ClipboardEffect>, ModelError<E>>(ModelError::UnexpectedMessage)
                },
                ServerEvent::Busy => if old(self).connecting() {
                    &&& result == Ok::<Option<ClipboardEffect>, ModelError<E>>(None)
                    &&& final(self).connection == ConnectionState::Busy
                    &&& final(self).scroll_preview is None
                    &&& final(self).notices@.len() == 0
                    &&& final(self).current == old(self).current
                    &&& final(self).scene == old(self).scene
                    &&& final(self).awaiting_current_frame == old(self).awaiting_current_frame
                } else {
                    result == Err::<Option<ClipboardEffect>, ModelError<E>>(ModelError::UnexpectedMessage)
                },
                ServerEvent::Exited { code } => if old(self).attached() {
                    &&& result == Ok::<Option<ClipboardEffect>, ModelError<E>>(None)
                    &&& final(self).connection == ConnectionState::Exited { code }
                    &&& final(self).scroll_preview is None
                    &&& final(self).notices@.len() == 0
                    &&& final(self).current == old(self).current
                    &&& final(self).scene == old(self).scene
                    &&& final(self).awaiting_current_frame == old(self).awaiting_current_frame
                } else {
                    result == Err::<Option<ClipboardEffect>, ModelError<E>>(ModelError::UnexpectedMessage)
                },
                ServerEvent::CopiedText { location, text } => if old(self).attached() {
                    &&& result == Ok::<Option<ClipboardEffect>, ModelError<E>>(Some(ClipboardEffect::SelectionCopy { location, text }))
                    &&& notices_view(final(self).notices@)
                        == notices_view(old(self).notices@).filter(keep_pred(NoticeFilter::DropOrbit))
                    &&& final(self).current == old(self).current
                    &&& final(self).scene == old(self).scene
                    &&& final(self).scroll_preview == old(self).scroll_preview
                    &&& final(self).connection == old(self).connection
                    &&& final(self).awaiting_current_frame == old(self).awaiting_current_frame
                } else {
                    result == Err::<Option<ClipboardEffect>, ModelError<E>>(ModelError::UnexpectedMessage)
                },
                ServerEvent::ClipboardWrite { location, text } => if old(self).attached() {
                    &&& result == Ok::<Option<ClipboardEffect>, ModelError<E>>(Some(ClipboardEffect::TerminalWrite { location, text }))
                    &&& *final(self) == *old(self)
                } else {
                    result == Err::<Option<ClipboardEffect>, ModelError<E>>(ModelError::UnexpectedMessage)
                },
                ServerEvent::Other => result == Err::<Option<ClipboardEffect>, ModelError<E>>(ModelError::UnexpectedMessage),
            },
    {
        let connecting = match self.connection {
            ConnectionState::Connecting => true,
            _ => false,
        };
        let attached = self.is_attached();
        match event {
            ServerEvent::Attached => {
                if !connecting {
                    return Err(ModelError::UnexpectedMessage);
                }
                self.connection = ConnectionState::Attached;
                self.notices = Vec::new();
            }
            ServerEvent::Frame(reduced) => {
                if !attached {
                    return Err(ModelError::UnexpectedMessage);
                }
                match reduced {
                    Err(error) => return Err(ModelError::Frame(error)),
                    Ok(frame) => {
                        self.scene = Some(frame.scene);
                        self.current = Some(frame.info);
                        self.scroll_preview = None;
                        self.awaiting_current_frame = false;
                    }
                }
            }
            ServerEvent::VerticalPreview { frame_revision, direction, outcome } => {
                if !attached {
                    return Err(ModelError::UnexpectedMessage);
                }
                let current = match self.current {
                    Some(current) => current,
                    None => return Err(ModelError::UnexpectedMessage),
                };
                if frame_revision != current.revision {
                    self.scroll_preview = None;
                    return Ok(None);
                }
                match scene_preview(current, direction, outcome) {
                    Some(preview) => self.scroll_preview = Some(preview),
                    None => return Err(ModelError::UnexpectedMessage),
                }
            }
            ServerEvent::ScrollTerminalOwned { requested_rows } => {
                if !attached {
                    return Err(ModelError::UnexpectedMessage);
                }
                let frame_revision = match self.current {
                    Some(current) => current.revision,
                    None => return Err(ModelError::UnexpectedMessage),
                };
                self.scroll_preview = Some(ScenePreview::TerminalOwned {
                    frame_revision,
                    direction: scroll_direction(requested_rows),
                });
            }
            ServerEvent::ScrollViewport { requested_rows, frame, next, reduced } => {
                if !attached {
                    return Err(ModelError::UnexpectedMessage);
                }
                let preview = match scene_preview(frame, scroll_direction(requested_rows), next) {
                    Some(preview) => preview,
                    None => return Err(ModelError::UnexpectedMessage),
                };
                match reduced {
                    Err(error) => return Err(ModelError::Frame(error)),
                    Ok(reduced) => {
                        self.scene = Some(reduced.scene);
                        self.current = Some(reduced.info);
                        self.scroll_preview = Some(preview);
                        self.awaiting_current_frame = false;
                    }
                }
            }
            ServerEvent::Acknowledged => {
                if !attached {
                    return Err(ModelError::UnexpectedMessage);
                }
                self.filter_notices(NoticeFilter::DropOrbit);
            }
            ServerEvent::Failure { failure, detail } => {
                if !(connecting || attached) {
                    return Err(ModelError::UnexpectedMessage);
                }
                self.scroll_preview = None;
                self.filter_notices(NoticeFilter::DropOrbit);
                let ghost before = self.notices@;
                let text = failure_text(failure, detail.as_str());
                self.notices.push(Notice { owner: NoticeOwner::Orbit(failure), detail: text });
                assert(notices_view(self.notices@) =~= notices_view(before).push(
                    (NoticeOwner::Orbit(failure), failure_notice(failure, detail@))));
            }
            ServerEvent::Busy => {
                if !connecting {
                    return Err(ModelError::UnexpectedMessage);
                }
                self.connection = ConnectionState::Busy;
                self.scroll_preview = None;
                self.notices = Vec::new();
            }
            ServerEvent::Exited { code } => {
                if !attached {
                    return Err(ModelError::UnexpectedMessage);
                }
                self.connection = ConnectionState::Exited { code };
                self.scroll_preview = None;
                self.notices = Vec::new();
            }
            ServerEvent::CopiedText { location, text } => {
                if !attached {
                    return Err(ModelError::UnexpectedMessage);
                }
                self.filter_notices(NoticeFilter::DropOrbit);
                return Ok(Some(ClipboardEffect::SelectionCopy { location, text }));
            }
            ServerEvent::ClipboardWrite { location, text } => {
                if !attached {
                    return Err(ModelError::UnexpectedMessage);
                }
                return Ok(Some(ClipboardEffect::TerminalWrite { location, text }));
            }
            ServerEvent::Other => return Err(ModelError::UnexpectedMessage),
        }
        Ok(None)
    }
}

/// Law: notices recover independently by source. Resolving one Venus path removes
/// exactly that path's notices and keeps every other notice, in order.
pub proof fn lemma_notice_sources_recover_independently(
    notices: Seq<(NoticeOwner, Seq<char>)>,
    resolved: LocalNoticeSource,
    other: NoticeOwner,
    detail: Seq<char>,
)
    requires
        other != NoticeOwner::Venus(resolved),
    ensures
        notices.push((other, detail)).filter(keep_pred(NoticeFilter::DropVenus(resolved)))
            == notices.filter(keep_pred(NoticeFilter::DropVenus(resolved))).push((other, detail)),
        forall|i: int| 0 <= i < notices.filter(keep_pred(NoticeFilter::DropVenus(resolved))).len()
            ==> #[trigger] notices.filter(keep_pred(NoticeFilter::DropVenus(resolved)))[i].0 != NoticeOwner::Venus(resolved),
{
    reveal_with_fuel(Seq::<(NoticeOwner, Seq<char>)>::filter, 1);
    assert(notices.push((other, detail)).drop_last() =~= notices);
    assert forall|i: int| 0 <= i < notices.filter(keep_pred(NoticeFilter::DropVenus(resolved))).len()
        implies #[trigger] notices.filter(keep_pred(NoticeFilter::DropVenus(resolved)))[i].0 != NoticeOwner::Venus(resolved) by {
        notices.lemma_filter_pred(keep_pred(NoticeFilter::DropVenus(resolved)), i);
    }
}

/// Law: a lifecycle end (busy, incompatible, lost or exited) is neither connecting
/// nor attached. These are the states in which `apply` refuses every message
/// without a change; its `ensures`, and those of the `mark_*` functions and
/// `set_venus_notice`, state that a lifecycle end stays as it is.
pub proof fn lemma_terminal_state_refuses_messages<S, R>(model: SessionModel<S, R>)
    requires
        model.connection.spec_is_terminal(),
    ensures
        !model.attached(),
        !model.connecting(),
{
}

} // verus!