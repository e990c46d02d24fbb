//! The one status line that Venus shows, and who owns it.

use vstd::prelude::*;
use vstd::string::StringExecFns;
use vstd::string::StrSliceExecFns;
use crate::links::MAX_LINK_BYTES;
use crate::model::ConnectionState;
use crate::platform::NativePlatform;
use crate::presentation::PresentationState;
use crate::shortcuts::{link_hint, link_hint_for};
use crate::text::{decimal, push_decimal, push_signed_decimal, signed_decimal};

verus! {

/// The local-session revision this client speaks.
pub const SESSION_VERSION: u16 = 10;

/// The notice shown while a link target is too long to open or copy.
pub open spec fn oversized_link_notice() -> Seq<char> {
    "Link target exceeds "@ + decimal(MAX_LINK_BYTES as nat) + " bytes; opening and copying are disabled."@
}

/// What the status line says about links: the last link notice, else the focused
/// link's hint, refusing targets that are too long.
pub open spec fn spec_link_status(platform: NativePlatform, notice: Option<Seq<char>>, focused: Option<(Seq<char>, nat)>) -> Option<Seq<char>> {
    match notice {
        Some(notice) => Some(notice),
        None => match focused {
            None => None,
            Some((uri, byte_len)) => if byte_len > MAX_LINK_BYTES {
                Some(oversized_link_notice())
            } else {
                Some(link_hint(platform, uri))
            },
        },
    }
}

pub fn link_status(platform: NativePlatform, notice: Option<&str>, focused_uri: Option<&str>) -> (status: Option<String>)
    ensures
        match status {
            Some(text) => spec_link_status(platform, match notice {
                Some(n) => Some(n@),
                None => None,
            }, match focused_uri {
                Some(u) => Some((u@, u.len() as nat)),
                None => None,
            }) == Some(text@),
            None => spec_link_status(platform, match notice {
                Some(n) => Some(n@),
                None => None,
            }, match focused_uri {
                Some(u) => Some((u@, u.len() as nat)),
                None => None,
            }) is None,
        },
{
    if let Some(notice) = notice {
        return Some(String::from_str(notice));
    }
    let uri = match focused_uri {
        Some(uri) => uri,
        None => return None,
    };
    if uri.len() > MAX_LINK_BYTES {
        let mut text = String::from_str("Link target exceeds ");
        push_decimal(&mut text, MAX_LINK_BYTES as u64);
        text.append(" bytes; opening and copying are disabled.");
        return Some(text);
    }
    Some(link_hint_for(platform, uri))
}

/// Everything the status line depends on.
pub struct StatusInputs<'a> {
    pub render_notice: Option<&'a str>,
    pub workspace_notice: Option<&'a str>,
    pub attached: bool,
    pub awaiting_current_frame: bool,
    pub link_status: Option<&'a str>,
    pub model_notice: Option<&'a str>,
    pub initial_scale_pending: bool,
    /// The Eon workspace socket, as displayed.
    pub workspace_socket: Option<&'a str>,
    pub has_snapshot: bool,
    /// The Orbit socket, as displayed.
    pub orbit_socket: Option<&'a str>,
}

/// The status line: a renderer failure, a workspace notice, the link status of a
/// current attachment, a session notice, then progress and lifecycle explanations.
pub open spec fn spec_status(inputs: StatusInputs, connection: ConnectionState) -> Seq<char> {
    if inputs.render_notice is Some {
        inputs.render_notice->0@
    } else if inputs.workspace_notice is Some {
        inputs.workspace_notice->0@
    } else if inputs.attached && !inputs.awaiting_current_frame && inputs.link_status is Some {
        inputs.link_status->0@
    } else if inputs.model_notice is Some {
        inputs.model_notice->0@
    } else if inputs.initial_scale_pending {
        "Opening terminal."@
    } else if inputs.workspace_socket is Some && !inputs.has_snapshot {
        "Connecting to Eon workspace at "@ + inputs.workspace_socket->0@
    } else {
        match connection {
            ConnectionState::Connecting => if inputs.has_snapshot {
                Seq::empty()
            } else {
                "Connecting to Orbit at "@ + inputs.orbit_socket->0@
            },
            ConnectionState::Attached => if inputs.has_snapshot || !inputs.awaiting_current_frame {
                Seq::empty()
            } else {
                "Attached to Orbit. Waiting for its current frame."@
            },
            ConnectionState::Busy => "Orbit already has an attached presentation client."@,
            ConnectionState::Incompatible { version } => "Orbit uses local-session revision "@ + decimal(version as nat)
                + "; Venus requires revision "@ + decimal(SESSION_VERSION as nat) + "."@,
            ConnectionState::Lost { detail } => "Orbit connection lost: "@ + detail@,
            ConnectionState::Exited { code } => "The authoritative Orbit process exited with status "@
                + signed_decimal(code as int) + "."@,
        }
    }
}

/// While Orbit is attached and nothing else asks for the status line (no notice,
/// no link status, no pending scale, no workspace to connect), the line waits for
/// the current frame only while that frame is awaited and nothing was shown yet;
/// once the current frame is shown the line is empty.
pub proof fn lemma_attached_status_waits_only_for_frame(inputs: StatusInputs)
    requires
        inputs.render_notice is None,
        inputs.workspace_notice is None,
        inputs.link_status is None,
        inputs.model_notice is None,
        !inputs.initial_scale_pending,
        inputs.workspace_socket is None,
    ensures
        spec_status(inputs, ConnectionState::Attached) == (if inputs.awaiting_current_frame && !inputs.has_snapshot {
            "Attached to Orbit. Waiting for its current frame."@
        } else {
            Seq::<char>::empty()
        }),
        !inputs.awaiting_current_frame ==> spec_status(inputs, ConnectionState::Attached).len() == 0,
{
}

/// Compose the status line.
pub fn status(inputs: &StatusInputs, connection: &ConnectionState) -> (text: String)
    requires
        inputs.orbit_socket is None ==> !(connection is Connecting) || inputs.has_snapshot
            || inputs.render_notice is Some || inputs.workspace_notice is Some || inputs.model_notice is Some
            || inputs.initial_scale_pending || inputs.workspace_socket is Some
            || (inputs.attached && !inputs.awaiting_current_frame && inputs.link_status is Some),
    ensures
        text@ == spec_status(*inputs, *connection),
{
    if let Some(notice) = inputs.render_notice {
        return String::from_str(notice);
    }
    if let Some(notice) = inputs.workspace_notice {
        return String::from_str(notice);
    }
    if inputs.attached && !inputs.awaiting_current_frame {
        if let Some(status) = inputs.link_status {
            return String::from_str(status);
        }
    }
    if let Some(notice) = inputs.model_notice {
        return String::from_str(notice);
    }
    if inputs.initial_scale_pending {
        return String::from_str("Opening terminal.");
    }
    if let Some(socket) = inputs.workspace_socket {
        if !inputs.has_snapshot {
            let mut text = String::from_str("Connecting to Eon workspace at ");
            text.append(socket);
            return text;
        }
    }
    match connection {
        ConnectionState::Connecting => {
            if inputs.has_snapshot {
                String::new()
            } else {
                let mut text = String::from_str("Connecting to Orbit at ");
                match inputs.orbit_socket {
                    Some(socket) => text.append(socket),
                    None => {}
                }
                text
            }
        }
        ConnectionState::Attached => {
            if inputs.has_snapshot || !inputs.awaiting_current_frame {
                String::new()
            } else {
                String::from_str("Attached to Orbit. Waiting for its current frame.")
            }
        }
        ConnectionState::Busy => String::from_str("Orbit already has an attached presentation client."),
        ConnectionState::Incompatible { version } => {
            let mut text = String::from_str("Orbit uses local-session revision ");
            push_decimal(&mut text, *version as u64);
            text.append("; Venus requires revision ");
            push_decimal(&mut text, SESSION_VERSION as u64);
            text.append(".");
            text
        }
        ConnectionState::Lost { detail } => {
            let mut text = String::from_str("Orbit connection lost: ");
            text.append(detail.as_str());
            text
        }
        ConnectionState::Exited { code } => {
            let mut text = String::from_str("The authoritative Orbit process exited with status ");
            push_signed_decimal(&mut text, *code as i64);
            text.append(".");
            text
        }
    }
}

/// Record a renderer failure: the presentation is retired, and the first failure
/// becomes the standing notice, which is returned for the title and the report.
/// Later failures keep the first notice and return nothing.
pub fn record_render_failure(render_notice: &mut Option<String>, presentation: &mut PresentationState, error: &str) -> (recorded: Option<String>)
    requires
        old(presentation).generation < u64::MAX,
    ensures
        final(presentation).generation == old(presentation).generation + 1,
        final(presentation).presented is None,
        *old(render_notice) is Some ==> recorded is None && *final(render_notice) == *old(render_notice),
        *old(render_notice) is None ==> (recorded matches Some(notice) && notice@ == "Venus renderer failure: "@ + error@),
        *old(render_notice) is None ==> (*final(render_notice) matches Some(standing) && standing@ == "Venus renderer failure: "@ + error@),
{
    presentation.invalidate();
    if render_notice.is_some() {
        return None;
    }
    let mut notice = String::from_str("Venus renderer failure: ");
    notice.append(error);
    let recorded = notice.clone();
    *render_notice = Some(notice);
    Some(recorded)
}

} // verus!
