use yazelix_venus::model::{
    ClipboardEffect, ClipboardLocation, ConnectionState, FailureCode, FrameInfo, LocalNoticeSource, ModelError,
    PreviewOutcome, ReducedFrame, ScenePreview, ServerEvent, SessionModel, VerticalDirection, bounded,
};

/// A scene as the tests see it: its revision and whether it shows the alternate
/// screen.
#[derive(Clone, Copy, Debug, PartialEq)]
struct Scene {
    revision: u64,
    alternate: bool,
}

type Rows = Vec<&'static str>;
type Model = SessionModel<Scene, Rows>;
type Event = ServerEvent<Scene, Rows, String>;

const PRIMARY: bool = false;
const ALTERNATE: bool = true;

fn info(revision: u64, rows: u16) -> FrameInfo {
    FrameInfo { revision, cols: 4, rows }
}

fn reduced(revision: u64, alternate: bool, rows: u16) -> Result<ReducedFrame<Scene>, String> {
    Ok(ReducedFrame { scene: Scene { revision, alternate }, info: info(revision, rows) })
}

fn frame(revision: u64, alternate: bool) -> Event {
    Event::Frame(reduced(revision, alternate, 1))
}

fn failure(failure: FailureCode, detail: &str) -> Event {
    Event::Failure { failure, detail: detail.into() }
}

fn attached_model() -> Model {
    let mut model = Model::new();
    model.apply(Event::Attached).unwrap();
    model
}

fn revision(model: &Model) -> u64 {
    model.scene().unwrap().revision
}

#[test]
fn ordered_frames_reject_stale_revisions_without_replacing_state() {
    let mut model = attached_model();
    model.apply(frame(9, PRIMARY)).unwrap();
    // The frame reducer refuses a second frame of revision 9.
    let error = model.apply(Event::Frame(Err("stale revision 9".into()))).unwrap_err();
    assert!(matches!(error, ModelError::Frame(_)));
    assert_eq!(error.message(), "Orbit frame rejected: stale revision 9");
    assert_eq!(revision(&model), 9);
    assert!(!model.scene().unwrap().alternate);
}

#[test]
fn canonical_scroll_outcomes_reuse_the_existing_result_and_frame_owners() {
    let mut model = attached_model();
    model.apply(failure(FailureCode::InvalidInput, "stale wheel")).unwrap();
    model.apply(Event::Acknowledged).unwrap();
    assert!(model.notice().is_none());

    model.apply(frame(1, PRIMARY)).unwrap();
    assert_eq!(revision(&model), 1);

    model
        .apply(Event::VerticalPreview {
            frame_revision: 1,
            direction: VerticalDirection::Up,
            outcome: PreviewOutcome::TerminalRouted,
        })
        .unwrap();
    assert!(matches!(
        model.scroll_preview(),
        Some(ScenePreview::TerminalOwned { frame_revision: 1, direction: VerticalDirection::Up })
    ));
    assert_eq!(revision(&model), 1);

    model.apply(failure(FailureCode::InvalidInput, "stale scroll")).unwrap();
    assert!(model.scroll_preview().is_none());
    assert_eq!(revision(&model), 1);
}

#[test]
fn a_new_attachment_replaces_state_without_a_compatibility_window() {
    let mut first = attached_model();
    first.apply(frame(42, PRIMARY)).unwrap();

    let mut reopened = attached_model();
    reopened.apply(frame(1, ALTERNATE)).unwrap();
    assert_eq!(revision(&reopened), 1);
    assert!(reopened.scene().unwrap().alternate);
}

#[test]
fn reconnect_preserves_the_last_scene_and_accepts_a_fresh_revision() {
    let mut model = attached_model();
    model.apply(frame(42, PRIMARY)).unwrap();
    model.mark_lost("Orbit closed the local session".into());

    model.prepare_reconnect();
    assert_eq!(model.connection(), &ConnectionState::Connecting);
    assert_eq!(revision(&model), 42);
    assert!(model.awaiting_current_frame());

    model.mark_lost("The selected Eon pane is offline".into());
    assert_eq!(model.connection(), &ConnectionState::Lost { detail: "The selected Eon pane is offline".into() });
    assert_eq!(revision(&model), 42);
    model.prepare_reconnect();

    model.apply(Event::Attached).unwrap();
    assert!(model.awaiting_current_frame());
    model.apply(frame(1, ALTERNATE)).unwrap();
    assert!(!model.awaiting_current_frame());
    assert_eq!(revision(&model), 1);
    assert!(model.scene().unwrap().alternate);
}

#[test]
fn attachment_and_server_failures_are_explicit_and_bounded() {
    let mut busy = Model::new();
    busy.apply(Event::Busy).unwrap();
    busy.mark_lost("late socket close".into());
    assert_eq!(busy.connection(), &ConnectionState::Busy);
    assert!(busy.is_terminal());

    let mut incompatible = Model::new();
    incompatible.mark_incompatible(3);
    assert_eq!(incompatible.connection(), &ConnectionState::Incompatible { version: 3 });
    assert!(incompatible.is_terminal());

    let mut attached = attached_model();
    assert!(!attached.is_terminal());
    for (code, expected) in [
        (FailureCode::InvalidInput, "Orbit rejected input: detail"),
        (FailureCode::Protocol, "Orbit protocol failure: detail"),
        (FailureCode::Terminal, "Orbit terminal failure: detail"),
    ] {
        attached.apply(failure(code, "detail")).unwrap();
        assert_eq!(attached.notice(), Some(expected));
    }
    attached.apply(Event::Failure { failure: FailureCode::InvalidInput, detail: "x".repeat(2_000) }).unwrap();
    let notice = attached.notice().unwrap().to_owned();
    assert!(notice.starts_with("Orbit rejected input: "));
    assert_eq!(notice.chars().count(), 1_025);
    attached.apply(frame(1, PRIMARY)).unwrap();
    assert_eq!(attached.notice(), Some(notice.as_str()));
    attached.apply(Event::Acknowledged).unwrap();
    assert!(attached.notice().is_none());
    attached.mark_lost("Orbit closed the local session".into());
    attached.mark_lost("late socket error".into());
    attached.set_venus_notice(LocalNoticeSource::Input, "late input error".into());
    assert!(matches!(
        attached.connection(),
        ConnectionState::Lost { detail } if detail == "Orbit closed the local session"
    ));
    assert!(attached.notice().is_none());
}

#[test]
fn notices_recover_independently_by_source() {
    let mut model = attached_model();
    model.set_venus_notice(LocalNoticeSource::Input, "Venus could not encode input".into());
    model.apply(Event::Acknowledged).unwrap();
    assert_eq!(model.notice(), Some("Venus could not encode input"));
    assert!(!model.clear_venus_notice(LocalNoticeSource::Resize));
    model.set_venus_notice(LocalNoticeSource::Resize, "Window is too large".into());
    model.set_venus_notice(LocalNoticeSource::Queue, "Venus input queue is full".into());
    assert_eq!(model.notice(), Some("Venus input queue is full"));
    assert!(model.clear_venus_notice(LocalNoticeSource::Queue));
    assert_eq!(model.notice(), Some("Window is too large"));
    assert!(model.clear_venus_notice(LocalNoticeSource::Resize));
    assert_eq!(model.notice(), Some("Venus could not encode input"));
    assert!(model.clear_venus_notice(LocalNoticeSource::Input));
    model.apply(failure(FailureCode::InvalidInput, "bad key")).unwrap();
    assert!(!model.clear_venus_notice(LocalNoticeSource::Input));
    assert_eq!(model.notice(), Some("Orbit rejected input: bad key"));
    model.set_venus_notice(LocalNoticeSource::Queue, "Venus input queue is full".into());
    assert_eq!(model.notice(), Some("Venus input queue is full"));
    model.apply(Event::Acknowledged).unwrap();
    assert_eq!(model.notice(), Some("Venus input queue is full"));
    assert!(model.clear_venus_notice(LocalNoticeSource::Queue));
    assert!(model.notice().is_none());
}

#[test]
fn clipboard_text_is_an_attached_one_shot_effect_not_presentation_state() {
    let mut model = Model::new();
    assert_eq!(
        model
            .apply(Event::CopiedText { location: ClipboardLocation::Selection, text: "not attached".into() })
            .unwrap_err(),
        ModelError::UnexpectedMessage
    );
    assert_eq!(
        model
            .apply(Event::ClipboardWrite { location: ClipboardLocation::Primary, text: "not attached".into() })
            .unwrap_err(),
        ModelError::UnexpectedMessage
    );

    let mut model = attached_model();
    model.apply(frame(1, PRIMARY)).unwrap();
    assert_eq!(
        model
            .apply(Event::CopiedText { location: ClipboardLocation::Selection, text: "e\u{301}界\nsecond".into() })
            .unwrap(),
        Some(ClipboardEffect::SelectionCopy { location: ClipboardLocation::Selection, text: "e\u{301}界\nsecond".into() })
    );
    model.apply(failure(FailureCode::InvalidInput, "bad key")).unwrap();
    assert_eq!(
        model
            .apply(Event::ClipboardWrite { location: ClipboardLocation::Selection, text: "terminal".into() })
            .unwrap(),
        Some(ClipboardEffect::TerminalWrite { location: ClipboardLocation::Selection, text: "terminal".into() })
    );
    assert_eq!(model.notice(), Some("Orbit rejected input: bad key"));
    // Accepted input and a finished selection are both acknowledgements.
    assert_eq!(model.apply(Event::Acknowledged).unwrap(), None);
    assert_eq!(model.apply(Event::Acknowledged).unwrap(), None);
    assert_eq!(revision(&model), 1);
}

#[test]
fn revision_bound_scroll_previews_follow_atomic_frames() {
    let mut model = attached_model();
    model.apply(Event::Frame(reduced(1, PRIMARY, 2))).unwrap();
    model
        .apply(Event::VerticalPreview {
            frame_revision: 1,
            direction: VerticalDirection::Up,
            outcome: PreviewOutcome::Viewport {
                cols: 4,
                edge_reached: false,
                rows: vec!["e\u{301}", "older"],
                row_count: 2,
            },
        })
        .unwrap();
    assert!(matches!(
        model.scroll_preview(),
        Some(ScenePreview::Viewport { frame_revision: 1, direction: VerticalDirection::Up, rows, .. })
            if rows.len() == 2 && rows[0] == "e\u{301}" && rows[1] == "older"
    ));

    for (cols, rows) in [(3, vec!["e\u{301}"]), (4, vec!["e\u{301}"; 3])] {
        let row_count = rows.len();
        assert_eq!(
            model
                .apply(Event::ScrollViewport {
                    requested_rows: -1,
                    frame: info(2, 2),
                    next: PreviewOutcome::Viewport { cols, edge_reached: false, rows, row_count },
                    reduced: reduced(2, PRIMARY, 2),
                })
                .unwrap_err(),
            ModelError::UnexpectedMessage
        );
        assert_eq!(revision(&model), 1);
        assert!(matches!(model.scroll_preview(), Some(ScenePreview::Viewport { frame_revision: 1, .. })));
    }

    model
        .apply(Event::ScrollViewport {
            requested_rows: -1,
            frame: info(2, 2),
            next: PreviewOutcome::Viewport { cols: 4, edge_reached: false, rows: vec!["e\u{301}"], row_count: 1 },
            reduced: reduced(2, PRIMARY, 2),
        })
        .unwrap();
    assert_eq!(revision(&model), 2);
    assert!(matches!(
        model.scroll_preview(),
        Some(ScenePreview::Viewport { frame_revision: 2, direction: VerticalDirection::Up, rows, .. }) if rows.len() == 1
    ));

    model
        .apply(Event::VerticalPreview {
            frame_revision: 1,
            direction: VerticalDirection::Up,
            outcome: PreviewOutcome::TerminalRouted,
        })
        .unwrap();
    assert!(model.scroll_preview().is_none());
    assert_eq!(revision(&model), 2);
}

#[test]
fn invalid_session_and_frame_bytes_never_reach_draw_state() {
    let mut model = Model::new();
    assert_eq!(model.apply(frame(1, PRIMARY)).unwrap_err(), ModelError::UnexpectedMessage);
    assert!(model.scene().is_none());

    assert_eq!(model.apply(Event::Acknowledged).unwrap_err(), ModelError::UnexpectedMessage);
    let mut attached = attached_model();
    assert_eq!(attached.apply(Event::Busy).unwrap_err(), ModelError::UnexpectedMessage);
    assert!(attached.is_attached());
}

#[test]
fn out_of_order_messages_are_named() {
    let error: ModelError<String> = ModelError::UnexpectedMessage;
    assert_eq!(error.message(), "Orbit sent a local-session message out of order");
}

#[test]
fn long_notices_are_cut_to_a_bounded_length() {
    assert_eq!(bounded("short".into()), "short");
    let cut = bounded("y".repeat(1_500));
    assert_eq!(cut.chars().count(), 1_025);
    assert!(cut.ends_with('…'));
    assert_eq!(bounded("z".repeat(1_024)), "z".repeat(1_024));
}

