use yazelix_venus::links::{
    link_dispatch_notice, DispatchState, accessible_link_label, link_identity, link_spawn_error, validate_copy_uri, validate_open_uri, LinkError,
};
use yazelix_venus::platform::NativePlatform;
use yazelix_venus::presentation::PresentationState;
use yazelix_venus::shortcuts::{copy_paste_modifiers, link_copy_shortcut, link_hint_for, KeyCode};

/// The bracketed host of an accepted URI, which the caller still checks as an
/// IPv6 address.
fn bracketed_host(uri: &str) -> Option<&str> {
    match validate_open_uri(uri) {
        Ok(Some((start, end))) => Some(&uri[start..end]),
        _ => None,
    }
}

#[test]
fn hyperlink_actions_require_current_presentation_and_safe_exact_uri() {
    let mut presentation = PresentationState::default();
    let first = presentation.candidate(Some(7));
    assert!(!presentation.is_current(first));
    presentation.publish(first);
    assert!(presentation.is_current(first));
    presentation.content_changed();
    assert!(!presentation.is_current(first));
    let second = presentation.candidate(Some(8));
    assert!(!presentation.is_current(second));
    presentation.publish(second);
    assert!(presentation.is_current(second));
    presentation.unpublish();
    assert!(!presentation.is_current(second));
    presentation.invalidate();
    presentation.publish(first);
    assert!(!presentation.is_current(first));

    for uri in ["https://example.com/exact?x=%26&y=2#part", "HTTP://localhost:8080/"] {
        assert_eq!(validate_open_uri(uri), Ok(None), "{uri}");
    }
    assert_eq!(bracketed_host("https://[::1]:443/a"), Some("::1"));
    for uri in [
        "file:///etc/passwd",
        "javascript:alert(1)",
        "https:///bad",
        "https://user@example.com/",
        "https://example.com\\@evil.test",
        "https://example.com/%zz",
        "https://example.com/%0",
        "https://example.com/\n",
        "https://example.com/\u{202e}",
        "https://example.com:99999/",
        "https://-bad.example/",
        "https://example.com/ space",
    ] {
        assert!(validate_open_uri(uri).is_err(), "{uri:?}");
    }
    // Not an IPv6 address: refused once the caller checks the bracketed host.
    assert_eq!(bracketed_host("https://[bad]/"), Some("bad"));
    assert!(validate_open_uri(&format!("https://example.com/{}", "x".repeat(4096))).is_err());
    assert!(validate_copy_uri("file:///tmp/a").is_ok());
    assert!(validate_copy_uri("https://example.com/\n").is_err());
    let target = "https://example.com/\u{202e}abc";
    assert_eq!(
        link_hint_for(NativePlatform::Linux, target),
        "https://example.com/\\u{202e}abc\nCtrl+click Open · Ctrl+Shift+C Copy"
    );
    let copy_modifiers = copy_paste_modifiers(NativePlatform::Linux);
    assert!(link_copy_shortcut(NativePlatform::Linux, KeyCode::KeyC, copy_modifiers, false, true));
    assert!(!link_copy_shortcut(NativePlatform::Linux, KeyCode::KeyC, copy_modifiers, true, true));
    for key in [KeyCode::Other, KeyCode::ArrowLeft, KeyCode::ArrowRight, KeyCode::Escape] {
        assert!(!link_copy_shortcut(NativePlatform::Linux, key, copy_modifiers, false, true));
    }
}

#[test]
fn each_refusal_names_its_reason() {
    assert_eq!(validate_copy_uri(""), Err(LinkError::Length));
    assert_eq!(validate_copy_uri(&"x".repeat(4097)), Err(LinkError::Length));
    assert!(validate_copy_uri(&"x".repeat(4096)).is_ok());
    assert_eq!(validate_copy_uri("a\u{7f}b"), Err(LinkError::Control));
    assert_eq!(validate_open_uri("file:///etc/passwd"), Err(LinkError::Scheme));
    assert_eq!(validate_open_uri("https://example.com/%zz"), Err(LinkError::PercentEscape));
    assert_eq!(validate_open_uri("https://user@example.com/"), Err(LinkError::Malformed));
    assert_eq!(validate_open_uri("https:example.com"), Err(LinkError::Malformed));
    assert_eq!(validate_open_uri("https://example.com:65535/"), Ok(None));
    assert_eq!(validate_open_uri("https://example.com:65536/"), Err(LinkError::Malformed));
    assert_eq!(validate_open_uri("https://example.com./"), Ok(None));
    assert_eq!(LinkError::Length.message(), "Link target must contain 1–4096 bytes.");
    assert_eq!(LinkError::Scheme.message(), "Only HTTP and HTTPS links can be opened. Copy other targets explicitly.");
    assert_eq!(LinkError::PercentEscape.message(), "Link target contains an invalid percent escape.");
}

#[test]
fn accessible_link_labels_escape_or_refuse_the_target() {
    assert_eq!(accessible_link_label("https://example.com/a"), "https://example.com/a");
    assert_eq!(accessible_link_label("https://example.com/\u{202e}abc"), "https://example.com/\\u{202e}abc");
    assert_eq!(accessible_link_label("https://example.com/\n"), "https://example.com/\\n");
    assert_eq!(accessible_link_label("https://example.com/界"), "https://example.com/界");
    assert_eq!(accessible_link_label(&"x".repeat(4097)), "Link target exceeds 4096 bytes");
    assert_eq!(accessible_link_label(&"x".repeat(4096)), "x".repeat(4096));
}

#[test]
fn link_identity_needs_a_scene_and_a_generation() {
    assert_eq!(link_identity(Some(9), Some(2)), Some((2, 9)));
    assert_eq!(link_identity(None, Some(2)), None);
    assert_eq!(link_identity(Some(9), None), None);
}

#[test]
fn link_opener_failures_name_the_platform_tool() {
    assert_eq!(
        link_spawn_error(NativePlatform::Linux),
        "Cannot open link: install GIO (gio) on the desktop host PATH."
    );
    assert_eq!(link_spawn_error(NativePlatform::Macos), "Cannot open link: /usr/bin/open is unavailable.");
}

#[test]
fn link_dispatch_ends_with_one_notice() {
    assert_eq!(link_dispatch_notice(DispatchState::Succeeded), Some("Link handed to the desktop handler."));
    assert_eq!(
        link_dispatch_notice(DispatchState::Failed),
        Some("Could not open link. Check the desktop's HTTP/HTTPS handler.")
    );
    assert_eq!(link_dispatch_notice(DispatchState::Unobservable), Some("Could not observe the native link dispatcher."));
    assert_eq!(link_dispatch_notice(DispatchState::Running { timed_out: false }), None);
    assert_eq!(
        link_dispatch_notice(DispatchState::Running { timed_out: true }),
        Some("Link dispatcher timed out. The handler may already have opened.")
    );
}
