use yazelix_venus::launch::{launch_arguments, parse_cursor_color, usage_text, valid_application_id, Color, CursorTail};

fn parse(arguments: &[&str]) -> Option<yazelix_venus::launch::LaunchArguments> {
    let arguments = arguments.iter().map(|argument| argument.as_bytes().to_vec()).collect::<Vec<_>>();
    launch_arguments(&arguments, None)
}

#[test]
fn arguments_are_complete_and_defaulted_before_numbers_are_read() {
    let default = parse(&[]).unwrap();
    assert_eq!(default.application_id, b"eon");
    assert!(default.decorations && default.workspace_socket.is_none());
    assert!(!default.supervised);
    assert_eq!(default.background_opacity, None);
    assert!(!default.background_blur);
    assert_eq!(default.cursor_tail, CursorTail::Default);

    let supervised = launch_arguments(&Vec::new(), Some(b"stdin")).unwrap();
    assert!(supervised.supervised);
    let other_control = launch_arguments(&Vec::new(), Some(b"STDIN")).unwrap();
    assert!(!other_control.supervised);

    for value in ["0", "0.88", "1"] {
        let parsed =
            parse(&["--no-decorations", "--background-opacity", value, "--background-blur", "orbit.sock", "eon.sock"])
                .unwrap();
        assert!(!parsed.decorations);
        assert_eq!(parsed.background_opacity, Some(value.as_bytes().to_vec()));
        assert!(parsed.background_blur);
        assert_eq!(parsed.orbit_socket, Some(b"orbit.sock".to_vec()));
        assert_eq!(parsed.workspace_socket, Some(b"eon.sock".to_vec()));
    }

    let tail = parse(&[
        "--cursor-effect-v1",
        "tail",
        "--cursor-trail-color-v1",
        "#12aBcF",
        "--cursor-trail-duration-v1",
        "2.5",
        "orbit.sock",
    ])
    .unwrap();
    assert_eq!(
        tail.cursor_tail,
        CursorTail::Custom { color: Color { r: 0x12, g: 0xab, b: 0xcf }, duration: b"2.5".to_vec() }
    );
    assert_eq!(parse(&["--cursor-effect-v1", "none"]).unwrap().cursor_tail, CursorTail::Disabled);
    assert_eq!(parse(&["--application-id", "eonova"]).unwrap().application_id, b"eonova");

    for invalid in [
        &["--unknown"][..],
        &["one", "two", "three"][..],
        &["--background-opacity"][..],
        &["--background-opacity", "0.5", "--background-opacity", "0.6"][..],
        &["--background-blur", "--background-blur"][..],
        &["--application-id"][..],
        &["--application-id", ""][..],
        &["--application-id", "bad/id"][..],
        &["--application-id", "eon", "--application-id", "eonova"][..],
        &["--cursor-effect-v1"][..],
        &["--cursor-effect-v1", "warp"][..],
        &["--cursor-effect-v1", "tail"][..],
        &["--cursor-effect-v1", "tail", "--cursor-trail-color-v1", "#123456"][..],
        &["--cursor-effect-v1", "none", "--cursor-trail-color-v1", "#123456", "--cursor-trail-duration-v1", "1"][..],
        &["--cursor-trail-color-v1", "#123456"][..],
        &["--cursor-trail-color-v1", "#aéabc"][..],
        &["--cursor-trail-color-v1", "123456"][..],
        &["--cursor-trail-color-v1", "#12345g"][..],
        &["--cursor-trail-duration-v1", "1"][..],
        &[
            "--cursor-effect-v1",
            "tail",
            "--cursor-effect-v1",
            "tail",
            "--cursor-trail-color-v1",
            "#123456",
            "--cursor-trail-duration-v1",
            "1",
        ][..],
        &[
            "--cursor-effect-v1",
            "tail",
            "--cursor-trail-color-v1",
            "#123456",
            "--cursor-trail-color-v1",
            "#abcdef",
            "--cursor-trail-duration-v1",
            "1",
        ][..],
        &[
            "--cursor-effect-v1",
            "tail",
            "--cursor-trail-color-v1",
            "#123456",
            "--cursor-trail-duration-v1",
            "1",
            "--cursor-trail-duration-v1",
            "2",
        ][..],
    ] {
        assert!(parse(invalid).is_none(), "{invalid:?}");
    }
}

#[test]
fn application_ids_and_colors_are_checked_byte_by_byte() {
    assert!(valid_application_id(b"eon.nova-1_x"));
    assert!(!valid_application_id(b""));
    assert!(!valid_application_id(b"bad/id"));
    assert!(valid_application_id(&[b'a'; 128]));
    assert!(!valid_application_id(&[b'a'; 129]));
    assert_eq!(parse_cursor_color(b"#89b4fa"), Some(Color { r: 0x89, g: 0xb4, b: 0xfa }));
    assert_eq!(parse_cursor_color(b"#FFFFFF"), Some(Color { r: 0xff, g: 0xff, b: 0xff }));
    assert_eq!(parse_cursor_color(b"#12345"), None);
    assert_eq!(parse_cursor_color(b"#1234567"), None);
    assert_eq!(
        usage_text(),
        "usage: yazelix-venus [--application-id ID] [--no-decorations] [--background-opacity VALUE] [--background-blur] [--cursor-effect-v1 none|tail] [--cursor-trail-color-v1 #RRGGBB --cursor-trail-duration-v1 0.25..4.0] [ORBIT_SOCKET [EON_WORKSPACE_SOCKET]]"
    );
}

#[test]
fn launch_values_project_to_native_window_attributes() {
    let default = parse(&[]).unwrap();
    assert!(default.decorations && default.background_opacity.is_none() && !default.background_blur);

    for value in ["0", "0.88", "1"] {
        let parsed =
            parse(&["--no-decorations", "--background-opacity", value, "--background-blur", "--workspace", "eon.sock"])
                .unwrap();
        assert!(!parsed.decorations);
        assert!(parsed.background_blur);
        assert_eq!(parsed.background_opacity, Some(value.as_bytes().to_vec()));
        assert_eq!(parsed.workspace_socket, Some(b"eon.sock".to_vec()));
        assert_eq!(parsed.orbit_socket, None);
    }
}

#[test]
fn typography_and_grid_options_are_taken_once() {
    let parsed = parse(&[
        "--application-id",
        "venus-typography-proof",
        "--no-decorations",
        "--font-size",
        "20",
        "--line-height",
        "1.5",
        "--columns",
        "100",
        "--rows",
        "30",
        "/tmp/venus-unavailable-typography.sock",
    ])
    .unwrap();
    assert_eq!(parsed.font_size, Some(b"20".to_vec()));
    assert_eq!(parsed.line_height, Some(b"1.5".to_vec()));
    assert_eq!((parsed.columns, parsed.rows), (Some(100), Some(30)));
    assert_eq!(parsed.orbit_socket, Some(b"/tmp/venus-unavailable-typography.sock".to_vec()));

    let family = parse(&["--font-family", "DejaVu Sans Mono", "--font-size", "20", "--line-height", "1.5", "o.sock"]).unwrap();
    assert_eq!(family.font_family, Some(b"DejaVu Sans Mono".to_vec()));
    assert_eq!((family.columns, family.rows), (None, None));

    let workspace = parse(&["--font-size", "96", "--line-height", "3", "--workspace", "/tmp/w.sock"]).unwrap();
    assert_eq!(workspace.workspace_socket, Some(b"/tmp/w.sock".to_vec()));
    assert_eq!(workspace.font_size, Some(b"96".to_vec()));

    assert!(parse(&["--columns", "0"]).is_none());
    assert!(parse(&["--columns", "65536"]).is_none());
    assert!(parse(&["--columns", "1x"]).is_none());
    assert!(parse(&["--columns", ""]).is_none());
    assert!(parse(&["--columns", "000100"]).is_none());
    assert_eq!(parse(&["--rows", "00030"]).unwrap().rows, Some(30));
    assert_eq!(parse(&["--rows", "65535"]).unwrap().rows, Some(65535));
    assert!(parse(&["--rows", "1", "--rows", "2"]).is_none());
    assert!(parse(&["--font-size", "1", "--font-size", "2"]).is_none());
    assert!(parse(&["--font-size"]).is_none());
    assert!(parse(&["--workspace", "a", "--workspace", "b"]).is_none());
    assert!(parse(&["orbit", "eon", "--workspace", "b"]).is_none());
    assert!(parse(&["--workspace", "b", "orbit", "eon"]).is_none());
    assert!(parse(&["--font-weight", "bold"]).is_none());
}
