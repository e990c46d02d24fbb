use yazelix_venus::render::{
    CellTextKind, GlyphRun, cell_ink_right, cell_text_kind, cell_text_segments, cursor_vertex_boundary,
    display_error, ensure_device_available, is_full_block_run, is_nerd_font_symbol, record_device_loss, vertex_count,
};

#[test]
fn dynamic_cursor_keeps_later_static_overlays_on_top() {
    assert_eq!(cursor_vertex_boundary(18, 12, true), 12);
    assert_eq!(cursor_vertex_boundary(18, 12, false), 18);
    assert_eq!(cursor_vertex_boundary(18, 24, true), 18);
}

#[test]
fn device_loss_blocks_surface_recovery_but_destroy_does_not() {
    let mut lost = false;
    assert!(!record_device_loss(&mut lost, true));
    assert!(ensure_device_available(lost).is_ok());
    assert!(record_device_loss(&mut lost, false));
    assert_eq!(ensure_device_available(lost).unwrap_err().message(), "the Venus GPU device was lost");
}

#[test]
fn renderer_failures_carry_their_context() {
    assert_eq!(display_error("surface", "timeout").message(), "surface: timeout");
    assert_eq!(vertex_count(18 * 24 + 5), 18);
}

#[test]
fn cell_text_splits_into_font_layers() {
    assert_eq!(cell_text_kind('a'), CellTextKind::Text);
    assert_eq!(cell_text_kind('─'), CellTextKind::Box);
    assert_eq!(cell_text_kind('⠋'), CellTextKind::Braille);
    assert!(cell_text_segments("").is_empty());
    assert_eq!(
        cell_text_segments("e\u{301}│abc│"),
        vec![
            ("e\u{301}", CellTextKind::Text),
            ("│", CellTextKind::Box),
            ("abc", CellTextKind::Text),
            ("│", CellTextKind::Box),
        ]
    );
    assert_eq!(cell_text_segments("⠋⠙X"), vec![("⠋⠙", CellTextKind::Braille), ("X", CellTextKind::Text)]);
}

#[test]
fn nerd_font_symbols_use_the_packaged_face_and_bounded_blank_space() {
    for symbol in ["\u{e000}", "\u{f8ff}", "\u{f0000}", "\u{f2fff}", "\u{f015}"] {
        assert!(is_nerd_font_symbol(symbol), "{symbol:?}");
    }
    for text in ["\u{f900}", "\u{f3000}", "x"] {
        assert!(!is_nerd_font_symbol(text), "{text:?}");
    }
    let symbol = GlyphRun { column: 0, row: 0, columns: 1, text: "\u{f015}".into() };
    let label = GlyphRun { column: 2, text: "x".into(), ..symbol.clone() };
    assert_eq!(cell_ink_right(&symbol, Some(&label), 4), 2);
    assert_eq!(cell_ink_right(&symbol, Some(&GlyphRun { column: 1, ..label.clone() }), 4), 1);
    assert_eq!(cell_ink_right(&label, None, 4), 3);
    assert_eq!(cell_ink_right(&symbol, None, 4), 4);
}

#[test]
fn full_block_cells_are_recognised() {
    assert!(is_full_block_run(&GlyphRun { column: 0, row: 0, columns: 1, text: "█".into() }));
    assert!(!is_full_block_run(&GlyphRun { column: 0, row: 0, columns: 2, text: "█".into() }));
    assert!(!is_full_block_run(&GlyphRun { column: 0, row: 0, columns: 1, text: "██".into() }));
}

#[test]
fn ascii_uses_basic_shaping_without_weakening_unicode() {
    assert_eq!(yazelix_venus::render::shaping("plain ASCII"), yazelix_venus::render::TextShaping::Basic);
    assert_eq!(yazelix_venus::render::shaping("e\u{301}"), yazelix_venus::render::TextShaping::Advanced);
}

#[test]
fn configured_font_names_are_bounded_trimmed_and_printable() {
    let valid = yazelix_venus::render::valid_font_name;
    assert!(valid("JetBrains Mono"));
    assert!(valid("界"));
    assert!(!valid(""));
    assert!(!valid(" Leading"));
    assert!(!valid("Trailing\u{3000}"));
    assert!(!valid("Tab\there"));
    assert!(!valid("Next\u{85}line"));
    assert!(valid(&"x".repeat(128)));
    assert!(!valid(&"x".repeat(129)));
    let names = |list: &[&str]| list.iter().map(|name| name.to_string()).collect::<Vec<_>>();
    let all = yazelix_venus::render::valid_font_names;
    assert!(all(None, &Vec::new()));
    assert!(all(Some("Mono"), &names(&["A", "B"])));
    assert!(!all(Some(""), &Vec::new()));
    assert!(!all(None, &names(&["A", " B"])));
    assert!(all(None, &names(&["1", "2", "3", "4", "5", "6", "7", "8"])));
    assert!(!all(None, &names(&["1", "2", "3", "4", "5", "6", "7", "8", "9"])));
    assert!(yazelix_venus::render::invalid_typography().message().starts_with("invalid terminal typography: "));
}
