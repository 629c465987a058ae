use pamac_block::{
    count_lines, decimal_string, get_update_count, ButtonWidget, CommandResult, ErrorKind, State,
};

#[test]
fn empty_output_has_no_line() {
    assert_eq!(count_lines(&Vec::new()), 0);
}

#[test]
fn terminated_lines_are_counted_once() {
    assert_eq!(count_lines(&b"a\n".to_vec()), 1);
    assert_eq!(count_lines(&b"a\nb\n".to_vec()), 2);
    assert_eq!(count_lines(&b"pkgA\npkgB\npkgC\n".to_vec()), 3);
}

#[test]
fn last_line_needs_no_line_feed() {
    assert_eq!(count_lines(&b"a".to_vec()), 1);
    assert_eq!(count_lines(&b"a\nb".to_vec()), 2);
}

#[test]
fn empty_lines_count() {
    assert_eq!(count_lines(&b"\n".to_vec()), 1);
    assert_eq!(count_lines(&b"\n\n".to_vec()), 2);
    assert_eq!(count_lines(&b"a\n\nb\n".to_vec()), 3);
}

#[test]
fn carriage_returns_end_no_line() {
    assert_eq!(count_lines(&b"a\r\nb\r\n".to_vec()), 2);
    assert_eq!(count_lines(&b"a\rb".to_vec()), 1);
}

#[test]
fn line_count_agrees_with_str_lines() {
    let samples = [
        "", "\n", "a", "a\n", "a\nb", "a\nb\n", "\n\n\n", "a\r\nb", "x\n\ny", "é\nü\n", "\r\n",
        "tail\n\n",
    ];
    for text in samples.iter() {
        assert_eq!(count_lines(&text.as_bytes().to_vec()), text.lines().count(), "{:?}", text);
    }
}

#[test]
fn decimal_of_small_numbers() {
    assert_eq!(decimal_string(0), "0");
    assert_eq!(decimal_string(3), "3");
    assert_eq!(decimal_string(9), "9");
    assert_eq!(decimal_string(10), "10");
    assert_eq!(decimal_string(109), "109");
    assert_eq!(decimal_string(10_000), "10000");
}

#[test]
fn decimal_agrees_with_to_string() {
    for n in [0usize, 1, 19, 20, 99, 100, 101, 999, 1000, 65_535, 1_234_567_890, usize::MAX] {
        assert_eq!(decimal_string(n), n.to_string());
    }
}

fn is_text(bytes: &[u8]) -> bool {
    match get_update_count(&CommandResult::Output(bytes.to_vec())) {
        Ok(_) => true,
        Err(error) => {
            assert_eq!(error.kind, ErrorKind::OutputDecodeFailure);
            false
        }
    }
}

#[test]
fn utf8_is_recognised() {
    assert!(is_text(b""));
    assert!(is_text(b"plain\n"));
    assert!(is_text("größe 包".as_bytes()));
    assert!(!is_text(&[0xff]));
    assert!(!is_text(&[0xc3]));
    assert!(!is_text(&[0xed, 0xa0, 0x80]));
    assert!(!is_text(&[0xc0, 0x80]));
}

#[test]
fn widget_is_built_step_by_step() {
    let widget = ButtonWidget::new("pamac");
    assert_eq!(widget.id, "pamac");
    assert_eq!(widget.icon, None);
    assert_eq!(widget.text, "");
    assert_eq!(widget.state, State::Idle);

    let mut widget = widget.with_icon("update");
    assert_eq!(widget.id, "pamac");
    assert_eq!(widget.icon.as_deref(), Some("update"));

    widget.set_text("7".to_string());
    assert_eq!(widget.text, "7");
    assert_eq!(widget.state, State::Idle);

    widget.set_state(State::Warning);
    assert_eq!(widget.text, "7");
    assert_eq!(widget.state, State::Warning);
    assert_eq!(widget.icon.as_deref(), Some("update"));
}
