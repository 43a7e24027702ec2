use text_analyzer::decimal::decimal_string;
use text_analyzer::present::{format_panel, format_plain, present, Mode, Presentation};
use text_analyzer::report::{analyze, Report};

#[test]
fn decimal_of_small_and_large_numbers() {
    assert_eq!(decimal_string(0), "0");
    assert_eq!(decimal_string(7), "7");
    assert_eq!(decimal_string(9), "9");
    assert_eq!(decimal_string(10), "10");
    assert_eq!(decimal_string(120), "120");
    assert_eq!(decimal_string(1_000_000), "1000000");
    assert_eq!(decimal_string(9_876_543_210), "9876543210");
    assert_eq!(decimal_string(usize::MAX), usize::MAX.to_string());
}

#[test]
fn decimal_agrees_with_std() {
    let mut n: usize = 0;
    while n < 2_000 {
        assert_eq!(decimal_string(n), n.to_string());
        n += 1;
    }
}

#[test]
fn plain_line_of_a_report() {
    let report = analyze("aaa\naa");
    assert_eq!(format_plain(&report), "char count : 6, word_count: 2, line_count: 2");
}

#[test]
fn plain_line_keeps_the_order_of_the_counts() {
    let report = Report::new(100, 20, 3);
    assert_eq!(format_plain(&report), "char count : 100, word_count: 20, line_count: 3");
    let empty = Report::new(0, 0, 0);
    assert_eq!(format_plain(&empty), "char count : 0, word_count: 0, line_count: 0");
}

#[test]
fn panel_of_a_report() {
    let panel = format_panel(&Report::new(6, 2, 2));
    assert_eq!(panel.title, "Report");
    assert_eq!(panel.rows, vec!["Chars: 6", "Words: 2", "Lines: 2"]);
}

#[test]
fn panel_rows_are_chars_words_lines() {
    let panel = format_panel(&Report::new(12345, 678, 90));
    assert_eq!(panel.rows.len(), 3);
    assert_eq!(panel.rows[0], "Chars: 12345");
    assert_eq!(panel.rows[1], "Words: 678");
    assert_eq!(panel.rows[2], "Lines: 90");
}

#[test]
fn the_mode_selects_what_is_shown() {
    let report = Report::new(6, 2, 2);
    match present(&report, Mode::Plain) {
        Presentation::Line(line) => {
            assert_eq!(line, "char count : 6, word_count: 2, line_count: 2")
        }
        Presentation::Panel(_) => panic!("plain mode shows a line"),
    }
    match present(&report, Mode::Panel) {
        Presentation::Panel(panel) => {
            assert_eq!(panel.title, "Report");
            assert_eq!(panel.rows, vec!["Chars: 6", "Words: 2", "Lines: 2"]);
        }
        Presentation::Line(_) => panic!("panel mode shows a panel"),
    }
}
