use text_analyzer::input::{resolve_source, select_source, InputSource, USAGE_MESSAGE};
use text_analyzer::outcome::{exit_status, Failure, EXIT_FAILURE, EXIT_SUCCESS};

#[test]
fn a_named_file_is_read() {
    assert_eq!(select_source(Some("notes.txt"), false), InputSource::File("notes.txt"));
    assert_eq!(select_source(Some("notes.txt"), true), InputSource::File("notes.txt"));
}

#[test]
fn piped_standard_input_is_read() {
    assert_eq!(select_source::<&str>(None, false), InputSource::StandardInput);
}

#[test]
fn a_terminal_without_a_file_is_no_input() {
    assert_eq!(select_source::<&str>(None, true), InputSource::Unavailable);
}

#[test]
fn resolving_takes_a_named_file_as_it_is() {
    let path = String::from("some/dir/notes.txt");
    assert_eq!(resolve_source(Some(path.clone())), InputSource::File(path));
}

#[test]
fn resolving_without_a_file_asks_standard_input() {
    let source = resolve_source::<String>(None);
    assert!(source == InputSource::StandardInput || source == InputSource::Unavailable);
    let expected = select_source::<String>(None, atty::is(atty::Stream::Stdin));
    assert_eq!(source, expected);
}

#[test]
fn usage_message_text() {
    assert_eq!(USAGE_MESSAGE, "No input provided. Use --file <path> or pipe data into stdin.");
}

#[test]
fn exit_status_of_each_ending() {
    assert_eq!(EXIT_SUCCESS, 0);
    assert_eq!(EXIT_FAILURE, 1);
    assert_eq!(exit_status(None), 0);
    assert_eq!(exit_status(Some(Failure::Usage)), 1);
    assert_eq!(exit_status(Some(Failure::Io)), 1);
    assert_eq!(exit_status(Some(Failure::Terminal)), 1);
}
