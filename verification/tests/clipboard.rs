use rshell::clipboard::{map_clipboard_read_result, TerminalViewError};

#[test]
fn clipboard_text_is_pasted_as_a_string() {
    let read: Result<Option<&str>, ()> = Ok(Some("ls -la"));
    assert_eq!(map_clipboard_read_result(read), Ok(Some("ls -la".to_string())));
}

#[test]
fn empty_clipboard_pastes_nothing() {
    let read: Result<Option<String>, std::io::Error> = Ok(None);
    assert_eq!(map_clipboard_read_result(read), Ok(None));
}

#[test]
fn failed_read_reports_clipboard_unavailable() {
    let read: Result<Option<String>, &str> = Err("no display");
    assert_eq!(map_clipboard_read_result(read), Err(TerminalViewError::ClipboardUnavailable));
}
