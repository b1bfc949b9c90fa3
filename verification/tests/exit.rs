use proc_exit::report;
use proc_exit::Code;
use proc_exit::Exit;
use proc_exit::WithCodeResultExt;

#[test]
fn exit_new_has_no_message() {
    let exit = Exit::new(Code::new(65));
    assert_eq!(exit.code.as_raw(), 65);
    assert!(exit.msg.is_none());
}

#[test]
fn with_message_replaces_any_previous_one() {
    let exit = Exit::new(Code::failure())
        .with_message("first".to_string())
        .with_message("second".to_string());
    assert_eq!(exit.msg, Some("second".to_string()));
    assert_eq!(exit.code, Code::failure());
}

#[test]
fn display_text_is_the_message_or_nothing() {
    let noisy = Exit::new(Code::failure()).with_message("boom".to_string());
    assert_eq!(noisy.display_text(), "boom");
    let silent = Exit::new(Code::failure());
    assert_eq!(silent.display_text(), "");
}

#[test]
fn report_ok_returns_success() {
    assert_eq!(report(Ok(())), Code::success());
}

#[test]
fn report_err_with_message_returns_its_code() {
    let result = Err(Exit::new(Code::failure()).with_message("boom".to_string()));
    assert_eq!(report(result), Code::failure());
}

#[test]
fn report_err_without_message_returns_its_code() {
    let result = Err(Exit::new(Code::failure()));
    assert_eq!(report(result), Code::failure());
}

#[test]
fn report_keeps_the_carried_code() {
    let result = Err(Exit::new(Code::new(77)));
    assert_eq!(report(result).as_raw(), 77);
}

#[test]
fn with_code_wraps_an_error_text() {
    let failed: Result<u32, String> = Err("oops".to_string());
    let exit = failed.with_code(Code::new(3)).unwrap_err();
    assert_eq!(exit.code.as_raw(), 3);
    assert_eq!(exit.msg, Some("oops".to_string()));
}

#[test]
fn with_code_passes_success_through() {
    let fine: Result<u32, String> = Ok(7);
    assert_eq!(fine.with_code(Code::new(3)).unwrap(), 7);
}
