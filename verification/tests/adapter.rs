use window_clipboard::{into_operation_result, Backend, ClipboardConnection, Error};

#[test]
fn success_passes_through_unchanged() {
    let text = String::from("hello clipboard");
    let out = into_operation_result(Ok::<String, String>(text.clone()));
    assert_eq!(out, Ok(text));
}

#[test]
fn empty_text_passes_through_unchanged() {
    let out = into_operation_result(Ok::<String, String>(String::new()));
    assert_eq!(out, Ok(String::new()));
}

#[test]
fn text_with_whitespace_and_newlines_passes_through_unchanged() {
    let text = String::from("line one\n\tline two  \nline three");
    let out = into_operation_result(Ok::<String, String>(text.clone()));
    assert_eq!(out, Ok(text));
}

#[test]
fn failure_is_wrapped_as_operation_error() {
    let out = into_operation_result(Err::<(), String>(String::from("selection gone")));
    let err = out.unwrap_err();
    assert!(err.is_operation());
    assert!(!err.is_connection());
    assert!(!err.is_handle_extraction());
    assert_eq!(err.message().as_str(), "selection gone");
    assert_eq!(err, Error::Operation(String::from("selection gone")));
}

#[test]
fn error_variants_are_distinguished() {
    let handle = Error::HandleExtraction(String::from("no discriminant"));
    let connection = Error::Connection(String::from("no display server"));
    let operation = Error::Operation(String::from("clipboard empty"));

    assert!(handle.is_handle_extraction());
    assert!(!handle.is_connection());
    assert!(!handle.is_operation());
    assert_eq!(handle.message().as_str(), "no discriminant");

    assert!(connection.is_connection());
    assert!(!connection.is_handle_extraction());
    assert!(!connection.is_operation());
    assert_eq!(connection.message().as_str(), "no display server");

    assert!(operation.is_operation());
    assert!(!operation.is_handle_extraction());
    assert!(!operation.is_connection());
    assert_eq!(operation.message().as_str(), "clipboard empty");
}

#[test]
fn x11_connect_reports_connection_error_or_x11_backend() {
    match ClipboardConnection::connect_x11() {
        Ok(connection) => assert_eq!(connection.active_backend(), Backend::X11),
        Err(err) => {
            assert!(err.is_connection());
            assert!(!err.message().is_empty());
        }
    }
}
