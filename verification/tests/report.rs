use js::report::{error_report_text, warning_report_text};
use js::rust::{methods_are_terminated, properties_are_terminated, JSFunctionSpec};

#[test]
fn warning_line() {
    assert_eq!(
        warning_report_text(Some(b"test.js"), 12, 7, "unreachable code"),
        "Warning at test.js:12:7: unreachable code\n"
    );
}

#[test]
fn warning_line_without_file() {
    assert_eq!(warning_report_text(None, 0, 0, "m"), "Warning at none:0:0: m\n");
}

#[test]
fn warning_file_name_is_latin1() {
    assert_eq!(warning_report_text(Some(&[0x63, 0xe9]), 1, 2, "x"), "Warning at c\u{e9}:1:2: x\n");
}

#[test]
fn error_lines() {
    assert_eq!(error_report_text(Some("a.js"), 3, "boom"), "Error at a.js:3: boom\n");
    assert_eq!(error_report_text(None, 4294967295, ""), "Error at none:4294967295: \n");
}

fn method(name: u64, zeroed: bool, nargs: u16) -> JSFunctionSpec {
    JSFunctionSpec { name, call_is_zeroed: zeroed, nargs, flags: 0, selfHostedName: 0 }
}

#[test]
fn method_tables() {
    assert!(!methods_are_terminated(&[]));
    assert!(methods_are_terminated(&[method(0x10, false, 1), method(0, true, 0)]));
    assert!(!methods_are_terminated(&[method(0, true, 0), method(0x10, false, 1)]));
    assert!(!methods_are_terminated(&[method(0, true, 2)]));
    assert!(!methods_are_terminated(&[method(0, false, 0)]));
}

#[test]
fn property_tables() {
    assert!(!properties_are_terminated(&[]));
    assert!(properties_are_terminated(&[[1, 2, 3, 4, 5, 6], [0; 6]]));
    assert!(!properties_are_terminated(&[[0; 6], [0, 0, 0, 0, 0, 1]]));
}
