//! The lines that the engine's error and warning reports are logged as.

use vstd::prelude::*;
use vstd::string::StringExecFns;
use crate::conversions::{latin1_chars, latin1_to_string};
use crate::text::{push_decimal, decimal};

verus! {

/// The name of the file a report is about: its Latin-1 bytes, or `none`
/// when the report names no file.
pub open spec fn file_name_text(filename: Option<Seq<u8>>) -> Seq<char> {
    match filename {
        Some(bytes) => latin1_chars(bytes),
        None => "none"@,
    }
}

/// `Warning at FILE:LINE:COLUMN: MESSAGE` and a newline.
pub open spec fn warning_text(filename: Option<Seq<u8>>, lineno: u32, column: u32, message: Seq<char>) -> Seq<char> {
    "Warning at "@ + file_name_text(filename) + ":"@ + decimal(lineno as nat) + ":"@ + decimal(
        column as nat,
    ) + ": "@ + message + "\n"@
}

/// `Error at FILE:LINE: MESSAGE` and a newline, `none` standing for a
/// missing file name.
pub open spec fn error_text(filename: Option<Seq<char>>, lineno: u32, message: Seq<char>) -> Seq<char> {
    "Error at "@ + (match filename {
        Some(name) => name,
        None => "none"@,
    }) + ":"@ + decimal(lineno as nat) + ": "@ + message + "\n"@
}

/// The line a warning report is logged as.
pub fn warning_report_text(filename: Option<&[u8]>, lineno: u32, column: u32, message: &str) -> (r: String)
    ensures
        r@ == warning_text(
            match filename {
                Some(b) => Some(b@),
                None => None,
            },
            lineno,
            column,
            message@,
        ),
{
    let mut s = "Warning at ".to_owned();
    match filename {
        Some(bytes) => {
            let name = latin1_to_string(bytes);
            s.append(name.as_str());
        },
        None => {
            s.append("none");
        },
    }
    s.append(":");
    push_decimal(&mut s, lineno as u64);
    s.append(":");
    push_decimal(&mut s, column as u64);
    s.append(": ");
    s.append(message);
    s.append("\n");
    s
}

/// The line an error report is logged as.
pub fn error_report_text(filename: Option<&str>, lineno: u32, message: &str) -> (r: String)
    ensures
        r@ == error_text(
            match filename {
                Some(f) => Some(f@),
                None => None,
            },
            lineno,
            message@,
        ),
{
    let mut s = "Error at ".to_owned();
    match filename {
        Some(name) => {
            s.append(name);
        },
        None => {
            s.append("none");
        },
    }
    s.append(":");
    push_decimal(&mut s, lineno as u64);
    s.append(": ");
    s.append(message);
    s.append("\n");
    s
}

} // verus!
