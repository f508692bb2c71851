//! The report that the panic handler prints before shutting down.

use vstd::prelude::*;

use crate::text::{append_decimal, decimal};

verus! {

/// The report of a panic: with a source location,
/// `[kernel] Panicked at <file>:<line> <message>`, else
/// `[kernel] Panicked: <message>`, each followed by a newline.
pub open spec fn panic_report_spec(location: Option<(&str, u32)>, message: Seq<char>) -> Seq<
    char,
> {
    match location {
        Some((file, line)) => "[kernel] Panicked at "@ + file@ + ":"@ + decimal(line as nat) + " "@
            + message + "\n"@,
        None => "[kernel] Panicked: "@ + message + "\n"@,
    }
}

/// A report starts with `[kernel] Panicked`, ends with the whole message
/// and a newline, and names the file right after `at ` when the location is
/// known.
pub proof fn lemma_panic_report_shape(location: Option<(&str, u32)>, message: Seq<char>)
    ensures
        ({
            let r = panic_report_spec(location, message);
            &&& r.len() >= 18 + message.len()
            &&& r.subrange(0, 17) == "[kernel] Panicked"@
            &&& r.subrange(r.len() - message.len() - 1, r.len() - 1) == message
            &&& r.last() == '\n'
        }),
        location matches Some((file, line)) ==> panic_report_spec(location, message).subrange(
            21,
            (21 + file@.len()) as int,
        ) == file@,
        location is None ==> panic_report_spec(location, message).len() == 20 + message.len(),
{
    reveal_strlit("[kernel] Panicked");
    reveal_strlit("[kernel] Panicked at ");
    reveal_strlit("[kernel] Panicked: ");
    reveal_strlit(":");
    reveal_strlit(" ");
    reveal_strlit("\n");
    let r = panic_report_spec(location, message);
    match location {
        Some((file, line)) => {
            let d = decimal(line as nat);
            assert(r =~= "[kernel] Panicked at "@ + file@ + ":"@ + d + " "@ + message + "\n"@);
            assert(r.subrange(21, (21 + file@.len()) as int) =~= file@);
        },
        None => {
            assert(r =~= "[kernel] Panicked: "@ + message + "\n"@);
        },
    }
    assert(r.subrange(0, 17) =~= "[kernel] Panicked"@);
    assert(r.subrange(r.len() - message.len() - 1, r.len() - 1) =~= message);
}

/// The text printed for a panic at `location` (file and line, where known)
/// with the formatted `message`. The handler prints it and then shuts down.
pub fn panic_report(location: Option<(&str, u32)>, message: &str) -> (report: String)
    ensures
        report@ == panic_report_spec(location, message@),
        location is None ==> report@ == "[kernel] Panicked: "@ + message@ + "\n"@,
        location matches Some((file, line)) ==> report@ == "[kernel] Panicked at "@ + file@
            + ":"@ + decimal(line as nat) + " "@ + message@ + "\n"@,
{
    let mut report = String::new();
    match location {
        Some((file, line)) => {
            report.append("[kernel] Panicked at ");
            report.append(file);
            report.append(":");
            append_decimal(&mut report, line);
            report.append(" ");
            report.append(message);
            report.append("\n");
        },
        None => {
            report.append("[kernel] Panicked: ");
            report.append(message);
            report.append("\n");
        },
    }
    assert(report@ =~= panic_report_spec(location, message@));
    report
}

} // verus!
