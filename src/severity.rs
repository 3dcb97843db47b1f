use vstd::prelude::*;

use crate::text::{chars_of, contains_ci, find_ci};

verus! {

/// How a line that the worker wrote to its standard error is logged.
#[derive(Clone, Copy, Debug, PartialEq, Eq, Structural)]
pub enum Severity {
    Info,
    Error,
}

/// The word `error`.
pub open spec fn word_error() -> Seq<char> {
    seq!['e', 'r', 'r', 'o', 'r']
}

/// The word `failed`.
pub open spec fn word_failed() -> Seq<char> {
    seq!['f', 'a', 'i', 'l', 'e', 'd']
}

/// The word `exception`.
pub open spec fn word_exception() -> Seq<char> {
    seq!['e', 'x', 'c', 'e', 'p', 't', 'i', 'o', 'n']
}

/// The line names an error condition: it holds `error`, `failed` or
/// `exception`, in any case.
pub open spec fn reports_error(s: Seq<char>) -> bool {
    contains_ci(s, word_error()) || contains_ci(s, word_failed()) || contains_ci(s, word_exception())
}

/// The severity that a line of standard error is logged at.
pub open spec fn severity_of(s: Seq<char>) -> Severity {
    if reports_error(s) {
        Severity::Error
    } else {
        Severity::Info
    }
}

/// Classifies a line of the worker's standard error: `Error` where it names
/// an error condition, `Info` for routine diagnostics.
pub fn classify_stderr(line: &str) -> (r: Severity)
    ensures
        r == severity_of(line@),
{
    let s = chars_of(line);
    let error = vec!['e', 'r', 'r', 'o', 'r'];
    let failed = vec!['f', 'a', 'i', 'l', 'e', 'd'];
    let exception = vec!['e', 'x', 'c', 'e', 'p', 't', 'i', 'o', 'n'];
    assert(error@ =~= word_error());
    assert(failed@ =~= word_failed());
    assert(exception@ =~= word_exception());
    if find_ci(&s, &error) || find_ci(&s, &failed) || find_ci(&s, &exception) {
        Severity::Error
    } else {
        Severity::Info
    }
}

} // verus!
