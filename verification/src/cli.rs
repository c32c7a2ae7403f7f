//! Checks on what the command line names.

use vstd::prelude::*;
use vstd::string::StringExecFns;

verus! {

/// What is said of a path at which nothing exists.
pub open spec fn missing_message(path: Seq<char>) -> Seq<char> {
    "'"@ + path + "' does not exist!"@
}

/// What is said of a path that leads to something other than a file.
pub open spec fn not_a_file_message(path: Seq<char>) -> Seq<char> {
    "'"@ + path + "' is not a file!"@
}

/// What is said of a file that cannot be opened for reading.
pub open spec fn unreadable_message(path: Seq<char>) -> Seq<char> {
    "Cannot open '"@ + path + "'"@
}

/// Judges a path that is to name a readable file by what the caller found
/// there: whether anything exists at it, whether that is a file, and whether
/// it could be opened for reading. The first of these that fails decides the
/// message.
pub fn is_readable_file(s: &str, exists: bool, is_file: bool, opens: bool) -> (verdict: Result<(), String>)
    ensures
        !exists ==> verdict is Err && verdict->Err_0@ == missing_message(s@),
        exists && !is_file ==> verdict is Err && verdict->Err_0@ == not_a_file_message(s@),
        exists && is_file && !opens ==> verdict is Err && verdict->Err_0@ == unreadable_message(s@),
        exists && is_file && opens ==> verdict is Ok,
{
    if !exists {
        Err("'".to_owned().concat(s).concat("' does not exist!"))
    } else if !is_file {
        Err("'".to_owned().concat(s).concat("' is not a file!"))
    } else if opens {
        Ok(())
    } else {
        Err("Cannot open '".to_owned().concat(s).concat("'"))
    }
}

} // verus!
