//! The lines by which a build script speaks to the build system, and the
//! name of the variable that switches the vendored build of a library off.

use vstd::prelude::*;
use vstd::string::*;
use crate::text::{alphanumeric, is_alphanumeric, push_char, to_uppercase, uppercased};

verus! {

/// Whether the character at `position` is marked: a position that `marks`
/// does not reach is not.
pub open spec fn is_marked(marks: Seq<bool>, position: int) -> bool {
    0 <= position < marks.len() && marks[position]
}

/// `text` with every run of unmarked characters replaced by one underscore;
/// `marks` says of each position whether its character is marked, and so
/// kept.
pub open spec fn collapsed(text: Seq<char>, marks: Seq<bool>) -> Seq<char>
    decreases text.len(),
{
    if text.len() == 0 {
        Seq::empty()
    } else {
        let before = collapsed(text.drop_last(), marks);
        if is_marked(marks, text.len() - 1) {
            before.push(text.last())
        } else if text.len() >= 2 && !is_marked(marks, text.len() - 2) {
            before
        } else {
            before.push('_')
        }
    }
}

/// For each character of `text`, whether it is a letter or a number.
pub open spec fn alphanumeric_marks(text: Seq<char>) -> Seq<bool> {
    Seq::new(text.len(), |i: int| is_alphanumeric(text[i]))
}

/// The name of the variable that switches the vendored build of `lib_name`
/// off: the name in upper case, every run of characters that are neither
/// letters nor numbers collapsed to one underscore, then `_NO_VENDOR`.
pub open spec fn no_vendor_name(lib_name: Seq<char>) -> Seq<char> {
    let upper = uppercased(lib_name);
    collapsed(upper, alphanumeric_marks(upper)) + "_NO_VENDOR"@
}

/// The line that has the build run again when the variable of `lib_name`
/// changes.
pub open spec fn rerun_line(lib_name: Seq<char>) -> Seq<char> {
    "cargo:rerun-if-env-changed="@ + no_vendor_name(lib_name)
}

/// The line that declares an include path to the build system.
pub open spec fn include_line(path: Seq<char>) -> Seq<char> {
    "cargo:include="@ + path
}

/// Replaces every run of unmarked characters of `text` by one underscore.
pub fn collapse_runs(text: &str, marks: &Vec<bool>) -> (out: String)
    ensures
        out@ == collapsed(text@, marks@),
{
    let len: usize = text.unicode_len();
    let mut out = String::new();
    let mut i: usize = 0;
    let mut in_run = false;
    while i < len
        invariant
            len == text@.len(),
            i <= len,
            out@ == collapsed(text@.take(i as int), marks@),
            in_run == (i > 0 && !is_marked(marks@, i - 1)),
        decreases len - i,
    {
        proof {
            assert(text@.take(i + 1).drop_last() == text@.take(i as int));
        }
        if i < marks.len() && marks[i] {
            push_char(&mut out, text.get_char(i));
            in_run = false;
        } else {
            if !in_run {
                push_char(&mut out, '_');
            }
            in_run = true;
        }
        i += 1;
    }
    proof {
        assert(text@.take(len as int) == text@);
    }
    out
}

/// Marks the letters and numbers of `text`.
pub fn mark_alphanumeric(text: &str) -> (marks: Vec<bool>)
    ensures
        marks@ == alphanumeric_marks(text@),
{
    let len: usize = text.unicode_len();
    let mut marks: Vec<bool> = Vec::new();
    let mut i: usize = 0;
    while i < len
        invariant
            len == text@.len(),
            i <= len,
            marks@.len() == i,
            forall|j: int| 0 <= j < i ==> marks@[j] == is_alphanumeric(#[trigger] text@[j]),
        decreases len - i,
    {
        marks.push(alphanumeric(text.get_char(i)));
        i += 1;
    }
    proof {
        assert(marks@ =~= alphanumeric_marks(text@));
    }
    marks
}

/// The name of the variable that switches the vendored build of `lib_name`
/// off.
pub fn no_vendor_var(lib_name: &str) -> (name: String)
    ensures
        name@ == no_vendor_name(lib_name@),
{
    let upper = to_uppercase(lib_name);
    let marks = mark_alphanumeric(upper.as_str());
    let mut name = collapse_runs(upper.as_str(), &marks);
    name.append("_NO_VENDOR");
    name
}

/// The line that has the build run again when the variable of `lib_name`
/// changes. It is to be printed before the library is probed for, whatever
/// the probe then finds.
pub fn rerun_signal(lib_name: &str) -> (line: String)
    ensures
        line@ == rerun_line(lib_name@),
{
    let name = no_vendor_var(lib_name);
    let mut line = String::from_str("cargo:rerun-if-env-changed=");
    line.append(name.as_str());
    line
}

/// The line that declares `path` as an include path.
pub fn include_signal(path: &str) -> (line: String)
    ensures
        line@ == include_line(path@),
{
    let mut line = String::from_str("cargo:include=");
    line.append(path);
    line
}

} // verus!
