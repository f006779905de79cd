//! Path text as Win32 applications take it.

use vstd::prelude::*;
use crate::text::{chars_of, string_of, strip_prefix, without_prefix};

verus! {

/// `path` with every forward slash turned into a backslash.
pub open spec fn backslashed(path: Seq<char>) -> Seq<char> {
    path.map_values(
        |c: char|
            if c == '/' {
                '\\'
            } else {
                c
            },
    )
}

/// The prefix of an extended-length path, `\\?\`.
pub open spec fn verbatim_prefix() -> Seq<char> {
    "\\\\?\\"@
}

/// `path` with backslashes for slashes and without the extended-length
/// prefix, if it has one.
pub open spec fn adjusted(path: Seq<char>) -> Seq<char> {
    let p = backslashed(path);
    match without_prefix(p, verbatim_prefix()) {
        Some(rest) => rest,
        None => p,
    }
}

/// Makes a canonical path fit for dropping: canonicalization yields an
/// extended-length path (`\\?\C:\path\to\file.txt`), which some
/// applications do not take, and forward slashes do not work on Windows.
pub fn adjust_canonicalization(p: &str) -> (r: String)
    ensures
        r@ == adjusted(p@),
{
    let chars = chars_of(p);
    let mut replaced: Vec<char> = Vec::new();
    let mut i: usize = 0;
    while i < chars.len()
        invariant
            i <= chars.len(),
            replaced@ == backslashed(chars@.take(i as int)),
        decreases chars.len() - i,
    {
        let c = chars[i];
        replaced.push(if c == '/' {
            '\\'
        } else {
            c
        });
        assert(backslashed(chars@.take(i + 1)) =~= backslashed(chars@.take(i as int)).push(
            if c == '/' {
                '\\'
            } else {
                c
            },
        ));
        i += 1;
    }
    assert(chars@.take(i as int) =~= chars@);
    let p = string_of(&replaced);
    match strip_prefix(p.as_str(), "\\\\?\\") {
        Some(stripped) => stripped,
        None => p,
    }
}

} // verus!
