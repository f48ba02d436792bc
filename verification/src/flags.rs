//! Flag recognition: which action a command-line flag selects.
//!
//! Flags are compared case-insensitively, so `-P`, `-p` and `--PATH` all
//! select the rename action. Case folding is on the ASCII uppercase letters,
//! which covers every flag the tool knows.

use vstd::prelude::*;

verus! {

/// The code point of a character, with the ASCII uppercase letters folded to
/// their lowercase counterparts 32 code points higher.
pub open spec fn folded_code(c: char) -> int {
    if 'A' <= c && c <= 'Z' {
        c as int + 32
    } else {
        c as int
    }
}

/// Two characters are equal up to ASCII case.
pub open spec fn char_eq_ci(a: char, b: char) -> bool {
    folded_code(a) == folded_code(b)
}

/// Two character sequences are equal up to ASCII case.
pub open spec fn seq_eq_ci(a: Seq<char>, b: Seq<char>) -> bool {
    a.len() == b.len() && (forall|i: int| 0 <= i < a.len() ==> char_eq_ci(a[i], b[i]))
}

/// The four actions a flag can select.
#[derive(Clone, Copy, Debug, PartialEq, Eq, Structural)]
pub enum FlagKind {
    /// Show the banner and the usage menu.
    Help,
    /// Show the author, license and version text.
    Info,
    /// Rename the entry at the source path to the destination path.
    Rename,
    /// No known flag: report a usage error.
    Unknown,
}

pub open spec fn is_help_flag(f: Seq<char>) -> bool {
    seq_eq_ci(f, "-h"@) || seq_eq_ci(f, "--help"@)
}

pub open spec fn is_info_flag(f: Seq<char>) -> bool {
    seq_eq_ci(f, "-i"@) || seq_eq_ci(f, "--info"@)
}

pub open spec fn is_rename_flag(f: Seq<char>) -> bool {
    seq_eq_ci(f, "-p"@) || seq_eq_ci(f, "--path"@)
}

/// The action that a flag selects, keyed case-insensitively.
pub open spec fn flag_kind(f: Seq<char>) -> FlagKind {
    if is_help_flag(f) {
        FlagKind::Help
    } else if is_info_flag(f) {
        FlagKind::Info
    } else if is_rename_flag(f) {
        FlagKind::Rename
    } else {
        FlagKind::Unknown
    }
}

/// The folded code point of a character, as a machine integer.
fn folded(c: char) -> (r: u32)
    ensures
        r == folded_code(c),
{
    if 'A' <= c && c <= 'Z' {
        c as u32 + 32
    } else {
        c as u32
    }
}

/// Whether two strings are equal up to ASCII case.
pub fn eq_ignore_case(a: &str, b: &str) -> (r: bool)
    ensures
        r == seq_eq_ci(a@, b@),
{
    let n = a.unicode_len();
    if n != b.unicode_len() {
        return false;
    }
    let mut i: usize = 0;
    while i < n
        invariant
            n == a@.len(),
            n == b@.len(),
            i <= n,
            forall|j: int| 0 <= j < i ==> char_eq_ci(a@[j], b@[j]),
        decreases n - i,
    {
        if folded(a.get_char(i)) != folded(b.get_char(i)) {
            return false;
        }
        i += 1;
    }
    true
}

/// Classifies a flag into the action it selects.
pub fn classify_flag(f: &str) -> (k: FlagKind)
    ensures
        k == flag_kind(f@),
{
    if eq_ignore_case(f, "-h") || eq_ignore_case(f, "--help") {
        FlagKind::Help
    } else if eq_ignore_case(f, "-i") || eq_ignore_case(f, "--info") {
        FlagKind::Info
    } else if eq_ignore_case(f, "-p") || eq_ignore_case(f, "--path") {
        FlagKind::Rename
    } else {
        FlagKind::Unknown
    }
}

/// Flag dispatch is case-insensitive: two flags that agree up to ASCII case
/// select the same action.
pub proof fn lemma_flag_kind_case_insensitive(f: Seq<char>, g: Seq<char>)
    requires
        seq_eq_ci(f, g),
    ensures
        flag_kind(f) == flag_kind(g),
{
    assert forall|l: Seq<char>| seq_eq_ci(f, l) == seq_eq_ci(g, l) by {
        if seq_eq_ci(f, l) {
            assert forall|i: int| 0 <= i < g.len() implies char_eq_ci(g[i], l[i]) by {
                assert(char_eq_ci(f[i], g[i]));
                assert(char_eq_ci(f[i], l[i]));
            }
        }
        if seq_eq_ci(g, l) {
            assert forall|i: int| 0 <= i < f.len() implies char_eq_ci(f[i], l[i]) by {
                assert(char_eq_ci(f[i], g[i]));
                assert(char_eq_ci(g[i], l[i]));
            }
        }
    }
}

} // verus!
