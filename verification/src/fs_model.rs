//! A model of what the operating system's rename primitive does to the
//! directory tree.
//!
//! The tree is modelled as a map from paths to entries, where an entry stands
//! for everything a rename preserves: a file's entire content, or a
//! directory's entire subtree of children. The model is what the binary
//! assumes of the primitive when it performs the rename action; the lemmas
//! below state the properties owed of a successful rename.

use vstd::prelude::*;

verus! {

/// A rename of `from` to `to` can succeed without disturbing another entry:
/// `from` names an existing entry, `to` is free, and the two differ.
pub open spec fn can_rename<E>(fs: Map<Seq<char>, E>, from: Seq<char>, to: Seq<char>) -> bool {
    fs.dom().contains(from) && !fs.dom().contains(to) && from != to
}

/// The tree after a successful rename: the entry leaves `from` and arrives,
/// intact, at `to`.
pub open spec fn apply_rename<E>(fs: Map<Seq<char>, E>, from: Seq<char>, to: Seq<char>) -> Map<
    Seq<char>,
    E,
> {
    fs.remove(from).insert(to, fs[from])
}

/// After a successful rename, nothing remains at the old path, the entry —
/// a file's content, or a directory's children — sits unchanged at the new
/// path, and every other path is untouched.
pub proof fn lemma_rename_moves_entry<E>(fs: Map<Seq<char>, E>, from: Seq<char>, to: Seq<char>)
    requires
        can_rename(fs, from, to),
    ensures
        !apply_rename(fs, from, to).dom().contains(from),
        apply_rename(fs, from, to).dom().contains(to),
        apply_rename(fs, from, to)[to] == fs[from],
        forall|p: Seq<char>|
            p != from && p != to ==> (apply_rename(fs, from, to).dom().contains(p) <==> fs.dom().contains(
                p,
            )),
        forall|p: Seq<char>|
            p != from && p != to && fs.dom().contains(p) ==> apply_rename(fs, from, to)[p] == fs[p],
{
}

/// Renaming back restores the original state: after renaming `from` to `to`
/// and then `to` back to `from`, the entry exists at `from`, not at `to`, and
/// the whole tree equals what it was.
pub proof fn lemma_rename_round_trip<E>(fs: Map<Seq<char>, E>, from: Seq<char>, to: Seq<char>)
    requires
        can_rename(fs, from, to),
    ensures
        can_rename(apply_rename(fs, from, to), to, from),
        apply_rename(apply_rename(fs, from, to), to, from) == fs,
{
    assert(apply_rename(apply_rename(fs, from, to), to, from) =~= fs);
}

} // verus!
