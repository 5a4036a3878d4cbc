//! Paths, taken apart into their components and put in order without asking
//! the file system.
use vstd::prelude::*;

verus! {

/// One component of a path.
#[derive(Debug, Clone, PartialEq, Eq)]
pub enum PathPart {
    /// A drive or share in front of the path.
    Prefix(String),
    /// The root.
    RootDir,
    /// `.`
    CurDir,
    /// `..`
    ParentDir,
    /// A file or directory name.
    Normal(String),
}

/// The components of a path in normal form: `.` is dropped, and `..` takes
/// back the component before it, whatever that is; at the front, where there
/// is nothing to take back, `..` is dropped.
pub open spec fn normalized(parts: Seq<PathPart>) -> Seq<PathPart>
    decreases parts.len(),
{
    if parts.len() == 0 {
        Seq::empty()
    } else {
        let before = normalized(parts.drop_last());
        match parts.last() {
            PathPart::ParentDir => if before.len() > 0 {
                before.drop_last()
            } else {
                before
            },
            PathPart::CurDir => before,
            part => before.push(part),
        }
    }
}

/// Whether a path holds neither `.` nor `..`.
pub open spec fn plain(parts: Seq<PathPart>) -> bool {
    forall|i: int| 0 <= i < parts.len() ==> !((#[trigger] parts[i]) is CurDir) && !(parts[i] is ParentDir)
}

/// Brings the components of a path into normal form. The result holds
/// neither `.` nor `..`.
pub fn normalize_path(parts: Vec<PathPart>) -> (components: Vec<PathPart>)
    ensures
        components@ == normalized(parts@),
        plain(components@),
{
    let mut components: Vec<PathPart> = Vec::new();
    let ghost all = parts@;
    for part in it: parts
        invariant
            it.seq() == all,
            components@ == normalized(all.take(it.index())),
            plain(components@),
    {
        assert(all.take(it.index() + 1).drop_last() == all.take(it.index()));
        match part {
            PathPart::ParentDir => {
                components.pop();
            },
            PathPart::CurDir => {},
            other => {
                components.push(other);
            },
        }
    }
    assert(all.take(all.len() as int) == all);
    components
}

/// The normal form holds neither `.` nor `..`.
pub proof fn lemma_normalized_is_plain(parts: Seq<PathPart>)
    ensures
        plain(normalized(parts)),
    decreases parts.len(),
{
    if parts.len() > 0 {
        lemma_normalized_is_plain(parts.drop_last());
    }
}

/// A path that holds neither `.` nor `..` is its own normal form.
pub proof fn lemma_plain_is_normal(parts: Seq<PathPart>)
    requires
        plain(parts),
    ensures
        normalized(parts) == parts,
    decreases parts.len(),
{
    if parts.len() > 0 {
        lemma_plain_is_normal(parts.drop_last());
        assert(parts.drop_last().push(parts.last()) == parts);
    }
}

/// Normalising twice is normalising once.
pub proof fn lemma_normalized_twice(parts: Seq<PathPart>)
    ensures
        normalized(normalized(parts)) == normalized(parts),
{
    lemma_normalized_is_plain(parts);
    lemma_plain_is_normal(normalized(parts));
}

} // verus!
