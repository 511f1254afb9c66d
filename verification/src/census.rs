//! Counting the immediate children of a directory by kind.
use crate::model::{ChildProbe, DirectoryCensus, EntryKind, Fatal};
use vstd::prelude::*;

verus! {

/// Why a child stops the census, if it does.
pub open spec fn rejected(child: ChildProbe) -> Option<Fatal> {
    match child {
        ChildProbe::Unreadable => Some(Fatal::EntryAccess),
        ChildProbe::Untyped => Some(Fatal::EntryType),
        ChildProbe::Kind(EntryKind::Other) => Some(Fatal::EntryUnsupported),
        ChildProbe::Kind(_) => None,
    }
}

/// Why a child stops the census, if it does: it could not be read, or it is
/// no directory, file or symbolic link.
pub fn refusal(child: ChildProbe) -> (fatal: Option<Fatal>)
    ensures
        fatal == rejected(child),
{
    match child {
        ChildProbe::Unreadable => Some(Fatal::EntryAccess),
        ChildProbe::Untyped => Some(Fatal::EntryType),
        ChildProbe::Kind(EntryKind::Other) => Some(Fatal::EntryUnsupported),
        ChildProbe::Kind(_) => None,
    }
}

/// The error of the first child that stops the census, in reading order.
pub open spec fn first_rejected(children: Seq<ChildProbe>) -> Option<Fatal>
    decreases children.len(),
{
    if children.len() == 0 {
        None
    } else if first_rejected(children.drop_last()) is Some {
        first_rejected(children.drop_last())
    } else {
        rejected(children.last())
    }
}

/// How many of the children are of the given kind.
pub open spec fn count(children: Seq<ChildProbe>, kind: EntryKind) -> nat
    decreases children.len(),
{
    if children.len() == 0 {
        0
    } else {
        count(children.drop_last(), kind) + if children.last() == ChildProbe::Kind(kind) {
            1nat
        } else {
            0nat
        }
    }
}

/// The census of a directory whose children number no more than `u32::MAX`.
pub open spec fn census_of(children: Seq<ChildProbe>) -> DirectoryCensus {
    DirectoryCensus {
        directories: count(children, EntryKind::Directory) as u32,
        files: count(children, EntryKind::File) as u32,
        symlinks: count(children, EntryKind::Symlink) as u32,
    }
}

/// What the enumeration of a directory comes to: the error of the first child
/// that stops it, or the census of all of them.
pub open spec fn tallied(children: Seq<ChildProbe>) -> Result<DirectoryCensus, Fatal> {
    match first_rejected(children) {
        Some(fatal) => Err(fatal),
        None => Ok(census_of(children)),
    }
}

/// Where no child stops the census, every child is counted once: the three
/// counts add up to the number of children.
pub proof fn lemma_counts_cover(children: Seq<ChildProbe>)
    requires
        first_rejected(children) is None,
    ensures
        count(children, EntryKind::Directory) + count(children, EntryKind::File) + count(
            children,
            EntryKind::Symlink,
        ) == children.len(),
    decreases children.len(),
{
    if children.len() > 0 {
        lemma_counts_cover(children.drop_last());
    }
}

/// The census of a directory sums to the number of its immediate children.
pub proof fn lemma_census_sums(children: Seq<ChildProbe>)
    requires
        children.len() <= u32::MAX,
        first_rejected(children) is None,
    ensures
        census_of(children).wf(),
        census_of(children).sum() == children.len(),
{
    lemma_counts_cover(children);
}

/// Counts the children of a directory by kind, in reading order, and stops at
/// the first one that could not be read or is of no supported kind.
pub fn tally(children: &Vec<ChildProbe>) -> (census: Result<DirectoryCensus, Fatal>)
    requires
        children@.len() <= u32::MAX,
    ensures
        census == tallied(children@),
        census is Ok ==> census->Ok_0.wf() && census->Ok_0.sum() == children@.len(),
{
    let mut directories: u32 = 0;
    let mut files: u32 = 0;
    let mut symlinks: u32 = 0;
    let mut at: usize = 0;
    while at < children.len()
        invariant
            at <= children@.len() <= u32::MAX,
            first_rejected(children@.take(at as int)) is None,
            directories == count(children@.take(at as int), EntryKind::Directory),
            files == count(children@.take(at as int), EntryKind::File),
            symlinks == count(children@.take(at as int), EntryKind::Symlink),
        decreases children@.len() - at,
    {
        proof {
            lemma_counts_cover(children@.take(at as int));
            assert(children@.take(at + 1).drop_last() =~= children@.take(at as int));
            if first_rejected(children@.take(at + 1)) is Some {
                lemma_rejection_stays(children@, at + 1);
            }
        }
        if let Some(fatal) = refusal(children[at]) {
            return Err(fatal);
        }
        match children[at] {
            ChildProbe::Kind(EntryKind::Directory) => {
                directories = directories + 1;
            },
            ChildProbe::Kind(EntryKind::File) => {
                files = files + 1;
            },
            _ => {
                symlinks = symlinks + 1;
            },
        }
        at = at + 1;
    }
    proof {
        assert(children@.take(at as int) =~= children@);
        lemma_census_sums(children@);
    }
    Ok(DirectoryCensus { directories, files, symlinks })
}

/// A child that stops the census among the first `n` stops the whole census,
/// with the same error.
pub proof fn lemma_rejection_stays(children: Seq<ChildProbe>, n: int)
    requires
        0 <= n <= children.len(),
        first_rejected(children.take(n)) is Some,
    ensures
        first_rejected(children) == first_rejected(children.take(n)),
    decreases children.len() - n,
{
    if n < children.len() {
        assert(children.take(n + 1).drop_last() =~= children.take(n));
        lemma_rejection_stays(children, n + 1);
    } else {
        assert(children.take(n) =~= children);
    }
}

} // verus!
