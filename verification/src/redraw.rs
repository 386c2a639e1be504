//! The redraw lattice: what part of the screen the renderer must repaint.
//!
//! Every handler in an event's chain proposes one value; proposals are
//! merged by taking the larger under the ordering
//! `Skip < PeakVolume < Entries < ContextMenu < Full`, with `Exit` above
//! everything: once any handler asks to stop the application, the merged
//! instruction is `Exit`.

use crate::entry::EntryIdentifier;
use vstd::prelude::*;

verus! {

/// One repaint instruction: skip, repaint one peak meter, the entry list,
/// the context-menu overlay, everything, or tear down and stop.
#[derive(Clone, Copy, PartialEq, Eq, Structural, Debug)]
pub enum RedrawType {
    Full,
    Entries,
    PeakVolume(EntryIdentifier),
    ContextMenu,
    Skip,
    Exit,
}

impl RedrawType {
    /// Position in the repaint ordering; `Exit` sits above everything.
    pub open spec fn rank(self) -> int {
        match self {
            RedrawType::Skip => 0,
            RedrawType::PeakVolume(_) => 1,
            RedrawType::Entries => 2,
            RedrawType::ContextMenu => 3,
            RedrawType::Full => 4,
            RedrawType::Exit => 5,
        }
    }

    /// Take-the-larger merge of two repaint instructions.  Two repaints of
    /// different single meters join to a repaint of the whole entry list.
    pub open spec fn spec_merge(a: RedrawType, b: RedrawType) -> RedrawType {
        if a == b {
            a
        } else if a.rank() < b.rank() {
            b
        } else if b.rank() < a.rank() {
            a
        } else {
            RedrawType::Entries
        }
    }

    /// Executable mirror of [`Self::spec_merge`], folding `other` into
    /// this instruction.
    pub fn take_bigger(&mut self, other: RedrawType)
        ensures
            *final(self) == RedrawType::spec_merge(*old(self), other),
    {
        let a = *self;
        if a == other {
        } else {
            let ra = a.rank_exec();
            let rb = other.rank_exec();
            if ra < rb {
                *self = other;
            } else if rb < ra {
            } else {
                *self = RedrawType::Entries;
            }
        }
    }

    /// Fold this proposal into the merged instruction accumulated so far.
    pub fn apply(self, current: &mut RedrawType)
        ensures
            *final(current) == RedrawType::spec_merge(*old(current), self),
    {
        current.take_bigger(self);
    }

    /// Executable mirror of [`Self::rank`].
    pub fn rank_exec(self) -> (r: u8)
        ensures
            r as int == self.rank(),
    {
        match self {
            RedrawType::Skip => 0,
            RedrawType::PeakVolume(_) => 1,
            RedrawType::Entries => 2,
            RedrawType::ContextMenu => 3,
            RedrawType::Full => 4,
            RedrawType::Exit => 5,
        }
    }
}

/// The merge takes its arguments in either order to the same instruction.
pub proof fn lemma_merge_commutative(a: RedrawType, b: RedrawType)
    ensures
        RedrawType::spec_merge(a, b) == RedrawType::spec_merge(b, a),
{
}

/// Merging an instruction with itself changes nothing.
pub proof fn lemma_merge_idempotent(a: RedrawType)
    ensures
        RedrawType::spec_merge(a, a) == a,
{
}

/// Re-applying a proposal that was already merged changes nothing:
/// `merge(a, merge(a, b)) == merge(a, b)`.
pub proof fn lemma_merge_absorb(a: RedrawType, b: RedrawType)
    ensures
        RedrawType::spec_merge(a, RedrawType::spec_merge(a, b)) == RedrawType::spec_merge(a, b),
{
}

/// The merge is associative, so the chain's result does not depend on how
/// the handlers' proposals are grouped.
pub proof fn lemma_merge_associative(a: RedrawType, b: RedrawType, c: RedrawType)
    ensures
        RedrawType::spec_merge(RedrawType::spec_merge(a, b), c) == RedrawType::spec_merge(
            a,
            RedrawType::spec_merge(b, c),
        ),
{
}

/// `Exit` overrides whatever it is merged with, in either position.
pub proof fn lemma_merge_exit(a: RedrawType)
    ensures
        RedrawType::spec_merge(a, RedrawType::Exit) == RedrawType::Exit,
        RedrawType::spec_merge(RedrawType::Exit, a) == RedrawType::Exit,
{
}

/// Merging never lowers an instruction: the merged value sits at least as
/// high as each argument.
pub proof fn lemma_merge_grows(a: RedrawType, b: RedrawType)
    ensures
        RedrawType::spec_merge(a, b).rank() >= a.rank(),
        RedrawType::spec_merge(a, b).rank() >= b.rank(),
{
}

} // verus!
