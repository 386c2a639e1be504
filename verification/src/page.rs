//! The page projector: which records the current page shows, in order.
//!
//! On every event that might have changed membership or hide state, the
//! projector recomputes every parent record's aggregated hide status from
//! the live children, regenerates the ordered visible sequence for the
//! active page, and reports whether the sequence differs from the one
//! shown before.

use crate::entry::{
    ident_of, spec_ids_of_type, with_hidden, Entries, EntryIdentifier, EntryType, EntryV,
    HiddenStatus,
};
use vstd::prelude::*;

verus! {

/// The active top-level view: output devices, input devices, or cards.
#[derive(Clone, Copy, PartialEq, Eq, Structural, Debug)]
pub enum PageType {
    Output,
    Input,
    Cards,
}

impl PageType {
    /// The parent and child categories this page lists.  The cards page
    /// has no child category; it pairs with itself.
    pub open spec fn spec_parent_child_types(self) -> (EntryType, EntryType) {
        match self {
            PageType::Output => (EntryType::Sink, EntryType::SinkInput),
            PageType::Input => (EntryType::Source, EntryType::SourceOutput),
            PageType::Cards => (EntryType::Card, EntryType::Card),
        }
    }

    /// Executable mirror of [`Self::spec_parent_child_types`].
    pub fn parent_child_types(self) -> (r: (EntryType, EntryType))
        ensures
            r == self.spec_parent_child_types(),
    {
        match self {
            PageType::Output => (EntryType::Sink, EntryType::SinkInput),
            PageType::Input => (EntryType::Source, EntryType::SourceOutput),
            PageType::Cards => (EntryType::Card, EntryType::Card),
        }
    }

    /// The page one step forward in the cycle.
    pub open spec fn spec_next(self) -> PageType {
        match self {
            PageType::Output => PageType::Input,
            PageType::Input => PageType::Cards,
            PageType::Cards => PageType::Output,
        }
    }

    /// The page one step backward in the cycle.
    pub open spec fn spec_prev(self) -> PageType {
        match self {
            PageType::Output => PageType::Cards,
            PageType::Input => PageType::Output,
            PageType::Cards => PageType::Input,
        }
    }

    /// The page `d` steps away: forward for positive `d`, backward for
    /// negative.
    pub open spec fn spec_cycled(self, d: int) -> PageType
        decreases (if d >= 0 { d } else { -d }),
    {
        if d == 0 {
            self
        } else if d > 0 {
            self.spec_next().spec_cycled(d - 1)
        } else {
            self.spec_prev().spec_cycled(d + 1)
        }
    }

    /// Executable mirror of [`Self::spec_cycled`].
    pub fn cycled(self, d: i8) -> (r: PageType)
        ensures
            r == self.spec_cycled(d as int),
    {
        let mut page = self;
        if d >= 0 {
            let mut left: i8 = d;
            while left > 0
                invariant
                    0 <= left,
                    page.spec_cycled(left as int) == self.spec_cycled(d as int),
                decreases left as int,
            {
                page = match page {
                    PageType::Output => PageType::Input,
                    PageType::Input => PageType::Cards,
                    PageType::Cards => PageType::Output,
                };
                left = left - 1;
            }
            page
        } else {
            let mut left: i8 = d;
            while left < 0
                invariant
                    left <= 0,
                    page.spec_cycled(left as int) == self.spec_cycled(d as int),
                decreases -(left as int),
            {
                page = match page {
                    PageType::Output => PageType::Cards,
                    PageType::Input => PageType::Output,
                    PageType::Cards => PageType::Input,
                };
                left = left + 1;
            }
            page
        }
    }
}

/// The ordered sequence of identifiers the current page displays, with
/// the parent category it was generated for.  Equality of two sequences
/// (values and order) decides whether the page changed.
pub struct PageEntries {
    pub ids: Vec<EntryIdentifier>,
    pub parent_type: EntryType,
}

impl PageEntries {
    pub fn new() -> (r: PageEntries)
        ensures
            r.ids@ == Seq::<EntryIdentifier>::empty(),
            r.parent_type == EntryType::Sink,
    {
        PageEntries { ids: Vec::new(), parent_type: EntryType::Sink }
    }

    pub fn len(&self) -> (r: usize)
        ensures
            r == self.ids@.len(),
    {
        self.ids.len()
    }

    /// The identifier at row `i`, when the page has one.
    pub fn get(&self, i: usize) -> (r: Option<EntryIdentifier>)
        ensures
            match r {
                Some(id) => i < self.ids@.len() && id == self.ids@[i as int],
                None => i >= self.ids@.len(),
            },
    {
        if i < self.ids.len() {
            Some(self.ids[i])
        } else {
            None
        }
    }

    /// The first row showing `id`, when one exists.
    pub fn position(&self, id: EntryIdentifier) -> (r: Option<usize>)
        ensures
            match r {
                Some(i) => i < self.ids@.len() && self.ids@[i as int] == id && forall|j: int|
                    0 <= j < i ==> self.ids@[j] != id,
                None => forall|j: int| 0 <= j < self.ids@.len() ==> self.ids@[j] != id,
            },
    {
        let mut i: usize = 0;
        while i < self.ids.len()
            invariant
                i <= self.ids@.len(),
                forall|j: int| 0 <= j < i ==> self.ids@[j] != id,
            decreases self.ids@.len() - i,
        {
            let candidate = self.ids[i];
            if candidate.entry_type == id.entry_type && candidate.index == id.index {
                return Some(i);
            }
            i = i + 1;
        }
        None
    }

    /// Replace the displayed sequence; answers whether it differed from
    /// the one displayed before.
    pub fn set(&mut self, new_ids: Vec<EntryIdentifier>, p: EntryType) -> (changed: bool)
        ensures
            final(self).ids@ == new_ids@,
            final(self).parent_type == p,
            changed == !(old(self).ids@ == new_ids@ && old(self).parent_type == p),
    {
        let mut same = self.parent_type == p && self.ids.len() == new_ids.len();
        let mut i: usize = 0;
        while same && i < self.ids.len()
            invariant
                i <= self.ids@.len(),
                self.ids@ == old(self).ids@,
                self.parent_type == old(self).parent_type,
                same ==> self.parent_type == p && self.ids@.len() == new_ids@.len() && forall|
                    j: int,
                |
                    0 <= j < i ==> self.ids@[j] == new_ids@[j],
                !same ==> !(old(self).ids@ == new_ids@ && old(self).parent_type == p),
            decreases self.ids@.len() - i + (if same { 1int } else { 0int }),
        {
            let a = self.ids[i];
            let b = new_ids[i];
            if a.entry_type == b.entry_type && a.index == b.index {
                i = i + 1;
            } else {
                assert(self.ids@[i as int] != new_ids@[i as int]);
                same = false;
            }
        }
        if same {
            proof {
                assert(old(self).ids@ =~= new_ids@);
            }
        }
        self.ids = new_ids;
        self.parent_type = p;
        !same
    }
}

/// Whether some record of category `ct` names `parent_index` as parent.
pub open spec fn spec_has_child(s: Seq<EntryV>, ct: EntryType, parent_index: u32) -> bool {
    exists|i: int|
        0 <= i < s.len() && (#[trigger] s[i]).entry_type == ct && s[i].parent == Some(parent_index)
}

/// One record after the hide recompute: a record of the page's parent
/// category becomes `HiddenKids` when it has a live child and its hide
/// toggle is on, `NoKids` otherwise; every other record is untouched.
pub open spec fn spec_recompute_one(
    e: EntryV,
    s: Seq<EntryV>,
    pt: EntryType,
    ct: EntryType,
) -> EntryV {
    if e.entry_type == pt {
        with_hidden(
            e,
            if spec_has_child(s, ct, e.index) && e.hide_requested {
                HiddenStatus::HiddenKids
            } else {
                HiddenStatus::NoKids
            },
        )
    } else {
        e
    }
}

/// The whole store after the hide recompute for a page.
pub open spec fn spec_recompute(s: Seq<EntryV>, pt: EntryType, ct: EntryType) -> Seq<EntryV> {
    s.map_values(|e: EntryV| spec_recompute_one(e, s, pt, ct))
}

/// Executable mirror of [`spec_has_child`].
pub fn has_child(entries: &Entries, ct: EntryType, parent_index: u32) -> (r: bool)
    ensures
        r == spec_has_child(entries@, ct, parent_index),
{
    let mut i: usize = 0;
    while i < entries.list.len()
        invariant
            i <= entries@.len(),
            entries@.len() == entries.list@.len(),
            forall|j: int|
                0 <= j < i ==> !((#[trigger] entries@[j]).entry_type == ct && entries@[j].parent
                    == Some(parent_index)),
        decreases entries@.len() - i,
    {
        let e = &entries.list[i];
        assert(entries@[i as int] == e@);
        if e.entry_type == ct {
            match e.parent {
                Some(pi) => {
                    if pi == parent_index {
                        return true;
                    }
                }
                None => {}
            }
        }
        i = i + 1;
    }
    false
}

/// Recompute every parent record's aggregated hide status for the given
/// page, from the live children in the store.
pub fn recompute_hidden(entries: &mut Entries, page: PageType)
    requires
        old(entries).wf(),
    ensures
        final(entries).wf(),
        final(entries)@ == spec_recompute(
            old(entries)@,
            page.spec_parent_child_types().0,
            page.spec_parent_child_types().1,
        ),
{
    let (pt, ct) = page.parent_child_types();
    let ghost s0 = entries@;
    let mut i: usize = 0;
    while i < entries.list.len()
        invariant
            entries.wf(),
            i <= entries@.len(),
            entries@.len() == entries.list@.len(),
            entries@.len() == s0.len(),
            pt == page.spec_parent_child_types().0,
            ct == page.spec_parent_child_types().1,
            forall|j: int| 0 <= j < i ==> entries@[j] == spec_recompute_one(s0[j], s0, pt, ct),
            forall|j: int| i <= j < s0.len() ==> entries@[j] == s0[j],
        decreases entries@.len() - i,
    {
        let (is_parent, idx, req) = {
            let e = &entries.list[i];
            assert(entries@[i as int] == e@);
            (e.entry_type == pt, e.index, e.hide_requested)
        };
        if is_parent {
            let live = has_child(entries, ct, idx);
            proof {
                assert forall|k: int|
                    0 <= k < s0.len() implies ((#[trigger] entries@[k]).entry_type
                    == s0[k].entry_type && entries@[k].parent == s0[k].parent && entries@[k].index
                    == s0[k].index) by {
                    if k < i {
                        assert(entries@[k] == spec_recompute_one(s0[k], s0, pt, ct));
                    }
                }
                assert(spec_has_child(entries@, ct, idx) == spec_has_child(s0, ct, idx)) by {
                    if spec_has_child(entries@, ct, idx) {
                        let w = choose|w: int|
                            0 <= w < entries@.len() && (#[trigger] entries@[w]).entry_type == ct
                                && entries@[w].parent == Some(idx);
                        assert(s0[w].entry_type == ct && s0[w].parent == Some(idx));
                    }
                    if spec_has_child(s0, ct, idx) {
                        let w = choose|w: int|
                            0 <= w < s0.len() && (#[trigger] s0[w]).entry_type == ct
                                && s0[w].parent == Some(idx);
                        assert(entries@[w].entry_type == ct && entries@[w].parent == Some(idx));
                    }
                }
            }
            let status = if live && req {
                HiddenStatus::HiddenKids
            } else {
                HiddenStatus::NoKids
            };
            entries.set_hidden_at(i, status);
            proof {
                assert(entries@[i as int] == spec_recompute_one(s0[i as int], s0, pt, ct));
            }
        } else {
            proof {
                assert(entries@[i as int] == spec_recompute_one(s0[i as int], s0, pt, ct));
            }
        }
        i = i + 1;
    }
    proof {
        assert(entries@ =~= spec_recompute(s0, pt, ct));
    }
}

/// Identifiers of the live children of `parent_index` on a page whose
/// child category is `ct`, in store order.
pub open spec fn spec_children_of(
    s: Seq<EntryV>,
    ct: EntryType,
    parent_index: u32,
) -> Seq<EntryIdentifier>
    decreases s.len(),
{
    if s.len() == 0 {
        Seq::empty()
    } else {
        spec_children_of(s.drop_last(), ct, parent_index)
            + if s.last().entry_type == ct && s.last().parent == Some(parent_index) {
                seq![ident_of(s.last())]
            } else {
                Seq::empty()
            }
    }
}

/// The rows contributed by the first `k` records of the store: each
/// parent record in order, followed by its children unless its hide
/// status says they are hidden.
pub open spec fn spec_parent_rows(
    s: Seq<EntryV>,
    k: int,
    pt: EntryType,
    ct: EntryType,
) -> Seq<EntryIdentifier>
    decreases k,
{
    if k <= 0 {
        Seq::empty()
    } else {
        spec_parent_rows(s, k - 1, pt, ct)
            + if s[k - 1].entry_type == pt {
                seq![ident_of(s[k - 1])]
                    + if s[k - 1].hidden != HiddenStatus::HiddenKids {
                    spec_children_of(s, ct, s[k - 1].index)
                } else {
                    Seq::empty()
                }
            } else {
                Seq::empty()
            }
    }
}

/// The ordered visible sequence for a page: the cards page lists every
/// card; the device pages list each device followed by its non-hidden
/// streams.
pub open spec fn spec_generate_page(s: Seq<EntryV>, page: PageType) -> Seq<EntryIdentifier> {
    match page {
        PageType::Cards => spec_ids_of_type(s, EntryType::Card),
        _ => spec_parent_rows(
            s,
            s.len() as int,
            page.spec_parent_child_types().0,
            page.spec_parent_child_types().1,
        ),
    }
}

/// Executable mirror of [`spec_children_of`].
fn children_of(entries: &Entries, ct: EntryType, parent_index: u32) -> (r: Vec<EntryIdentifier>)
    ensures
        r@ == spec_children_of(entries@, ct, parent_index),
{
    let mut r: Vec<EntryIdentifier> = Vec::new();
    let mut j: usize = 0;
    while j < entries.list.len()
        invariant
            j <= entries@.len(),
            entries@.len() == entries.list@.len(),
            r@ == spec_children_of(entries@.take(j as int), ct, parent_index),
        decreases entries@.len() - j,
    {
        let e = &entries.list[j];
        assert(entries@[j as int] == e@);
        assert(entries@.take(j + 1).drop_last() == entries@.take(j as int));
        assert(entries@.take(j + 1).last() == entries@[j as int]);
        let is_child = e.entry_type == ct && match e.parent {
            Some(pi) => pi == parent_index,
            None => false,
        };
        if is_child {
            r.push(e.identifier());
            assert(r@ =~= spec_children_of(entries@.take(j + 1), ct, parent_index));
        } else {
            assert(r@ =~= spec_children_of(entries@.take(j + 1), ct, parent_index));
        }
        j = j + 1;
    }
    proof {
        assert(entries@.take(entries@.len() as int) == entries@);
    }
    r
}

/// Generate the ordered visible sequence for `page` from the store.
pub fn generate_page(entries: &Entries, page: PageType) -> (r: Vec<EntryIdentifier>)
    ensures
        r@ == spec_generate_page(entries@, page),
{
    match page {
        PageType::Cards => entries.iter_type(EntryType::Card),
        _ => {
            let (pt, ct) = page.parent_child_types();
            let mut r: Vec<EntryIdentifier> = Vec::new();
            let mut i: usize = 0;
            while i < entries.list.len()
                invariant
                    i <= entries@.len(),
                    entries@.len() == entries.list@.len(),
                    pt == page.spec_parent_child_types().0,
                    ct == page.spec_parent_child_types().1,
                    r@ == spec_parent_rows(entries@, i as int, pt, ct),
                decreases entries@.len() - i,
            {
                let (is_parent, idx, shown) = {
                    let e = &entries.list[i];
                    assert(entries@[i as int] == e@);
                    (e.entry_type == pt, e.index, e.hidden != HiddenStatus::HiddenKids)
                };
                if is_parent {
                    let e = &entries.list[i];
                    r.push(e.identifier());
                    if shown {
                        let mut kids = children_of(entries, ct, idx);
                        r.append(&mut kids);
                    }
                    assert(r@ =~= spec_parent_rows(entries@, i + 1, pt, ct));
                } else {
                    assert(r@ =~= spec_parent_rows(entries@, i + 1, pt, ct));
                }
                i = i + 1;
            }
            r
        }
    }
}

/// The first position of `id` in a list of identifiers, when it has one.
pub open spec fn spec_first_pos(s: Seq<EntryIdentifier>, id: EntryIdentifier) -> Option<int>
    decreases s.len(),
{
    if s.len() == 0 {
        None
    } else if s[0] == id {
        Some(0int)
    } else {
        match spec_first_pos(s.drop_first(), id) {
            Some(i) => Some(i + 1),
            None => None,
        }
    }
}

pub proof fn lemma_first_pos_present(s: Seq<EntryIdentifier>, id: EntryIdentifier, i: int)
    requires
        0 <= i < s.len(),
        s[i] == id,
        forall|j: int| 0 <= j < i ==> s[j] != id,
    ensures
        spec_first_pos(s, id) == Some(i),
    decreases s.len(),
{
    if i > 0 {
        assert(forall|j: int| 0 <= j < i - 1 ==> s.drop_first()[j] != id);
        lemma_first_pos_present(s.drop_first(), id, i - 1);
    }
}

pub proof fn lemma_first_pos_absent(s: Seq<EntryIdentifier>, id: EntryIdentifier)
    requires
        forall|j: int| 0 <= j < s.len() ==> s[j] != id,
    ensures
        spec_first_pos(s, id) is None,
    decreases s.len(),
{
    if s.len() > 0 {
        assert(forall|j: int| 0 <= j < s.len() - 1 ==> s.drop_first()[j] != id);
        lemma_first_pos_absent(s.drop_first(), id);
    }
}

/// Executable mirror of [`spec_first_pos`].
pub fn first_pos(v: &Vec<EntryIdentifier>, id: EntryIdentifier) -> (r: Option<usize>)
    ensures
        match r {
            Some(i) => i < v@.len() && v@[i as int] == id && spec_first_pos(v@, id) == Some(
                i as int,
            ) && forall|j: int| 0 <= j < i ==> v@[j] != id,
            None => spec_first_pos(v@, id) is None && forall|j: int|
                0 <= j < v@.len() ==> v@[j] != id,
        },
{
    let mut i: usize = 0;
    while i < v.len()
        invariant
            i <= v@.len(),
            forall|j: int| 0 <= j < i ==> v@[j] != id,
        decreases v@.len() - i,
    {
        let c = v[i];
        if c.entry_type == id.entry_type && c.index == id.index {
            proof {
                lemma_first_pos_present(v@, id, i as int);
            }
            return Some(i);
        }
        i = i + 1;
    }
    proof {
        lemma_first_pos_absent(v@, id);
    }
    None
}


/// Recomputing hide statuses twice for the same page is the same as
/// recomputing them once, and the visible sequence generated after the
/// second recompute equals the one generated after the first: with no
/// intervening store mutation, a re-run of the projector reproduces the
/// displayed page exactly, so the handler that compares the sequences
/// proposes no repaint for the second run.
pub proof fn lemma_projection_idempotent(s: Seq<EntryV>, page: PageType)
    ensures
        spec_recompute(
            spec_recompute(s, page.spec_parent_child_types().0, page.spec_parent_child_types().1),
            page.spec_parent_child_types().0,
            page.spec_parent_child_types().1,
        ) == spec_recompute(
            s,
            page.spec_parent_child_types().0,
            page.spec_parent_child_types().1,
        ),
{
    let pt = page.spec_parent_child_types().0;
    let ct = page.spec_parent_child_types().1;
    let s1 = spec_recompute(s, pt, ct);
    assert(s1.len() == s.len());
    assert forall|idx: u32| spec_has_child(s1, ct, idx) == spec_has_child(s, ct, idx) by {
        if spec_has_child(s1, ct, idx) {
            let w = choose|w: int|
                0 <= w < s1.len() && (#[trigger] s1[w]).entry_type == ct && s1[w].parent == Some(
                    idx,
                );
            assert(s1[w] == spec_recompute_one(s[w], s, pt, ct));
            assert(s[w].entry_type == ct && s[w].parent == Some(idx));
        }
        if spec_has_child(s, ct, idx) {
            let w = choose|w: int|
                0 <= w < s.len() && (#[trigger] s[w]).entry_type == ct && s[w].parent == Some(idx);
            assert(s1[w] == spec_recompute_one(s[w], s, pt, ct));
            assert(s1[w].entry_type == ct && s1[w].parent == Some(idx));
        }
    }
    assert forall|j: int| 0 <= j < s.len() implies spec_recompute(s1, pt, ct)[j] == s1[j] by {
        assert(s1[j] == spec_recompute_one(s[j], s, pt, ct));
        assert(spec_recompute(s1, pt, ct)[j] == spec_recompute_one(s1[j], s1, pt, ct));
    }
    assert(spec_recompute(s1, pt, ct) =~= s1);
}

/// A state one projector run produced is a fixed point: its hide statuses
/// are already what the recompute derives, so re-running the projector
/// with no intervening store mutation regenerates exactly the sequence on
/// display — and the handler that compares the two therefore reports no
/// change, proposing no repaint and no monitor replacement.
pub proof fn lemma_projection_stable(s: Seq<EntryV>, page: PageType, shown: Seq<EntryIdentifier>)
    requires
        s == spec_recompute(s, page.spec_parent_child_types().0, page.spec_parent_child_types().1),
        shown == spec_generate_page(s, page),
    ensures
        spec_generate_page(
            spec_recompute(s, page.spec_parent_child_types().0, page.spec_parent_child_types().1),
            page,
        ) == shown,
{
}

/// Hidden aggregation: a parent record with at least one live child and
/// its hide toggle switched on comes out of the recompute as
/// `HiddenKids`; one whose children are all gone comes out as `NoKids`,
/// whatever its toggle says.
pub proof fn lemma_hidden_aggregation(s: Seq<EntryV>, page: PageType, i: int)
    requires
        0 <= i < s.len(),
        s[i].entry_type == page.spec_parent_child_types().0,
    ensures
        (s[i].hide_requested && spec_has_child(
            s,
            page.spec_parent_child_types().1,
            s[i].index,
        )) ==> spec_recompute(
            s,
            page.spec_parent_child_types().0,
            page.spec_parent_child_types().1,
        )[i].hidden == HiddenStatus::HiddenKids,
        !spec_has_child(s, page.spec_parent_child_types().1, s[i].index) ==> spec_recompute(
            s,
            page.spec_parent_child_types().0,
            page.spec_parent_child_types().1,
        )[i].hidden == HiddenStatus::NoKids,
{
    let pt = page.spec_parent_child_types().0;
    let ct = page.spec_parent_child_types().1;
    assert(spec_recompute(s, pt, ct)[i] == spec_recompute_one(s[i], s, pt, ct));
}

} // verus!
