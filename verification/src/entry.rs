//! Typed records of the live audio objects and the store that holds them.
//!
//! The store keeps one record per identifier, in insertion order.  Lookups
//! on absent identifiers are answered with `None` and treated as no-ops by
//! every caller.

use vstd::prelude::*;

verus! {

/// Category of an audio object: output device, playback stream, input
/// device, record stream, or hardware card.  Fixed, closed set.
#[derive(Clone, Copy, PartialEq, Eq, Structural, Debug)]
pub enum EntryType {
    Sink,
    SinkInput,
    Source,
    SourceOutput,
    Card,
}

impl EntryType {
    /// Categories that may own children or profiles.
    pub open spec fn spec_is_parent(self) -> bool {
        self is Sink || self is Source || self is Card
    }

    /// The parent category of a stream category, if it has one.
    pub open spec fn spec_parent_type(self) -> Option<EntryType> {
        match self {
            EntryType::SinkInput => Some(EntryType::Sink),
            EntryType::SourceOutput => Some(EntryType::Source),
            _ => None,
        }
    }

    /// Executable mirror of [`Self::spec_parent_type`].
    pub fn parent_type(self) -> (r: Option<EntryType>)
        ensures
            r == self.spec_parent_type(),
    {
        match self {
            EntryType::SinkInput => Some(EntryType::Sink),
            EntryType::SourceOutput => Some(EntryType::Source),
            _ => None,
        }
    }
}

/// Primary key of a record: the pair of category and numeric index.
/// Two identifiers are equal iff both fields match.
#[derive(Clone, Copy, PartialEq, Eq, Structural, Debug)]
pub struct EntryIdentifier {
    pub entry_type: EntryType,
    pub index: u32,
}

impl EntryIdentifier {
    pub fn new(entry_type: EntryType, index: u32) -> (r: Self)
        ensures
            r == (EntryIdentifier { entry_type, index }),
    {
        EntryIdentifier { entry_type, index }
    }
}

/// Aggregated hide state of a parent-capable record.  `Show` is the state
/// before any hide interaction applies; the other two are derived on every
/// projection: `HiddenKids` when the record has at least one live child and
/// its children were toggled hidden, `NoKids` otherwise.
#[derive(Clone, Copy, PartialEq, Eq, Structural, Debug)]
pub enum HiddenStatus {
    Show,
    HiddenKids,
    NoKids,
}

/// One named profile of a card, with its human-readable description.
pub struct CardProfile {
    pub name: String,
    pub description: String,
}

impl CardProfile {
    /// A field-for-field copy.
    pub fn duplicate(&self) -> (r: CardProfile)
        ensures
            r == *self,
    {
        CardProfile { name: self.name.clone(), description: self.description.clone() }
    }
}

/// Payload of a card record: its profiles and the index of the active one.
pub struct CardEntry {
    pub profiles: Vec<CardProfile>,
    pub selected_profile: Option<usize>,
}

/// Abstract value of a [`CardEntry`].
#[verifier::ext_equal]
pub struct CardEntryV {
    pub profiles: Seq<CardProfile>,
    pub selected_profile: Option<usize>,
}

impl View for CardEntry {
    type V = CardEntryV;

    open spec fn view(&self) -> CardEntryV {
        CardEntryV { profiles: self.profiles@, selected_profile: self.selected_profile }
    }
}

/// Payload of a playable record (devices and streams): volume per channel,
/// mute and suspend flags, the last reported peak level in per-mille of
/// full scale, the index of the record's own monitor source if it has one,
/// and, for a playback stream, the index of the owning output device.
pub struct PlayEntry {
    pub mute: bool,
    pub volume: Vec<u32>,
    pub peak: u32,
    pub monitor_source: Option<u32>,
    pub sink: Option<u32>,
    pub suspended: bool,
}

/// Abstract value of a [`PlayEntry`].
#[verifier::ext_equal]
pub struct PlayEntryV {
    pub mute: bool,
    pub volume: Seq<u32>,
    pub peak: u32,
    pub monitor_source: Option<u32>,
    pub sink: Option<u32>,
    pub suspended: bool,
}

impl View for PlayEntry {
    type V = PlayEntryV;

    open spec fn view(&self) -> PlayEntryV {
        PlayEntryV {
            mute: self.mute,
            volume: self.volume@,
            peak: self.peak,
            monitor_source: self.monitor_source,
            sink: self.sink,
            suspended: self.suspended,
        }
    }
}

/// Type-specific payload, keyed by the record's category so that impossible
/// field combinations cannot be formed.
pub enum EntryKind {
    Play(PlayEntry),
    Card(CardEntry),
}

/// Abstract value of an [`EntryKind`].
#[verifier::ext_equal]
pub enum EntryKindV {
    Play(PlayEntryV),
    Card(CardEntryV),
}

impl View for EntryKind {
    type V = EntryKindV;

    open spec fn view(&self) -> EntryKindV {
        match self {
            EntryKind::Play(p) => EntryKindV::Play(p@),
            EntryKind::Card(c) => EntryKindV::Card(c@),
        }
    }
}

/// Canonical record of one live audio object.
pub struct Entry {
    pub entry_type: EntryType,
    pub index: u32,
    pub name: String,
    pub hidden: HiddenStatus,
    pub parent: Option<u32>,
    /// Visual attribute the renderer fills in; the selection manager's
    /// selected index is the canonical selection.
    pub is_selected: bool,
    /// Whether the hide toggle is currently switched on for this record's
    /// children.  Consumed by the page projector when it recomputes
    /// [`Entry::hidden`].
    pub hide_requested: bool,
    pub kind: EntryKind,
}

/// Abstract value of an [`Entry`].
#[verifier::ext_equal]
pub struct EntryV {
    pub entry_type: EntryType,
    pub index: u32,
    pub name: String,
    pub hidden: HiddenStatus,
    pub parent: Option<u32>,
    pub is_selected: bool,
    pub hide_requested: bool,
    pub kind: EntryKindV,
}

impl View for Entry {
    type V = EntryV;

    open spec fn view(&self) -> EntryV {
        EntryV {
            entry_type: self.entry_type,
            index: self.index,
            name: self.name,
            hidden: self.hidden,
            parent: self.parent,
            is_selected: self.is_selected,
            hide_requested: self.hide_requested,
            kind: self.kind@,
        }
    }
}

/// The identifier under which a record is stored.
pub open spec fn ident_of(e: EntryV) -> EntryIdentifier {
    EntryIdentifier { entry_type: e.entry_type, index: e.index }
}

impl EntryV {
    /// A record is well formed when its payload variant matches its
    /// category: cards carry card payloads, everything else is playable.
    pub open spec fn wf(self) -> bool {
        (self.entry_type is Card) <==> (self.kind is Card)
    }

    /// The record's own monitor-source index: playable records report
    /// theirs, cards have none.
    pub open spec fn own_monitor(self) -> Option<u32> {
        match self.kind {
            EntryKindV::Play(p) => p.monitor_source,
            EntryKindV::Card(_) => None,
        }
    }
}

impl Entry {
    pub open spec fn ident(self) -> EntryIdentifier {
        ident_of(self@)
    }

    /// Executable mirror of [`Self::ident`].
    pub fn identifier(&self) -> (r: EntryIdentifier)
        ensures
            r == self.ident(),
    {
        EntryIdentifier { entry_type: self.entry_type, index: self.index }
    }

    /// Executable mirror of [`EntryV::own_monitor`].
    pub fn own_monitor(&self) -> (r: Option<u32>)
        ensures
            r == self@.own_monitor(),
    {
        match &self.kind {
            EntryKind::Play(p) => p.monitor_source,
            EntryKind::Card(_) => None,
        }
    }

    /// Assemble a playable record as a backend report first yields it:
    /// shown, unselected, hide toggle off.
    pub fn new_play(
        entry_type: EntryType,
        index: u32,
        name: String,
        parent: Option<u32>,
        play: PlayEntry,
    ) -> (r: Entry)
        requires
            !(entry_type is Card),
        ensures
            r@ == (EntryV {
                entry_type,
                index,
                name,
                hidden: HiddenStatus::Show,
                parent,
                is_selected: false,
                hide_requested: false,
                kind: EntryKindV::Play(play@),
            }),
            r@.wf(),
    {
        let r = Entry {
            entry_type,
            index,
            name,
            hidden: HiddenStatus::Show,
            parent,
            is_selected: false,
            hide_requested: false,
            kind: EntryKind::Play(play),
        };
        proof {
            assert(r@ =~= (EntryV {
                entry_type,
                index,
                name: r.name,
                hidden: HiddenStatus::Show,
                parent,
                is_selected: false,
                hide_requested: false,
                kind: r.kind@,
            }));
        }
        r
    }

    /// Assemble a card record as a backend report first yields it.
    pub fn new_card(index: u32, name: String, card: CardEntry) -> (r: Entry)
        ensures
            r@ == (EntryV {
                entry_type: EntryType::Card,
                index,
                name,
                hidden: HiddenStatus::Show,
                parent: None,
                is_selected: false,
                hide_requested: false,
                kind: EntryKindV::Card(card@),
            }),
            r@.wf(),
    {
        let r = Entry {
            entry_type: EntryType::Card,
            index,
            name,
            hidden: HiddenStatus::Show,
            parent: None,
            is_selected: false,
            hide_requested: false,
            kind: EntryKind::Card(card),
        };
        proof {
            assert(r@ =~= (EntryV {
                entry_type: EntryType::Card,
                index,
                name: r.name,
                hidden: HiddenStatus::Show,
                parent: None,
                is_selected: false,
                hide_requested: false,
                kind: r.kind@,
            }));
        }
        r
    }

    /// A copy whose abstract value equals this record's.
    pub fn duplicate(&self) -> (r: Entry)
        ensures
            r@ == self@,
    {
        let kind = match &self.kind {
            EntryKind::Play(p) => {
                let mut volume: Vec<u32> = Vec::new();
                let mut i: usize = 0;
                while i < p.volume.len()
                    invariant
                        i <= p.volume.len(),
                        volume@ == p.volume@.take(i as int),
                    decreases p.volume.len() - i,
                {
                    volume.push(p.volume[i]);
                    assert(p.volume@.take(i + 1) == p.volume@.take(i as int).push(p.volume@[i as int]));
                    i = i + 1;
                }
                assert(volume@ == p.volume@) by {
                    assert(p.volume@.take(p.volume@.len() as int) == p.volume@);
                }
                EntryKind::Play(PlayEntry {
                    mute: p.mute,
                    volume,
                    peak: p.peak,
                    monitor_source: p.monitor_source,
                    sink: p.sink,
                    suspended: p.suspended,
                })
            }
            EntryKind::Card(c) => {
                let mut profiles: Vec<CardProfile> = Vec::new();
                let mut i: usize = 0;
                while i < c.profiles.len()
                    invariant
                        i <= c.profiles.len(),
                        profiles@ == c.profiles@.take(i as int),
                    decreases c.profiles.len() - i,
                {
                    profiles.push(c.profiles[i].duplicate());
                    assert(c.profiles@.take(i + 1)
                        == c.profiles@.take(i as int).push(c.profiles@[i as int]));
                    i = i + 1;
                }
                assert(profiles@ == c.profiles@) by {
                    assert(c.profiles@.take(c.profiles@.len() as int) == c.profiles@);
                }
                EntryKind::Card(CardEntry { profiles, selected_profile: c.selected_profile })
            }
        };
        let r = Entry {
            entry_type: self.entry_type,
            index: self.index,
            name: self.name.clone(),
            hidden: self.hidden,
            parent: self.parent,
            is_selected: self.is_selected,
            hide_requested: self.hide_requested,
            kind,
        };
        assert(r@ =~= self@);
        r
    }
}

/// The profile list a backend report yields: reports without a name are
/// dropped, and a missing description falls back to the name.
pub open spec fn spec_card_profiles(
    raw: Seq<(Option<String>, Option<String>)>,
) -> Seq<CardProfile>
    decreases raw.len(),
{
    if raw.len() == 0 {
        Seq::empty()
    } else {
        spec_card_profiles(raw.drop_last())
            + match raw.last().0 {
                Some(n) => seq![
                    CardProfile {
                        name: n,
                        description: match raw.last().1 {
                            Some(d) => d,
                            None => n,
                        },
                    },
                ],
                None => Seq::empty(),
            }
    }
}

/// The first position whose profile is named `n`, when one exists.
pub open spec fn spec_profile_position(profiles: Seq<CardProfile>, n: Seq<char>) -> Option<int>
    decreases profiles.len(),
{
    if profiles.len() == 0 {
        None
    } else if profiles[0].name@ == n {
        Some(0int)
    } else {
        match spec_profile_position(profiles.drop_first(), n) {
            Some(i) => Some(i + 1),
            None => None,
        }
    }
}

impl CardEntry {
    /// Assemble a card payload from a backend report: profiles as
    /// [`spec_card_profiles`] keeps them, and the active profile resolved
    /// to the first kept profile carrying the reported name.
    pub fn from_report(
        raw_profiles: Vec<(Option<String>, Option<String>)>,
        active: Option<String>,
    ) -> (r: CardEntry)
        ensures
            r.profiles@ == spec_card_profiles(raw_profiles@),
            match active {
                Some(n) => match spec_profile_position(r.profiles@, n@) {
                    Some(i) => r.selected_profile == Some(i as usize),
                    None => r.selected_profile is None,
                },
                None => r.selected_profile is None,
            },
    {
        let mut profiles: Vec<CardProfile> = Vec::new();
        let mut i: usize = 0;
        while i < raw_profiles.len()
            invariant
                i <= raw_profiles@.len(),
                profiles@ == spec_card_profiles(raw_profiles@.take(i as int)),
            decreases raw_profiles@.len() - i,
        {
            assert(raw_profiles@.take(i + 1).drop_last() == raw_profiles@.take(i as int));
            assert(raw_profiles@.take(i + 1).last() == raw_profiles@[i as int]);
            let (name, description) = &raw_profiles[i];
            match name {
                Some(n) => {
                    let description = match description {
                        Some(d) => d.clone(),
                        None => n.clone(),
                    };
                    profiles.push(CardProfile { name: n.clone(), description });
                    assert(profiles@ =~= spec_card_profiles(raw_profiles@.take(i + 1)));
                }
                None => {
                    assert(profiles@ =~= spec_card_profiles(raw_profiles@.take(i + 1)));
                }
            }
            i = i + 1;
        }
        proof {
            assert(raw_profiles@.take(raw_profiles@.len() as int) == raw_profiles@);
        }

        let selected_profile: Option<usize> = match &active {
            Some(n) => {
                let mut found: Option<usize> = None;
                let mut j: usize = 0;
                while found.is_none() && j < profiles.len()
                    invariant
                        j <= profiles@.len(),
                        match found {
                            Some(i) => spec_profile_position(profiles@, n@) == Some(i as int),
                            None => forall|k: int| 0 <= k < j ==> profiles@[k].name@ != n@,
                        },
                    decreases profiles@.len() - j + (if found is None { 1int } else { 0int }),
                {
                    if profiles[j].name == *n {
                        proof {
                            lemma_profile_position_present(profiles@, n@, j as int);
                        }
                        found = Some(j);
                    } else {
                        j = j + 1;
                    }
                }
                proof {
                    if found is None {
                        lemma_profile_position_absent(profiles@, n@);
                    }
                }
                found
            }
            None => None,
        };
        CardEntry { profiles, selected_profile }
    }
}

proof fn lemma_profile_position_present(profiles: Seq<CardProfile>, n: Seq<char>, i: int)
    requires
        0 <= i < profiles.len(),
        profiles[i].name@ == n,
        forall|k: int| 0 <= k < i ==> profiles[k].name@ != n,
    ensures
        spec_profile_position(profiles, n) == Some(i),
    decreases profiles.len(),
{
    if i > 0 {
        assert(forall|k: int| 0 <= k < i - 1 ==> profiles.drop_first()[k].name@ != n);
        lemma_profile_position_present(profiles.drop_first(), n, i - 1);
    }
}

proof fn lemma_profile_position_absent(profiles: Seq<CardProfile>, n: Seq<char>)
    requires
        forall|k: int| 0 <= k < profiles.len() ==> profiles[k].name@ != n,
    ensures
        spec_profile_position(profiles, n) is None,
    decreases profiles.len(),
{
    if profiles.len() > 0 {
        assert(forall|k: int| 0 <= k < profiles.len() - 1 ==> profiles.drop_first()[k].name@ != n);
        lemma_profile_position_absent(profiles.drop_first(), n);
    }
}

/// The first record in `s` stored under `id`, scanning from the front.
pub open spec fn spec_find(s: Seq<EntryV>, id: EntryIdentifier) -> Option<EntryV>
    decreases s.len(),
{
    if s.len() == 0 {
        None
    } else if ident_of(s[0]) == id {
        Some(s[0])
    } else {
        spec_find(s.drop_first(), id)
    }
}

/// `spec_find` answers `Some(s[i])` for the first index whose identifier
/// matches.
pub proof fn lemma_find_present(s: Seq<EntryV>, id: EntryIdentifier, i: int)
    requires
        0 <= i < s.len(),
        ident_of(s[i]) == id,
        forall|j: int| 0 <= j < i ==> ident_of(s[j]) != id,
    ensures
        spec_find(s, id) == Some(s[i]),
    decreases s.len(),
{
    if i == 0 {
    } else {
        assert(forall|j: int| 0 <= j < i - 1 ==> ident_of(s.drop_first()[j]) != id);
        lemma_find_present(s.drop_first(), id, i - 1);
    }
}

/// `spec_find` answers `None` when no identifier matches.
pub proof fn lemma_find_absent(s: Seq<EntryV>, id: EntryIdentifier)
    requires
        forall|j: int| 0 <= j < s.len() ==> ident_of(s[j]) != id,
    ensures
        spec_find(s, id) == None::<EntryV>,
    decreases s.len(),
{
    if s.len() > 0 {
        assert(forall|j: int| 0 <= j < s.len() - 1 ==> ident_of(s.drop_first()[j]) != id);
        lemma_find_absent(s.drop_first(), id);
    }
}

/// `e` with its hide toggle flipped.
pub open spec fn with_hide_toggled(e: EntryV) -> EntryV {
    EntryV { hide_requested: !e.hide_requested, ..e }
}

/// `e` with its aggregated hide status replaced.
pub open spec fn with_hidden(e: EntryV, h: HiddenStatus) -> EntryV {
    EntryV { hidden: h, ..e }
}

/// `e` with its peak level replaced, when it is playable.
pub open spec fn with_peak(e: EntryV, peak: u32) -> EntryV {
    match e.kind {
        EntryKindV::Play(p) => EntryV { kind: EntryKindV::Play(PlayEntryV { peak, ..p }), ..e },
        EntryKindV::Card(_) => e,
    }
}

/// The record whose hide toggle a `hide` request against `id` flips: the
/// record itself when its category is parent-capable, its parent record
/// when it is a stream, nothing when it is absent or has no parent link.
pub open spec fn hide_target(s: Seq<EntryV>, id: EntryIdentifier) -> Option<EntryIdentifier> {
    match spec_find(s, id) {
        None => None,
        Some(e) => match e.entry_type.spec_parent_type() {
            Some(pt) => match e.parent {
                Some(pi) => Some(EntryIdentifier { entry_type: pt, index: pi }),
                None => None,
            },
            None => Some(id),
        },
    }
}

/// The whole store after a record is created or changed: a record already
/// stored under the same identifier is replaced in place, a new one is
/// appended; order is kept either way.
pub open spec fn spec_upsert(s: Seq<EntryV>, e: EntryV) -> Seq<EntryV>
    decreases s.len(),
{
    if s.len() == 0 {
        seq![e]
    } else if ident_of(s[0]) == ident_of(e) {
        seq![e] + s.drop_first()
    } else {
        seq![s[0]] + spec_upsert(s.drop_first(), e)
    }
}

/// The whole store after the record under `id` is forgotten; absent
/// identifiers leave it untouched.
pub open spec fn spec_remove_id(s: Seq<EntryV>, id: EntryIdentifier) -> Seq<EntryV>
    decreases s.len(),
{
    if s.len() == 0 {
        s
    } else if ident_of(s[0]) == id {
        s.drop_first()
    } else {
        seq![s[0]] + spec_remove_id(s.drop_first(), id)
    }
}

/// `spec_upsert` replaces in place at the first matching index.
proof fn lemma_upsert_at(s: Seq<EntryV>, e: EntryV, i: int)
    requires
        0 <= i < s.len(),
        ident_of(s[i]) == ident_of(e),
        forall|j: int| 0 <= j < i ==> ident_of(s[j]) != ident_of(e),
    ensures
        spec_upsert(s, e) == s.update(i, e),
    decreases s.len(),
{
    if i == 0 {
        assert(spec_upsert(s, e) =~= s.update(0, e));
    } else {
        assert(forall|j: int| 0 <= j < i - 1 ==> ident_of(s.drop_first()[j]) != ident_of(e));
        lemma_upsert_at(s.drop_first(), e, i - 1);
        assert(seq![s[0]] + s.drop_first().update(i - 1, e) =~= s.update(i, e));
    }
}

/// `spec_upsert` appends when no identifier matches.
proof fn lemma_upsert_absent(s: Seq<EntryV>, e: EntryV)
    requires
        forall|j: int| 0 <= j < s.len() ==> ident_of(s[j]) != ident_of(e),
    ensures
        spec_upsert(s, e) == s.push(e),
    decreases s.len(),
{
    if s.len() == 0 {
        assert(spec_upsert(s, e) =~= s.push(e));
    } else {
        assert(forall|j: int|
            0 <= j < s.drop_first().len() ==> ident_of(s.drop_first()[j]) != ident_of(e));
        lemma_upsert_absent(s.drop_first(), e);
        assert(seq![s[0]] + s.drop_first().push(e) =~= s.push(e));
    }
}

/// `spec_remove_id` deletes the first matching index.
proof fn lemma_remove_id_at(s: Seq<EntryV>, id: EntryIdentifier, i: int)
    requires
        0 <= i < s.len(),
        ident_of(s[i]) == id,
        forall|j: int| 0 <= j < i ==> ident_of(s[j]) != id,
    ensures
        spec_remove_id(s, id) == s.remove(i),
    decreases s.len(),
{
    if i == 0 {
        assert(spec_remove_id(s, id) =~= s.remove(0));
    } else {
        assert(forall|j: int| 0 <= j < i - 1 ==> ident_of(s.drop_first()[j]) != id);
        lemma_remove_id_at(s.drop_first(), id, i - 1);
        assert(seq![s[0]] + s.drop_first().remove(i - 1) =~= s.remove(i));
    }
}

/// `spec_remove_id` leaves a store without the identifier untouched.
proof fn lemma_remove_id_absent(s: Seq<EntryV>, id: EntryIdentifier)
    requires
        forall|j: int| 0 <= j < s.len() ==> ident_of(s[j]) != id,
    ensures
        spec_remove_id(s, id) == s,
    decreases s.len(),
{
    if s.len() > 0 {
        assert(forall|j: int|
            0 <= j < s.drop_first().len() ==> ident_of(s.drop_first()[j]) != id);
        lemma_remove_id_absent(s.drop_first(), id);
        assert(seq![s[0]] + s.drop_first() =~= s);
    }
}

/// The whole store after a peak-level report for `id`: that record's peak
/// is replaced when it is playable; nothing else changes.
pub open spec fn spec_set_peak(s: Seq<EntryV>, id: EntryIdentifier, peak: u32) -> Seq<EntryV> {
    s.map_values(
        |e: EntryV|
            if ident_of(e) == id {
                with_peak(e, peak)
            } else {
                e
            },
    )
}

/// The whole store after a hide request against `id`: the toggle of the
/// record [`hide_target`] resolves to is flipped; nothing else changes.
pub open spec fn spec_toggle_hide(s: Seq<EntryV>, id: EntryIdentifier) -> Seq<EntryV> {
    match hide_target(s, id) {
        None => s,
        Some(t) => s.map_values(
            |e: EntryV|
                if ident_of(e) == t {
                    with_hide_toggled(e)
                } else {
                    e
                },
        ),
    }
}

/// Identifiers of the records of category `t`, in store order.
pub open spec fn spec_ids_of_type(s: Seq<EntryV>, t: EntryType) -> Seq<EntryIdentifier>
    decreases s.len(),
{
    if s.len() == 0 {
        Seq::empty()
    } else {
        spec_ids_of_type(s.drop_last(), t)
            + if s.last().entry_type == t {
                seq![ident_of(s.last())]
            } else {
                Seq::empty()
            }
    }
}

/// Canonical map of identifier to live record; exposes lookup, in-place
/// mutation, removal and typed listing.  Keeps insertion order, which is
/// the order the page projector lists records in.
pub struct Entries {
    pub list: Vec<Entry>,
}

impl View for Entries {
    type V = Seq<EntryV>;

    open spec fn view(&self) -> Seq<EntryV> {
        self.list@.map_values(|e: Entry| e@)
    }
}

impl Entries {
    /// No two records share an identifier, and every record is well formed.
    pub open spec fn wf(self) -> bool {
        &&& forall|i: int, j: int|
            0 <= i < j < self@.len() ==> ident_of(self@[i]) != ident_of(self@[j])
        &&& forall|i: int| 0 <= i < self@.len() ==> (#[trigger] self@[i]).wf()
    }

    /// The record stored under `id`, as an abstract value.
    pub open spec fn spec_get(self, id: EntryIdentifier) -> Option<EntryV> {
        spec_find(self@, id)
    }

    pub open spec fn contains_id(self, id: EntryIdentifier) -> bool {
        exists|i: int| 0 <= i < self@.len() && ident_of(self@[i]) == id
    }

    /// The store as a map from identifier to record.
    pub open spec fn as_map(self) -> Map<EntryIdentifier, EntryV> {
        Map::new(
            |id: EntryIdentifier| self.spec_get(id) is Some,
            |id: EntryIdentifier| self.spec_get(id)->Some_0,
        )
    }

    pub fn new() -> (r: Entries)
        ensures
            r@ == Seq::<EntryV>::empty(),
            r.wf(),
    {
        Entries { list: Vec::new() }
    }

    pub fn len(&self) -> (r: usize)
        ensures
            r == self@.len(),
    {
        self.list.len()
    }

    /// Position of the record stored under `id`, scanning from the front.
    fn find_index(&self, id: EntryIdentifier) -> (r: Option<usize>)
        ensures
            match r {
                Some(i) => {
                    &&& i < self@.len()
                    &&& ident_of(self@[i as int]) == id
                    &&& forall|j: int| 0 <= j < i ==> ident_of(self@[j]) != id
                    &&& self.spec_get(id) == Some(self@[i as int])
                    &&& self.contains_id(id)
                },
                None => {
                    &&& forall|j: int| 0 <= j < self@.len() ==> ident_of(self@[j]) != id
                    &&& self.spec_get(id) is None
                    &&& !self.contains_id(id)
                },
            },
    {
        let mut i: usize = 0;
        while i < self.list.len()
            invariant
                i <= self@.len(),
                self@.len() == self.list@.len(),
                forall|j: int| 0 <= j < i ==> ident_of(self@[j]) != id,
            decreases self@.len() - i,
        {
            let e = &self.list[i];
            assert(self@[i as int] == e@);
            if e.entry_type == id.entry_type && e.index == id.index {
                proof {
                    lemma_find_present(self@, id, i as int);
                }
                return Some(i);
            }
            i = i + 1;
        }
        proof {
            lemma_find_absent(self@, id);
        }
        None
    }

    /// Lookup; absent identifiers answer `None`, never fail.
    pub fn get(&self, id: EntryIdentifier) -> (r: Option<&Entry>)
        ensures
            match r {
                Some(e) => self.spec_get(id) == Some(e@) && self.contains_id(id),
                None => self.spec_get(id) is None && !self.contains_id(id),
            },
    {
        match self.find_index(id) {
            Some(i) => {
                let e = &self.list[i];
                proof {
                    assert(self@[i as int] == e@);
                }
                Some(e)
            }
            None => None,
        }
    }

    /// Create the record on its first appearance, or replace it in place
    /// (same position, same identifier) when it is already known.
    pub fn insert_or_update(&mut self, entry: Entry)
        requires
            old(self).wf(),
            entry@.wf(),
        ensures
            final(self).wf(),
            final(self).spec_get(ident_of(entry@)) == Some(entry@),
            final(self).contains_id(ident_of(entry@)),
            forall|id2: EntryIdentifier|
                id2 != ident_of(entry@) ==> #[trigger] final(self).spec_get(id2) == old(
                    self,
                ).spec_get(id2),
            final(self).as_map() == old(self).as_map().insert(ident_of(entry@), entry@),
            final(self)@ == spec_upsert(old(self)@, entry@),
            old(self).contains_id(ident_of(entry@)) ==> final(self)@.len() == old(self)@.len(),
            !old(self).contains_id(ident_of(entry@)) ==> final(self)@ == old(self)@.push(entry@),
            forall|j: int|
                0 <= j < old(self)@.len() && ident_of(#[trigger] old(self)@[j]) != ident_of(entry@)
                    ==> final(self)@[j] == old(self)@[j],
            forall|j: int|
                0 <= j < old(self)@.len()
                    ==> ident_of(#[trigger] final(self)@[j]) == ident_of(old(self)@[j]),
    {
        let ghost old_map = self.as_map();
        let ghost eid = ident_of(entry@);
        match self.find_index(entry.identifier()) {
            Some(i) => {
                let _ = self.list.remove(i);
                self.list.insert(i, entry);
                proof {
                    assert(self@ =~= old(self)@.update(i as int, entry@));
                    lemma_upsert_at(old(self)@, entry@, i as int);
                    assert forall|id2: EntryIdentifier| id2 != eid implies #[trigger] self.spec_get(
                        id2,
                    ) == old(self).spec_get(id2) by {
                        lemma_find_update_other(old(self)@, i as int, entry@, id2);
                    }
                    lemma_find_at(self@, eid, i as int);
                }
            }
            None => {
                self.list.push(entry);
                proof {
                    assert(self@ =~= old(self)@.push(entry@));
                    lemma_upsert_absent(old(self)@, entry@);
                    assert forall|id2: EntryIdentifier| id2 != eid implies #[trigger] self.spec_get(
                        id2,
                    ) == old(self).spec_get(id2) by {
                        lemma_find_push_other(old(self)@, entry@, id2);
                    }
                    lemma_find_at(self@, eid, self@.len() - 1);
                }
            }
        }
        proof {
            assert(self.as_map() =~= old(self).as_map().insert(eid, entry@));
        }
    }

    /// Forget the record stored under `id`; a no-op when it is absent.
    pub fn remove(&mut self, id: EntryIdentifier)
        requires
            old(self).wf(),
        ensures
            final(self).wf(),
            final(self).spec_get(id) is None,
            !final(self).contains_id(id),
            forall|id2: EntryIdentifier|
                id2 != id ==> #[trigger] final(self).spec_get(id2) == old(self).spec_get(id2),
            final(self).as_map() == old(self).as_map().remove(id),
            final(self)@ == spec_remove_id(old(self)@, id),
            !old(self).contains_id(id) ==> final(self)@ == old(self)@,
            old(self).contains_id(id) ==> final(self)@.len() == old(self)@.len() - 1,
    {
        let ghost eid = id;
        match self.find_index(id) {
            Some(i) => {
                let _ = self.list.remove(i);
                proof {
                    assert(self@ =~= old(self)@.remove(i as int));
                    lemma_remove_id_at(old(self)@, id, i as int);
                    assert forall|id2: EntryIdentifier| id2 != eid implies #[trigger] self.spec_get(
                        id2,
                    ) == old(self).spec_get(id2) by {
                        lemma_find_remove_other(old(self)@, i as int, id2);
                    }
                    assert forall|j: int| 0 <= j < self@.len() implies ident_of(
                        #[trigger] self@[j],
                    ) != id by {
                        if j < i {
                        } else {
                            assert(self@[j] == old(self)@[j + 1]);
                        }
                    }
                    lemma_find_absent(self@, id);
                    assert(self.as_map() =~= old(self).as_map().remove(id));
                }
            }
            None => {
                proof {
                    lemma_remove_id_absent(old(self)@, id);
                    assert(self.as_map() =~= old(self).as_map().remove(id));
                }
            }
        }
    }

    /// Flip the pending hide toggle recorded against `id`, as
    /// [`hide_target`] resolves it; a no-op on absent identifiers.
    pub fn toggle_hide(&mut self, id: EntryIdentifier)
        requires
            old(self).wf(),
        ensures
            final(self).wf(),
            final(self)@ == spec_toggle_hide(old(self)@, id),
    {
        let target: Option<EntryIdentifier> = match self.find_index(id) {
            Some(i) => {
                let e = &self.list[i];
                assert(self@[i as int] == e@);
                match e.entry_type.parent_type() {
                    Some(pt) => match e.parent {
                        Some(pi) => Some(EntryIdentifier { entry_type: pt, index: pi }),
                        None => None,
                    },
                    None => Some(id),
                }
            }
            None => None,
        };
        proof {
            assert(hide_target(old(self)@, id) == target);
        }
        match target {
            Some(t) => {
                match self.find_index(t) {
                    Some(k) => {
                        let e = self.list.remove(k);
                        let flipped = Entry { hide_requested: !e.hide_requested, ..e };
                        self.list.insert(k, flipped);
                        proof {
                            assert(flipped@ == with_hide_toggled(old(self)@[k as int]));
                            assert(self@ =~= old(self)@.update(
                                k as int,
                                with_hide_toggled(old(self)@[k as int]),
                            ));
                            assert forall|j: int| 0 <= j < old(self)@.len() implies self@[j]
                                == if ident_of(old(self)@[j]) == t {
                                with_hide_toggled(old(self)@[j])
                            } else {
                                old(self)@[j]
                            } by {
                                if j != k {
                                    assert(ident_of(old(self)@[j]) != t);
                                }
                            }
                            assert(self@ =~= spec_toggle_hide(old(self)@, id));
                        }
                    }
                    None => {
                        proof {
                            assert forall|j: int| 0 <= j < self@.len() implies self@[j]
                                == if ident_of(self@[j]) == t {
                                with_hide_toggled(self@[j])
                            } else {
                                self@[j]
                            } by {
                                assert(ident_of(self@[j]) != t);
                            }
                            assert(self@ =~= spec_toggle_hide(old(self)@, id));
                        }
                    }
                }
            }
            None => {}
        }
    }

    /// Record a fresh peak level for `id`; a no-op on absent identifiers
    /// and on cards.
    pub fn set_peak(&mut self, id: EntryIdentifier, peak: u32)
        requires
            old(self).wf(),
        ensures
            final(self).wf(),
            final(self)@ == spec_set_peak(old(self)@, id, peak),
    {
        match self.find_index(id) {
            Some(i) => {
                let e = self.list.remove(i);
                let Entry { entry_type, index, name, hidden, parent, is_selected, hide_requested, kind } = e;
                let kind2 = match kind {
                    EntryKind::Play(p) => EntryKind::Play(PlayEntry { peak, ..p }),
                    k => k,
                };
                let updated = Entry {
                    entry_type,
                    index,
                    name,
                    hidden,
                    parent,
                    is_selected,
                    hide_requested,
                    kind: kind2,
                };
                self.list.insert(i, updated);
                proof {
                    assert(updated@ =~= with_peak(old(self)@[i as int], peak));
                    assert(self@ =~= old(self)@.update(
                        i as int,
                        with_peak(old(self)@[i as int], peak),
                    ));
                    assert forall|j: int| 0 <= j < old(self)@.len() implies self@[j]
                        == if ident_of(old(self)@[j]) == id {
                        with_peak(old(self)@[j], peak)
                    } else {
                        old(self)@[j]
                    } by {
                        if j != i {
                            assert(ident_of(old(self)@[j]) != id);
                        }
                    }
                    assert(self@ =~= spec_set_peak(old(self)@, id, peak));
                }
            }
            None => {
                proof {
                    assert forall|j: int| 0 <= j < self@.len() implies self@[j] == if ident_of(
                        self@[j],
                    ) == id {
                        with_peak(self@[j], peak)
                    } else {
                        self@[j]
                    } by {
                        assert(ident_of(self@[j]) != id);
                    }
                    assert(self@ =~= spec_set_peak(old(self)@, id, peak));
                }
            }
        }
    }

    /// Overwrite the aggregated hide status of the record at position `i`.
    pub fn set_hidden_at(&mut self, i: usize, h: HiddenStatus)
        requires
            i < old(self)@.len(),
        ensures
            final(self)@ == old(self)@.update(i as int, with_hidden(old(self)@[i as int], h)),
            old(self).wf() ==> final(self).wf(),
    {
        let e = self.list.remove(i);
        let updated = Entry { hidden: h, ..e };
        self.list.insert(i, updated);
        proof {
            assert(updated@ == with_hidden(old(self)@[i as int], h));
            assert(self@ =~= old(self)@.update(i as int, with_hidden(old(self)@[i as int], h)));
        }
    }

    /// Identifiers of the records of category `t`, in store order.
    pub fn iter_type(&self, t: EntryType) -> (r: Vec<EntryIdentifier>)
        ensures
            r@ == spec_ids_of_type(self@, t),
    {
        let mut r: Vec<EntryIdentifier> = Vec::new();
        let mut i: usize = 0;
        while i < self.list.len()
            invariant
                i <= self@.len(),
                self@.len() == self.list@.len(),
                r@ == spec_ids_of_type(self@.take(i as int), t),
            decreases self@.len() - i,
        {
            let e = &self.list[i];
            assert(self@[i as int] == e@);
            assert(self@.take(i + 1).drop_last() == self@.take(i as int));
            assert(self@.take(i + 1).last() == self@[i as int]);
            if e.entry_type == t {
                r.push(e.identifier());
                assert(r@ =~= spec_ids_of_type(self@.take(i + 1), t));
            } else {
                assert(r@ =~= spec_ids_of_type(self@.take(i + 1), t));
            }
            i = i + 1;
        }
        proof {
            assert(self@.take(self@.len() as int) == self@);
        }
        r
    }
}

/// One mutation of the store, as the backend reports them: a record
/// created or changed, or a record removed.
pub enum StoreEvent {
    Update(EntryV),
    Remove(EntryIdentifier),
}

/// What one store event does to the store's map of records.  This is the
/// abstract counterpart of [`Entries::insert_or_update`] and
/// [`Entries::remove`], whose contracts promise exactly these map updates.
pub open spec fn apply_store_event(
    m: Map<EntryIdentifier, EntryV>,
    ev: StoreEvent,
) -> Map<EntryIdentifier, EntryV> {
    match ev {
        StoreEvent::Update(e) => m.insert(ident_of(e), e),
        StoreEvent::Remove(id) => m.remove(id),
    }
}

/// The store's map of records after a whole sequence of events.
pub open spec fn apply_store_events(
    m: Map<EntryIdentifier, EntryV>,
    evs: Seq<StoreEvent>,
) -> Map<EntryIdentifier, EntryV>
    decreases evs.len(),
{
    if evs.len() == 0 {
        m
    } else {
        apply_store_event(apply_store_events(m, evs.drop_last()), evs.last())
    }
}

/// The last thing `evs` does to `id`: `None` when no event touches it,
/// `Some(Some(e))` when the last touch writes `e`, `Some(None)` when the
/// last touch removes it.
pub open spec fn last_write(evs: Seq<StoreEvent>, id: EntryIdentifier) -> Option<Option<EntryV>>
    decreases evs.len(),
{
    if evs.len() == 0 {
        None
    } else {
        match evs.last() {
            StoreEvent::Update(e) => if ident_of(e) == id {
                Some(Some(e))
            } else {
                last_write(evs.drop_last(), id)
            },
            StoreEvent::Remove(r) => if r == id {
                Some(None)
            } else {
                last_write(evs.drop_last(), id)
            },
        }
    }
}

/// Uniqueness of writes: after any sequence of create, update and remove
/// events, the store answers for each identifier exactly the last
/// non-removed write against it, absence when the last event against it
/// was a removal, and its prior record when no event touched it.
pub proof fn lemma_store_last_write(
    m: Map<EntryIdentifier, EntryV>,
    evs: Seq<StoreEvent>,
    id: EntryIdentifier,
)
    ensures
        match last_write(evs, id) {
            Some(w) => match w {
                Some(e) => apply_store_events(m, evs).contains_key(id) && apply_store_events(
                    m,
                    evs,
                )[id] == e,
                None => !apply_store_events(m, evs).contains_key(id),
            },
            None => {
                &&& apply_store_events(m, evs).contains_key(id) == m.contains_key(id)
                &&& m.contains_key(id) ==> apply_store_events(m, evs)[id] == m[id]
            },
        },
    decreases evs.len(),
{
    if evs.len() > 0 {
        lemma_store_last_write(m, evs.drop_last(), id);
    }
}

/// In a store without duplicate identifiers, the record at a matching
/// index is the one `spec_find` answers.
pub proof fn lemma_find_at(s: Seq<EntryV>, id: EntryIdentifier, i: int)
    requires
        forall|x: int, y: int| 0 <= x < y < s.len() ==> ident_of(s[x]) != ident_of(s[y]),
        0 <= i < s.len(),
        ident_of(s[i]) == id,
    ensures
        spec_find(s, id) == Some(s[i]),
{
    assert(forall|j: int| 0 <= j < i ==> ident_of(s[j]) != id);
    lemma_find_present(s, id, i);
}

/// Replacing the record at `i` leaves every other identifier's lookup
/// unchanged.
proof fn lemma_find_update_other(s: Seq<EntryV>, i: int, e: EntryV, id: EntryIdentifier)
    requires
        forall|x: int, y: int| 0 <= x < y < s.len() ==> ident_of(s[x]) != ident_of(s[y]),
        0 <= i < s.len(),
        ident_of(s[i]) == ident_of(e),
        id != ident_of(e),
    ensures
        spec_find(s.update(i, e), id) == spec_find(s, id),
{
    let s2 = s.update(i, e);
    if exists|k: int| 0 <= k < s.len() && ident_of(s[k]) == id {
        let k = choose|k: int| 0 <= k < s.len() && ident_of(s[k]) == id;
        assert(forall|j: int| 0 <= j < k ==> ident_of(s[j]) != id);
        lemma_find_present(s, id, k);
        assert(forall|j: int| 0 <= j < k ==> ident_of(s2[j]) != id);
        lemma_find_present(s2, id, k);
    } else {
        assert(forall|j: int| 0 <= j < s.len() ==> ident_of(s[j]) != id);
        lemma_find_absent(s, id);
        assert(forall|j: int| 0 <= j < s2.len() ==> ident_of(s2[j]) != id);
        lemma_find_absent(s2, id);
    }
}

/// Appending a record with a fresh identifier leaves every other
/// identifier's lookup unchanged.
proof fn lemma_find_push_other(s: Seq<EntryV>, e: EntryV, id: EntryIdentifier)
    requires
        forall|x: int, y: int| 0 <= x < y < s.len() ==> ident_of(s[x]) != ident_of(s[y]),
        id != ident_of(e),
    ensures
        spec_find(s.push(e), id) == spec_find(s, id),
{
    let s2 = s.push(e);
    if exists|k: int| 0 <= k < s.len() && ident_of(s[k]) == id {
        let k = choose|k: int| 0 <= k < s.len() && ident_of(s[k]) == id;
        assert(forall|j: int| 0 <= j < k ==> ident_of(s[j]) != id);
        lemma_find_present(s, id, k);
        assert(forall|j: int| 0 <= j < k ==> ident_of(s2[j]) != id);
        lemma_find_present(s2, id, k);
    } else {
        assert(forall|j: int| 0 <= j < s.len() ==> ident_of(s[j]) != id);
        lemma_find_absent(s, id);
        assert(forall|j: int| 0 <= j < s2.len() ==> ident_of(s2[j]) != id);
        lemma_find_absent(s2, id);
    }
}

/// Deleting the record at `i` leaves every other identifier's lookup
/// unchanged.
proof fn lemma_find_remove_other(s: Seq<EntryV>, i: int, id: EntryIdentifier)
    requires
        forall|x: int, y: int| 0 <= x < y < s.len() ==> ident_of(s[x]) != ident_of(s[y]),
        0 <= i < s.len(),
        id != ident_of(s[i]),
    ensures
        spec_find(s.remove(i), id) == spec_find(s, id),
{
    let s2 = s.remove(i);
    if exists|k: int| 0 <= k < s.len() && ident_of(s[k]) == id {
        let k = choose|k: int| 0 <= k < s.len() && ident_of(s[k]) == id;
        assert(forall|j: int| 0 <= j < k ==> ident_of(s[j]) != id);
        lemma_find_present(s, id, k);
        if k < i {
            assert(forall|j: int| 0 <= j < k ==> s2[j] == s[j]);
            lemma_find_present(s2, id, k);
        } else {
            assert(s2[k - 1] == s[k]);
            assert(forall|j: int| 0 <= j < k - 1 ==> ident_of(s2[j]) != id);
            lemma_find_present(s2, id, k - 1);
        }
    } else {
        assert(forall|j: int| 0 <= j < s.len() ==> ident_of(s[j]) != id);
        lemma_find_absent(s, id);
        assert forall|j: int| 0 <= j < s2.len() implies ident_of(s2[j]) != id by {
            if j < i {
            } else {
                assert(s2[j] == s[j + 1]);
            }
        }
        lemma_find_absent(s2, id);
    }
}

} // verus!
