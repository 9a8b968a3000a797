//! Where the pill stands: the positions kept for each monitor, and which of them to go back to.

use vstd::prelude::*;
use vstd::string::*;
use crate::text::{decimal, decimal_is_digits, decimal_of, decimals_are_distinct, same};

verus! {

/// A double-precision number, carried by its IEEE 754 bit pattern.
#[derive(Clone, Copy, PartialEq, Eq, Structural)]
pub struct Float64 {
    pub bits: u64,
}

/// A pill position on a monitor: logical coordinates from the monitor's origin.
#[derive(Clone, Copy, PartialEq, Eq, Structural)]
pub struct PillPosition {
    pub x: Float64,
    pub y: Float64,
}

/// The position kept for one monitor.
pub struct PillEntry {
    /// The monitor's fingerprint.
    pub fingerprint: String,
    pub position: PillPosition,
}

/// The positions kept, one at most for each fingerprint.
pub struct PillPositions {
    entries: Vec<PillEntry>,
}

/// No fingerprint occurs twice.
pub open spec fn distinct(entries: Seq<PillEntry>) -> bool {
    forall|i: int, j: int|
        0 <= i < j < entries.len() ==> #[trigger] entries[i].fingerprint@
            != #[trigger] entries[j].fingerprint@
}

/// What a list of entries maps fingerprints to.
pub open spec fn entries_map(entries: Seq<PillEntry>) -> Map<Seq<char>, PillPosition>
    decreases entries.len(),
{
    if entries.len() == 0 {
        Map::empty()
    } else {
        entries_map(entries.drop_last()).insert(
            entries.last().fingerprint@,
            entries.last().position,
        )
    }
}

/// Where a fingerprint stands in the list, the list says what it maps to.
proof fn entries_map_at(entries: Seq<PillEntry>, i: int)
    requires
        distinct(entries),
        0 <= i < entries.len(),
    ensures
        entries_map(entries).contains_key(entries[i].fingerprint@),
        entries_map(entries)[entries[i].fingerprint@] == entries[i].position,
    decreases entries.len(),
{
    let front = entries.drop_last();
    if i < entries.len() - 1 {
        assert forall|a: int, b: int| 0 <= a < b < front.len() implies #[trigger] front[a].fingerprint@
            != #[trigger] front[b].fingerprint@ by {
            assert(entries[a].fingerprint@ != entries[b].fingerprint@);
        }
        entries_map_at(front, i);
        assert(front[i] == entries[i]);
        assert(entries[i].fingerprint@ != entries[entries.len() - 1].fingerprint@);
    }
}

/// A fingerprint that stands nowhere in the list is mapped to nothing.
proof fn entries_map_without(entries: Seq<PillEntry>, fingerprint: Seq<char>)
    requires
        forall|i: int|
            0 <= i < entries.len() ==> #[trigger] entries[i].fingerprint@ != fingerprint,
    ensures
        !entries_map(entries).contains_key(fingerprint),
    decreases entries.len(),
{
    if entries.len() > 0 {
        let front = entries.drop_last();
        assert forall|i: int| 0 <= i < front.len() implies #[trigger] front[i].fingerprint@
            != fingerprint by {
            assert(front[i] == entries[i]);
        }
        entries_map_without(front, fingerprint);
        assert(entries.last() == entries[entries.len() - 1]);
    }
}

/// To change the position of one entry is to insert it.
proof fn entries_map_update(entries: Seq<PillEntry>, i: int, entry: PillEntry)
    requires
        distinct(entries),
        0 <= i < entries.len(),
        entry.fingerprint@ == entries[i].fingerprint@,
    ensures
        distinct(entries.update(i, entry)),
        entries_map(entries.update(i, entry)) == entries_map(entries).insert(
            entry.fingerprint@,
            entry.position,
        ),
    decreases entries.len(),
{
    let changed = entries.update(i, entry);
    assert forall|a: int, b: int| 0 <= a < b < changed.len() implies #[trigger] changed[a].fingerprint@
        != #[trigger] changed[b].fingerprint@ by {
        assert(entries[a].fingerprint@ != entries[b].fingerprint@);
    }
    let front = entries.drop_last();
    let last = entries.last();
    if i == entries.len() - 1 {
        assert(changed.drop_last() == front);
        assert(entries_map(changed) =~= entries_map(entries).insert(
            entry.fingerprint@,
            entry.position,
        ));
    } else {
        assert(changed.drop_last() == front.update(i, entry));
        assert forall|a: int, b: int| 0 <= a < b < front.len() implies #[trigger] front[a].fingerprint@
            != #[trigger] front[b].fingerprint@ by {
            assert(entries[a].fingerprint@ != entries[b].fingerprint@);
        }
        entries_map_update(front, i, entry);
        assert(entries[i].fingerprint@ != entries[entries.len() - 1].fingerprint@);
        assert(entries_map(changed) =~= entries_map(entries).insert(
            entry.fingerprint@,
            entry.position,
        ));
    }
}

impl View for PillPositions {
    type V = Map<Seq<char>, PillPosition>;

    closed spec fn view(&self) -> Map<Seq<char>, PillPosition> {
        entries_map(self.entries@)
    }
}

impl PillPositions {
    #[verifier::type_invariant]
    spec fn valid(self) -> bool {
        distinct(self.entries@)
    }

    /// No position is kept.
    pub fn new() -> (kept: Self)
        ensures
            kept@ == Map::<Seq<char>, PillPosition>::empty(),
    {
        PillPositions { entries: Vec::new() }
    }

    /// Whether no position is kept.
    pub fn is_empty(&self) -> (empty: bool)
        ensures
            empty == (self@ == Map::<Seq<char>, PillPosition>::empty()),
    {
        proof {
            use_type_invariant(self);
            if self.entries@.len() > 0 {
                entries_map_at(self.entries@, 0);
                assert(self@.contains_key(self.entries@[0].fingerprint@));
            }
        }
        self.entries.len() == 0
    }

    /// The position kept for a fingerprint.
    pub fn get(&self, fingerprint: &str) -> (position: Option<PillPosition>)
        ensures
            position == if self@.contains_key(fingerprint@) {
                Some(self@[fingerprint@])
            } else {
                None
            },
    {
        proof {
            use_type_invariant(self);
        }
        let mut i: usize = 0;
        while i < self.entries.len()
            invariant
                i <= self.entries@.len(),
                distinct(self.entries@),
                forall|j: int|
                    0 <= j < i ==> #[trigger] self.entries@[j].fingerprint@ != fingerprint@,
            decreases self.entries@.len() - i,
        {
            if same(self.entries[i].fingerprint.as_str(), fingerprint) {
                proof {
                    entries_map_at(self.entries@, i as int);
                }
                return Some(self.entries[i].position);
            }
            i = i + 1;
        }
        proof {
            entries_map_without(self.entries@, fingerprint@);
        }
        None
    }

    /// Keeps `position` for `fingerprint`, in place of what was kept for it.
    pub fn insert(&mut self, fingerprint: String, position: PillPosition)
        ensures
            final(self)@ == old(self)@.insert(fingerprint@, position),
    {
        proof {
            use_type_invariant(&*self);
        }
        let mut entries: Vec<PillEntry> = Vec::new();
        std::mem::swap(&mut entries, &mut self.entries);
        let ghost before = entries@;
        let mut i: usize = 0;
        while i < entries.len()
            invariant
                i <= entries@.len(),
                entries@ == before,
                distinct(before),
                entries_map(before) == old(self)@,
                forall|j: int|
                    0 <= j < i ==> #[trigger] entries@[j].fingerprint@ != fingerprint@,
            decreases entries@.len() - i,
        {
            if same(entries[i].fingerprint.as_str(), fingerprint.as_str()) {
                let entry = PillEntry { fingerprint, position };
                proof {
                    entries_map_update(before, i as int, entry);
                }
                entries.set(i, entry);
                self.entries = entries;
                return;
            }
            i = i + 1;
        }
        let entry = PillEntry { fingerprint, position };
        entries.push(entry);
        proof {
            assert(entries@.drop_last() == before);
        }
        self.entries = entries;
    }

    /// The entries, one for each fingerprint.
    pub fn entries(&self) -> (list: &Vec<PillEntry>)
        ensures
            distinct(list@),
            entries_map(list@) == self@,
    {
        proof {
            use_type_invariant(self);
        }
        &self.entries
    }
}

impl Clone for PillPositions {
    fn clone(&self) -> (copy: Self)
        ensures
            copy@ == self@,
    {
        let mut copy = PillPositions::new();
        let mut i: usize = 0;
        while i < self.entries.len()
            invariant
                i <= self.entries@.len(),
                copy@ == entries_map(self.entries@.take(i as int)),
            decreases self.entries@.len() - i,
        {
            let ghost shown = self.entries@.take(i + 1);
            assert(shown.drop_last() == self.entries@.take(i as int));
            copy.insert(self.entries[i].fingerprint.clone(), self.entries[i].position);
            i = i + 1;
        }
        assert(self.entries@.take(self.entries@.len() as int) == self.entries@);
        copy
    }
}

/// What tells one monitor from another.
pub struct MonitorInfo {
    pub name: Option<String>,
    /// In physical pixels.
    pub width: u32,
    /// In physical pixels.
    pub height: u32,
}

impl MonitorInfo {
    /// Name, width and height in one text.
    pub open spec fn fingerprint(self) -> Seq<char> {
        (match self.name {
            Some(name) => name@,
            None => "unknown"@,
        }) + "_"@ + decimal_of(self.width as nat) + "x"@ + decimal_of(self.height as nat)
    }
}

/// The fingerprint of a monitor: its name, its width and its height.
pub fn monitor_fingerprint(monitor: &MonitorInfo) -> (fingerprint: String)
    ensures
        fingerprint@ == monitor.fingerprint(),
{
    let name = match &monitor.name {
        Some(name) => name.clone(),
        None => "unknown".to_string(),
    };
    name.concat("_").concat(decimal(monitor.width as u64).as_str()).concat("x").concat(
        decimal(monitor.height as u64).as_str(),
    )
}

/// One of the attached monitors.
#[derive(Clone, Copy, PartialEq, Eq, Structural)]
pub enum Place {
    /// The primary one.
    Primary,
    /// One of the list, by its place there.
    Listed(usize),
}

/// The fingerprints of the attached monitors.
pub struct Attached {
    pub primary: Option<Seq<char>>,
    pub listed: Seq<Seq<char>>,
}

/// The fingerprints of the primary monitor and of the listed ones.
pub open spec fn attached(primary: Option<MonitorInfo>, listed: Seq<MonitorInfo>) -> Attached {
    Attached {
        primary: match primary {
            Some(monitor) => Some(monitor.fingerprint()),
            None => None,
        },
        listed: Seq::new(listed.len(), |i: int| listed[i].fingerprint()),
    }
}

impl Attached {
    /// Whether there is such a monitor.
    pub open spec fn has(self, place: Place) -> bool {
        match place {
            Place::Primary => self.primary is Some,
            Place::Listed(i) => i < self.listed.len(),
        }
    }

    /// The fingerprint of a monitor.
    pub open spec fn at(self, place: Place) -> Seq<char> {
        match place {
            Place::Primary => self.primary->0,
            Place::Listed(i) => self.listed[i as int],
        }
    }

    /// Whether one of `places` has the fingerprint `fingerprint`.
    pub open spec fn among(self, places: Seq<Place>, fingerprint: Seq<char>) -> bool {
        exists|k: int| 0 <= k < places.len() && #[trigger] self.at(places[k]) == fingerprint
    }

    /// The monitors in the order in which a position is looked for: the primary one first, then
    /// the first `n` of the list, without those whose fingerprint came before.
    pub open spec fn order(self, n: nat) -> Seq<Place>
        decreases n,
    {
        if n == 0 {
            if self.primary is Some {
                seq![Place::Primary]
            } else {
                Seq::empty()
            }
        } else {
            let earlier = self.order((n - 1) as nat);
            if self.among(earlier, self.listed[n - 1]) {
                earlier
            } else {
                earlier.push(Place::Listed((n - 1) as usize))
            }
        }
    }

    /// The order in which a position is looked for on all monitors.
    pub open spec fn search_order(self) -> Seq<Place> {
        self.order(self.listed.len())
    }

    /// Those of `places` for which a position is kept, with that position.
    pub open spec fn kept(
        self,
        places: Seq<Place>,
        positions: Map<Seq<char>, PillPosition>,
    ) -> Seq<PillCandidate>
        decreases places.len(),
    {
        if places.len() == 0 {
            Seq::empty()
        } else {
            let earlier = self.kept(places.drop_last(), positions);
            let place = places.last();
            if positions.contains_key(self.at(place)) {
                earlier.push(PillCandidate { place, position: positions[self.at(place)] })
            } else {
                earlier
            }
        }
    }
}

/// A position that the pill may go back to.
#[derive(Clone, Copy)]
pub struct PillCandidate {
    /// The monitor.
    pub place: Place,
    /// The position on it.
    pub position: PillPosition,
}

/// The monitors in the order in which a position is looked for, each with its fingerprint.
fn search_order(primary: &Option<MonitorInfo>, listed: &Vec<MonitorInfo>) -> (order: (
    Vec<Place>,
    Vec<String>,
))
    ensures
        order.0@ == attached(*primary, listed@).search_order(),
        order.1@.len() == order.0@.len(),
        forall|k: int|
            0 <= k < order.0@.len() ==> #[trigger] order.1@[k]@ == attached(*primary, listed@).at(
                order.0@[k],
            ),
{
    let ghost all = attached(*primary, listed@);
    let mut places: Vec<Place> = Vec::new();
    let mut seen: Vec<String> = Vec::new();
    if let Some(monitor) = primary {
        places.push(Place::Primary);
        seen.push(monitor_fingerprint(monitor));
    }
    assert(places@ =~= all.order(0));
    let mut i: usize = 0;
    while i < listed.len()
        invariant
            i <= listed@.len(),
            all == attached(*primary, listed@),
            places@ == all.order(i as nat),
            seen@.len() == places@.len(),
            forall|k: int| 0 <= k < places@.len() ==> #[trigger] seen@[k]@ == all.at(places@[k]),
        decreases listed@.len() - i,
    {
        let fingerprint = monitor_fingerprint(&listed[i]);
        assert(fingerprint@ == all.listed[i as int]);
        let mut known = false;
        let mut k: usize = 0;
        while k < seen.len()
            invariant
                k <= seen@.len(),
                seen@.len() == places@.len(),
                forall|j: int|
                    0 <= j < places@.len() ==> #[trigger] seen@[j]@ == all.at(places@[j]),
                known <==> exists|j: int|
                    0 <= j < k && #[trigger] all.at(places@[j]) == fingerprint@,
            decreases seen@.len() - k,
        {
            assert(seen@[k as int]@ == all.at(places@[k as int]));
            if same(seen[k].as_str(), fingerprint.as_str()) {
                known = true;
            }
            k = k + 1;
        }
        assert(known == all.among(places@, fingerprint@));
        if !known {
            places.push(Place::Listed(i));
            seen.push(fingerprint);
        }
        i = i + 1;
        assert(places@ == all.order(i as nat));
    }
    (places, seen)
}

/// The kept positions to go back to, in the order in which they are tried: every attached monitor
/// is looked at, the primary one first.
pub fn pill_candidates(
    positions: &PillPositions,
    primary: &Option<MonitorInfo>,
    listed: &Vec<MonitorInfo>,
) -> (candidates: Vec<PillCandidate>)
    ensures
        candidates@ == attached(*primary, listed@).kept(
            attached(*primary, listed@).search_order(),
            positions@,
        ),
{
    let ghost all = attached(*primary, listed@);
    let (places, fingerprints) = search_order(primary, listed);
    let mut candidates: Vec<PillCandidate> = Vec::new();
    let mut k: usize = 0;
    while k < places.len()
        invariant
            k <= places@.len(),
            fingerprints@.len() == places@.len(),
            forall|j: int|
                0 <= j < places@.len() ==> #[trigger] fingerprints@[j]@ == all.at(places@[j]),
            candidates@ == all.kept(places@.take(k as int), positions@),
        decreases places@.len() - k,
    {
        let ghost shown = places@.take(k + 1);
        assert(shown.drop_last() == places@.take(k as int));
        assert(fingerprints@[k as int]@ == all.at(places@[k as int]));
        if let Some(position) = positions.get(fingerprints[k].as_str()) {
            candidates.push(PillCandidate { place: places[k], position });
        }
        k = k + 1;
    }
    assert(places@.take(places@.len() as int) == places@);
    candidates
}

/// Whether `chosen` is the first candidate that lies on its monitor, as `on_screen` says of each.
pub open spec fn is_first_on_screen(chosen: Option<usize>, on_screen: Seq<bool>) -> bool {
    match chosen {
        Some(k) => k < on_screen.len() && on_screen[k as int] && forall|j: int|
            0 <= j < k ==> !on_screen[j],
        None => forall|j: int| 0 <= j < on_screen.len() ==> !on_screen[j],
    }
}

/// The candidate to go back to: the first that lies on its monitor, as `on_screen` says of each.
pub fn saved_pill_position(on_screen: &Vec<bool>) -> (chosen: Option<usize>)
    ensures
        is_first_on_screen(chosen, on_screen@),
{
    let mut k: usize = 0;
    while k < on_screen.len()
        invariant
            k <= on_screen@.len(),
            forall|j: int| 0 <= j < k ==> !on_screen@[j],
        decreases on_screen@.len() - k,
    {
        if on_screen[k] {
            return Some(k);
        }
        k = k + 1;
    }
    None
}

/// The monitor that a new position is kept for: the first of the list that the pill's centre is
/// on, as `under_centre` says of each; failing that the primary one; failing that the first.
pub open spec fn anchor_of(under_centre: Seq<bool>, has_primary: bool) -> Option<Place> {
    if under_centre.contains(true) {
        Some(Place::Listed(under_centre.index_of_first(true)->0 as usize))
    } else if has_primary {
        Some(Place::Primary)
    } else if under_centre.len() > 0 {
        Some(Place::Listed(0))
    } else {
        None
    }
}

/// The monitor that a new position is kept for: the first of the list that the pill's centre is
/// on, as `under_centre` says of each; failing that the primary one; failing that the first.
pub fn anchor_monitor(under_centre: &Vec<bool>, has_primary: bool) -> (anchor: Option<Place>)
    ensures
        anchor == anchor_of(under_centre@, has_primary),
{
    broadcast use vstd::seq_lib::group_seq_properties;
    let mut i: usize = 0;
    while i < under_centre.len()
        invariant
            i <= under_centre@.len(),
            forall|j: int| 0 <= j < i ==> !under_centre@[j],
        decreases under_centre@.len() - i,
    {
        if under_centre[i] {
            proof {
                assert(under_centre@.contains(true));
                under_centre@.index_of_first_ensures(true);
                let first = under_centre@.index_of_first(true)->0;
                assert(under_centre@[first]);
                assert(first == i);
            }
            return Some(Place::Listed(i));
        }
        i = i + 1;
    }
    assert(!under_centre@.contains(true));
    if has_primary {
        Some(Place::Primary)
    } else if under_centre.len() > 0 {
        Some(Place::Listed(0))
    } else {
        None
    }
}

/// The search order names monitors that are there, no fingerprint twice, and leaves none out.
proof fn order_covers(all: Attached, n: nat)
    requires
        n <= all.listed.len() <= usize::MAX,
    ensures
        forall|k: int| 0 <= k < all.order(n).len() ==> all.has(#[trigger] all.order(n)[k]),
        all.primary is Some ==> all.order(n).len() > 0 && all.order(n)[0] == Place::Primary,
        all.primary is Some ==> all.among(all.order(n), all.primary->0),
        forall|i: int| 0 <= i < n ==> all.among(all.order(n), #[trigger] all.listed[i]),
        forall|j: int, k: int|
            0 <= j < k < all.order(n).len() ==> #[trigger] all.at(all.order(n)[j])
                != #[trigger] all.at(all.order(n)[k]),
    decreases n,
{
    let order = all.order(n);
    if n == 0 {
        if all.primary is Some {
            assert(all.at(order[0]) == all.primary->0);
        }
    } else {
        let earlier = all.order((n - 1) as nat);
        order_covers(all, (n - 1) as nat);
        assert forall|f: Seq<char>| all.among(earlier, f) implies all.among(order, f) by {
            let k = choose|k: int|
                0 <= k < earlier.len() && #[trigger] all.at(earlier[k]) == f;
            assert(order[k] == earlier[k]);
            assert(all.at(order[k]) == f);
        }
        if !all.among(earlier, all.listed[n - 1]) {
            let k = order.len() - 1;
            assert(order[k] == Place::Listed((n - 1) as usize));
            assert(all.at(order[k]) == all.listed[n - 1]);
            assert forall|a: int, b: int| 0 <= a < b < order.len() implies #[trigger] all.at(
                order[a],
            ) != #[trigger] all.at(order[b]) by {
                assert(order[a] == earlier[a]);
                if b < k {
                    assert(order[b] == earlier[b]);
                } else {
                    assert(all.at(earlier[a]) != all.listed[n - 1]);
                }
            }
        }
    }
}

/// A position kept for one of `places` is among the candidates.
proof fn kept_has(
    all: Attached,
    places: Seq<Place>,
    positions: Map<Seq<char>, PillPosition>,
    k: int,
)
    requires
        0 <= k < places.len(),
        positions.contains_key(all.at(places[k])),
    ensures
        all.kept(places, positions).contains(
            PillCandidate { place: places[k], position: positions[all.at(places[k])] },
        ),
    decreases places.len(),
{
    let wanted = PillCandidate { place: places[k], position: positions[all.at(places[k])] };
    let kept = all.kept(places, positions);
    let earlier = all.kept(places.drop_last(), positions);
    if k < places.len() - 1 {
        kept_has(all, places.drop_last(), positions, k);
        let i = choose|i: int| 0 <= i < earlier.len() && earlier[i] == wanted;
        assert(kept[i] == wanted);
    } else {
        assert(kept[kept.len() - 1] == wanted);
    }
}

/// Every attached monitor is looked at, the primary one first, and none of one fingerprint twice.
pub proof fn every_monitor_is_searched(all: Attached, place: Place)
    requires
        all.listed.len() <= usize::MAX,
        all.has(place),
    ensures
        all.among(all.search_order(), all.at(place)),
        all.primary is Some ==> all.search_order()[0] == Place::Primary,
        forall|j: int, k: int|
            0 <= j < k < all.search_order().len() ==> #[trigger] all.at(all.search_order()[j])
                != #[trigger] all.at(all.search_order()[k]),
{
    order_covers(all, all.listed.len());
}

/// A position that was just kept is found again: the monitor that it is kept for is one that is
/// attached, and while the same monitors are, the position is among the candidates.
pub proof fn kept_position_is_found_again(
    all: Attached,
    under_centre: Seq<bool>,
    positions: Map<Seq<char>, PillPosition>,
    position: PillPosition,
)
    requires
        under_centre.len() == all.listed.len() <= usize::MAX,
    ensures
        anchor_of(under_centre, all.primary is Some) is None <==> all.primary is None
            && all.listed.len() == 0,
        anchor_of(under_centre, all.primary is Some) matches Some(place) ==> {
            &&& all.has(place)
            &&& exists|found: PillCandidate|
                {
                    &&& #[trigger] all.kept(
                        all.search_order(),
                        positions.insert(all.at(place), position),
                    ).contains(found)
                    &&& all.at(found.place) == all.at(place)
                    &&& found.position == position
                }
        },
{
    if under_centre.contains(true) {
        under_centre.index_of_first_ensures(true);
    }
    if let Some(place) = anchor_of(under_centre, all.primary is Some) {
        let order = all.search_order();
        let kept = positions.insert(all.at(place), position);
        order_covers(all, all.listed.len());
        assert(all.among(order, all.at(place)));
        let k = choose|k: int| 0 <= k < order.len() && #[trigger] all.at(order[k]) == all.at(place);
        kept_has(all, order, kept, k);
        let found = PillCandidate { place: order[k], position };
        assert(all.kept(order, kept).contains(found));
    }
}

/// Where no monitor of `places` has the fingerprint that a position is kept for, there is no
/// candidate.
proof fn kept_of_none(
    all: Attached,
    places: Seq<Place>,
    fingerprint: Seq<char>,
    position: PillPosition,
)
    requires
        forall|j: int| 0 <= j < places.len() ==> #[trigger] all.at(places[j]) != fingerprint,
    ensures
        all.kept(
            places,
            Map::<Seq<char>, PillPosition>::empty().insert(fingerprint, position),
        ).len() == 0,
    decreases places.len(),
{
    if places.len() > 0 {
        let front = places.drop_last();
        assert forall|j: int| 0 <= j < front.len() implies #[trigger] all.at(front[j])
            != fingerprint by {
            assert(front[j] == places[j]);
        }
        kept_of_none(all, front, fingerprint, position);
        assert(all.at(places[places.len() - 1]) != fingerprint);
    }
}

/// Where just one monitor of `places` has the fingerprint that a position is kept for, that is the
/// one candidate.
proof fn kept_of_one(
    all: Attached,
    places: Seq<Place>,
    fingerprint: Seq<char>,
    position: PillPosition,
    k: int,
)
    requires
        0 <= k < places.len(),
        all.at(places[k]) == fingerprint,
        forall|j: int|
            0 <= j < places.len() && j != k ==> #[trigger] all.at(places[j]) != fingerprint,
    ensures
        all.kept(places, Map::<Seq<char>, PillPosition>::empty().insert(fingerprint, position))
            == seq![PillCandidate { place: places[k], position }],
    decreases places.len(),
{
    let front = places.drop_last();
    let last = places.len() - 1;
    if k == last {
        assert forall|j: int| 0 <= j < front.len() implies #[trigger] all.at(front[j])
            != fingerprint by {
            assert(front[j] == places[j]);
        }
        kept_of_none(all, front, fingerprint, position);
    } else {
        assert forall|j: int| 0 <= j < front.len() && j != k implies #[trigger] all.at(front[j])
            != fingerprint by {
            assert(front[j] == places[j]);
        }
        kept_of_one(all, front, fingerprint, position, k);
        assert(all.at(places[last]) != fingerprint);
    }
    assert(all.kept(places, Map::<Seq<char>, PillPosition>::empty().insert(fingerprint, position))
        =~= seq![PillCandidate { place: places[k], position }]);
}

/// The pill goes back to where it was put, on whichever monitor: a position that is the only one
/// kept is the only candidate while the same monitors are attached, on a monitor of the fingerprint
/// that it was kept for, and it is the one chosen if it lies on that monitor.
pub proof fn only_kept_position_is_restored(
    all: Attached,
    under_centre: Seq<bool>,
    position: PillPosition,
    chosen: Option<usize>,
)
    requires
        under_centre.len() == all.listed.len() <= usize::MAX,
        is_first_on_screen(chosen, seq![true]),
    ensures
        anchor_of(under_centre, all.primary is Some) matches Some(place) ==> {
            let candidates = all.kept(
                all.search_order(),
                Map::<Seq<char>, PillPosition>::empty().insert(all.at(place), position),
            );
            &&& candidates.len() == 1
            &&& all.has(candidates[0].place)
            &&& all.at(candidates[0].place) == all.at(place)
            &&& candidates[0].position == position
        },
        chosen == Some(0usize),
{
    if under_centre.contains(true) {
        under_centre.index_of_first_ensures(true);
    }
    assert(seq![true][0]);
    if let Some(place) = anchor_of(under_centre, all.primary is Some) {
        let order = all.search_order();
        order_covers(all, all.listed.len());
        assert(all.among(order, all.at(place)));
        let k = choose|k: int| 0 <= k < order.len() && #[trigger] all.at(order[k]) == all.at(place);
        assert forall|j: int| 0 <= j < order.len() && j != k implies #[trigger] all.at(order[j])
            != all.at(place) by {
            if j < k {
                assert(all.at(order[j]) != all.at(order[k]));
            } else {
                assert(all.at(order[k]) != all.at(order[j]));
            }
        }
        kept_of_one(all, order, all.at(place), position, k);
    }
}

/// Two monitors of the same name have the same fingerprint just where they are of the same size.
pub proof fn fingerprint_tells_sizes_apart(a: MonitorInfo, b: MonitorInfo)
    requires
        a.name == b.name,
    ensures
        a.fingerprint() == b.fingerprint() <==> a.width == b.width && a.height == b.height,
{
    reveal_strlit("x");
    let front = (match a.name {
        Some(name) => name@,
        None => "unknown"@,
    }) + "_"@;
    let aw = decimal_of(a.width as nat);
    let ah = decimal_of(a.height as nat);
    let bw = decimal_of(b.width as nat);
    let bh = decimal_of(b.height as nat);
    if a.fingerprint() == b.fingerprint() {
        let fa = a.fingerprint();
        let fb = b.fingerprint();
        let n = front.len() as int;
        assert(fa[n + aw.len()] == 'x');
        assert(fb[n + bw.len()] == 'x');
        if aw.len() < bw.len() {
            assert(fb[n + aw.len()] == bw[aw.len() as int]);
            decimal_is_digits(b.width as nat, aw.len() as int);
        }
        if bw.len() < aw.len() {
            assert(fa[n + bw.len()] == aw[bw.len() as int]);
            decimal_is_digits(a.width as nat, bw.len() as int);
        }
        assert(aw.len() == bw.len());
        assert(aw =~= fa.subrange(n, n + aw.len()));
        assert(bw =~= fb.subrange(n, n + bw.len()));
        assert(ah =~= fa.subrange(n + aw.len() + 1, fa.len() as int));
        assert(bh =~= fb.subrange(n + bw.len() + 1, fb.len() as int));
        if a.width != b.width {
            decimals_are_distinct(a.width as nat, b.width as nat);
        }
        if a.height != b.height {
            decimals_are_distinct(a.height as nat, b.height as nat);
        }
    }
}

/// Where a monitor stands in the search: the primary one first, then the list in its order.
pub open spec fn search_rank(place: Place) -> int {
    match place {
        Place::Primary => -1,
        Place::Listed(i) => i as int,
    }
}

/// The search order keeps the order of the list, and of each fingerprint it names the first monitor.
proof fn order_names_the_first(all: Attached, n: nat)
    requires
        n <= all.listed.len() <= usize::MAX,
    ensures
        forall|k: int|
            0 <= k < all.order(n).len() ==> match #[trigger] all.order(n)[k] {
                Place::Primary => all.primary is Some,
                Place::Listed(i) => {
                    &&& i < n
                    &&& all.primary is Some ==> all.primary->0 != all.listed[i as int]
                    &&& forall|j: int| 0 <= j < i ==> all.listed[j] != all.listed[i as int]
                },
            },
        forall|a: int, b: int|
            0 <= a < b < all.order(n).len() ==> search_rank(#[trigger] all.order(n)[a])
                < search_rank(#[trigger] all.order(n)[b]),
    decreases n,
{
    if n > 0 {
        let m = (n - 1) as nat;
        let earlier = all.order(m);
        let order = all.order(n);
        order_names_the_first(all, m);
        order_covers(all, m);
        if !all.among(earlier, all.listed[n - 1]) {
            assert(order == earlier.push(Place::Listed((n - 1) as usize)));
            assert forall|j: int| 0 <= j < n - 1 implies #[trigger] all.listed[j] != all.listed[n - 1] by {
                assert(all.among(earlier, all.listed[j]));
            }
            assert forall|k: int| 0 <= k < order.len() implies match #[trigger] order[k] {
                Place::Primary => all.primary is Some,
                Place::Listed(i) => {
                    &&& i < n
                    &&& all.primary is Some ==> all.primary->0 != all.listed[i as int]
                    &&& forall|j: int| 0 <= j < i ==> all.listed[j] != all.listed[i as int]
                },
            } by {
                if k < earlier.len() {
                    assert(order[k] == earlier[k]);
                }
            }
            assert forall|a: int, b: int| 0 <= a < b < order.len() implies search_rank(
                #[trigger] order[a],
            ) < search_rank(#[trigger] order[b]) by {
                assert(order[a] == earlier[a]);
                if b < earlier.len() {
                    assert(order[b] == earlier[b]);
                }
            }
        }
    }
}

/// The candidates are those of the places for which a position is kept, in the order of the places.
proof fn kept_is_in_order(
    all: Attached,
    places: Seq<Place>,
    positions: Map<Seq<char>, PillPosition>,
)
    requires
        forall|a: int, b: int|
            0 <= a < b < places.len() ==> search_rank(#[trigger] places[a]) < search_rank(
                #[trigger] places[b],
            ),
    ensures
        forall|k: int|
            #![trigger all.kept(places, positions)[k]]
            0 <= k < all.kept(places, positions).len() ==> {
                let c = all.kept(places, positions)[k];
                &&& places.contains(c.place)
                &&& positions.contains_key(all.at(c.place))
                &&& c.position == positions[all.at(c.place)]
            },
        forall|a: int, b: int|
            0 <= a < b < all.kept(places, positions).len() ==> search_rank(
                (#[trigger] all.kept(places, positions)[a]).place,
            ) < search_rank((#[trigger] all.kept(places, positions)[b]).place),
    decreases places.len(),
{
    if places.len() > 0 {
        let front = places.drop_last();
        let kept = all.kept(places, positions);
        let earlier = all.kept(front, positions);
        let last = places[places.len() - 1];
        assert forall|a: int, b: int| 0 <= a < b < front.len() implies search_rank(
            #[trigger] front[a],
        ) < search_rank(#[trigger] front[b]) by {
            assert(front[a] == places[a] && front[b] == places[b]);
        }
        kept_is_in_order(all, front, positions);
        assert forall|k: int| 0 <= k < earlier.len() implies places.contains(
            (#[trigger] earlier[k]).place,
        ) && search_rank(earlier[k].place) < search_rank(last) by {
            let j = choose|j: int| 0 <= j < front.len() && front[j] == earlier[k].place;
            assert(places[j] == earlier[k].place);
        }
        assert forall|k: int|
            #![trigger kept[k]]
            0 <= k < kept.len() implies {
            &&& places.contains(kept[k].place)
            &&& positions.contains_key(all.at(kept[k].place))
            &&& kept[k].position == positions[all.at(kept[k].place)]
        } by {
            if k < earlier.len() {
                assert(kept[k] == earlier[k]);
            }
        }
        assert forall|a: int, b: int| 0 <= a < b < kept.len() implies search_rank(
            (#[trigger] kept[a]).place,
        ) < search_rank((#[trigger] kept[b]).place) by {
            assert(kept[a] == earlier[a]);
            if b < earlier.len() {
                assert(kept[b] == earlier[b]);
            }
        }
    }
}

/// Every candidate is the position kept for the monitor that it names, which is attached and is the
/// first with its fingerprint. The primary monitor comes first and the others in the order of the
/// list, and no monitor for which a position is kept is passed over.
pub proof fn candidates_are_the_kept_positions(
    positions: PillPositions,
    primary: Option<MonitorInfo>,
    listed: Vec<MonitorInfo>,
    candidates: Vec<PillCandidate>,
)
    requires
        call_ensures(pill_candidates, (&positions, &primary, &listed), candidates),
        listed@.len() <= usize::MAX,
    ensures
        forall|k: int|
            #![trigger candidates@[k]]
            0 <= k < candidates@.len() ==> match candidates@[k].place {
                Place::Primary => {
                    &&& k == 0
                    &&& primary is Some
                    &&& positions@.contains_key(primary->0.fingerprint())
                    &&& candidates@[k].position == positions@[primary->0.fingerprint()]
                },
                Place::Listed(i) => {
                    let own = listed@[i as int].fingerprint();
                    &&& i < listed@.len()
                    &&& positions@.contains_key(own)
                    &&& candidates@[k].position == positions@[own]
                    &&& primary is Some ==> primary->0.fingerprint() != own
                    &&& forall|j: int|
                        0 <= j < i ==> #[trigger] listed@[j].fingerprint() != own
                },
            },
        forall|a: int, b: int|
            #![trigger candidates@[a], candidates@[b]]
            0 <= a < b < candidates@.len() ==> match (candidates@[a].place, candidates@[b].place) {
                (Place::Listed(i), Place::Listed(j)) => i < j,
                (_, place) => place is Listed,
            },
        primary is Some && positions@.contains_key(primary->0.fingerprint()) ==> candidates@.len() > 0
            && candidates@[0].place == Place::Primary,
        forall|i: int|
            0 <= i < listed@.len() && positions@.contains_key(
                #[trigger] listed@[i].fingerprint(),
            ) ==> exists|k: int|
                0 <= k < candidates@.len() && (#[trigger] candidates@[k]).position
                    == positions@[listed@[i].fingerprint()],
{
    let all = attached(primary, listed@);
    let order = all.search_order();
    let kept = candidates@;
    order_covers(all, all.listed.len());
    order_names_the_first(all, all.listed.len());
    kept_is_in_order(all, order, positions@);
    assert forall|k: int|
        #![trigger kept[k]]
        0 <= k < kept.len() implies match kept[k].place {
        Place::Primary => {
            &&& k == 0
            &&& primary is Some
            &&& positions@.contains_key(primary->0.fingerprint())
            &&& kept[k].position == positions@[primary->0.fingerprint()]
        },
        Place::Listed(i) => {
            let own = listed@[i as int].fingerprint();
            &&& i < listed@.len()
            &&& positions@.contains_key(own)
            &&& kept[k].position == positions@[own]
            &&& primary is Some ==> primary->0.fingerprint() != own
            &&& forall|j: int| 0 <= j < i ==> #[trigger] listed@[j].fingerprint() != own
        },
    } by {
        let at = choose|at: int| 0 <= at < order.len() && order[at] == kept[k].place;
        assert(all.has(order[at]));
        match kept[k].place {
            Place::Primary => {
                if k > 0 {
                    assert(search_rank(kept[0].place) < search_rank(kept[k].place));
                }
            },
            Place::Listed(i) => {
                assert forall|j: int| 0 <= j < i implies #[trigger] listed@[j].fingerprint()
                    != listed@[i as int].fingerprint() by {
                    assert(all.listed[j] != all.listed[i as int]);
                }
            },
        }
    }
    assert forall|a: int, b: int|
        #![trigger kept[a], kept[b]]
        0 <= a < b < kept.len() implies match (kept[a].place, kept[b].place) {
        (Place::Listed(i), Place::Listed(j)) => i < j,
        (_, place) => place is Listed,
    } by {
        assert(search_rank(kept[a].place) < search_rank(kept[b].place));
    }
    if primary is Some && positions@.contains_key(primary->0.fingerprint()) {
        assert(order[0] == Place::Primary);
        kept_has(all, order, positions@, 0);
        let wanted = PillCandidate {
            place: order[0],
            position: positions@[all.at(order[0])],
        };
        let k = choose|k: int| 0 <= k < kept.len() && kept[k] == wanted;
        assert(kept[k].place == Place::Primary);
    }
    assert forall|i: int|
        0 <= i < listed@.len() && positions@.contains_key(
            #[trigger] listed@[i].fingerprint(),
        ) implies exists|k: int|
        0 <= k < kept.len() && (#[trigger] kept[k]).position
            == positions@[listed@[i].fingerprint()] by {
        assert(all.among(order, all.listed[i]));
        let at = choose|at: int|
            0 <= at < order.len() && #[trigger] all.at(order[at]) == all.listed[i];
        kept_has(all, order, positions@, at);
        let wanted = PillCandidate { place: order[at], position: positions@[all.at(order[at])] };
        let k = choose|k: int| 0 <= k < kept.len() && kept[k] == wanted;
        assert(kept[k].position == positions@[listed@[i].fingerprint()]);
    }
}

/// The chosen candidate is the first that lies on its monitor, and one is chosen wherever one does.
pub proof fn first_candidate_on_screen_is_chosen(on_screen: Vec<bool>, chosen: Option<usize>)
    requires
        call_ensures(saved_pill_position, (&on_screen,), chosen),
    ensures
        match chosen {
            Some(k) => k < on_screen@.len() && on_screen@[k as int] && forall|j: int|
                0 <= j < k ==> !on_screen@[j],
            None => forall|j: int| 0 <= j < on_screen@.len() ==> !on_screen@[j],
        },
{
}

/// A position is kept for the first listed monitor that the pill's centre is on; where it is on none,
/// for the primary one; without a primary one, for the first.
pub proof fn position_is_kept_where_the_pill_is(
    under_centre: Vec<bool>,
    has_primary: bool,
    anchor: Option<Place>,
)
    requires
        call_ensures(anchor_monitor, (&under_centre, has_primary), anchor),
        under_centre@.len() <= usize::MAX,
    ensures
        match anchor {
            Some(Place::Listed(i)) => {
                &&& i < under_centre@.len()
                &&& under_centre@[i as int] || !has_primary && i == 0
                &&& forall|j: int| 0 <= j < i ==> !under_centre@[j]
                &&& !under_centre@[i as int] ==> forall|j: int|
                    0 <= j < under_centre@.len() ==> !under_centre@[j]
            },
            Some(Place::Primary) => has_primary && forall|j: int|
                0 <= j < under_centre@.len() ==> !under_centre@[j],
            None => !has_primary && under_centre@.len() == 0,
        },
{
    if under_centre@.contains(true) {
        under_centre@.index_of_first_ensures(true);
    }
    assert forall|j: int|
        0 <= j < under_centre@.len() && !under_centre@.contains(true) implies !under_centre@[j] by {
        if under_centre@[j] {
            assert(under_centre@.contains(true));
        }
    }
}

/// A fingerprint is the name, or `unknown`, then the width and the height, in decimal.
pub proof fn fingerprint_is_name_and_size(monitor: MonitorInfo, fingerprint: String)
    requires
        call_ensures(monitor_fingerprint, (&monitor,), fingerprint),
    ensures
        monitor.name matches Some(name) ==> fingerprint@ == name@ + "_"@ + decimal_of(
            monitor.width as nat,
        ) + "x"@ + decimal_of(monitor.height as nat),
        monitor.name is None ==> fingerprint@ == "unknown"@ + "_"@ + decimal_of(
            monitor.width as nat,
        ) + "x"@ + decimal_of(monitor.height as nat),
        fingerprint@ == monitor.fingerprint(),
{
}

/// What a list of entries maps stands in it.
proof fn entries_map_only(entries: Seq<PillEntry>, fingerprint: Seq<char>)
    requires
        entries_map(entries).contains_key(fingerprint),
    ensures
        exists|i: int|
            0 <= i < entries.len() && (#[trigger] entries[i]).fingerprint@ == fingerprint,
{
    if forall|i: int| 0 <= i < entries.len() ==> #[trigger] entries[i].fingerprint@ != fingerprint {
        entries_map_without(entries, fingerprint);
    }
}

/// The entries of the kept positions are these positions, one for each fingerprint.
pub proof fn entries_are_the_positions(positions: PillPositions, list: &Vec<PillEntry>)
    requires
        call_ensures(PillPositions::entries, (&positions,), list),
    ensures
        forall|i: int|
            0 <= i < list@.len() ==> positions@.contains_key((#[trigger] list@[i]).fingerprint@)
                && positions@[list@[i].fingerprint@] == list@[i].position,
        forall|f: Seq<char>| #[trigger]
            positions@.contains_key(f) ==> exists|i: int|
                0 <= i < list@.len() && (#[trigger] list@[i]).fingerprint@ == f,
        forall|i: int, j: int|
            0 <= i < j < list@.len() ==> (#[trigger] list@[i]).fingerprint@ != (
            #[trigger] list@[j]).fingerprint@,
{
    assert forall|i: int| 0 <= i < list@.len() implies positions@.contains_key(
        (#[trigger] list@[i]).fingerprint@,
    ) && positions@[list@[i].fingerprint@] == list@[i].position by {
        entries_map_at(list@, i);
    }
    assert forall|f: Seq<char>| #[trigger] positions@.contains_key(f) implies exists|i: int|
        0 <= i < list@.len() && (#[trigger] list@[i]).fingerprint@ == f by {
        entries_map_only(list@, f);
    }
}

} // verus!
