//! Collects what the compositor says about heads and modes until it declares
//! the state complete, and publishes it then.

use std::collections::hash_map::Entry;
use std::collections::{HashMap, VecDeque};
use vstd::prelude::*;
use vstd::relations::*;
use vstd::seq_lib::*;
use vstd::string::*;

use crate::order;
use crate::scale;
use crate::scale::{Scale, ScaleView};
use crate::text;
use crate::wayland_observer;
use crate::wayland_observer::{
    OutputHeadSnapshot, OutputHeadSnapshotView, OutputModeSnapshot, OutputSnapshot,
    OutputSnapshotView,
};

verus! {

/// A mode as far as the compositor has described it.
#[derive(Debug, Clone, Copy, PartialEq, Eq, Structural)]
pub struct PendingMode {
    pub id: u32,
    pub width: Option<i32>,
    pub height: Option<i32>,
    pub refresh_mhz: Option<i32>,
    pub preferred: bool,
}

/// The mode with this id of which nothing is known yet.
pub open spec fn fresh_mode(id: u32) -> PendingMode {
    PendingMode { id, width: None, height: None, refresh_mhz: None, preferred: false }
}

/// The value, or zero where there is none.
pub open spec fn or_zero(value: Option<i32>) -> i32 {
    match value {
        Some(v) => v,
        None => 0,
    }
}

impl PendingMode {
    pub fn new(id: u32) -> (mode: PendingMode)
        ensures
            mode == fresh_mode(id),
    {
        PendingMode { id, width: None, height: None, refresh_mhz: None, preferred: false }
    }

    /// How the mode is published.
    pub open spec fn snapshot(self, current: bool) -> OutputModeSnapshot {
        OutputModeSnapshot {
            width: or_zero(self.width),
            height: or_zero(self.height),
            refresh_mhz: self.refresh_mhz,
            preferred: self.preferred,
            current,
        }
    }

    pub fn into_snapshot(self, current: bool) -> (snapshot: OutputModeSnapshot)
        ensures
            snapshot == self.snapshot(current),
    {
        OutputModeSnapshot {
            width: match self.width {
                Some(width) => width,
                None => 0,
            },
            height: match self.height {
                Some(height) => height,
                None => 0,
            },
            refresh_mhz: self.refresh_mhz,
            preferred: self.preferred,
            current,
        }
    }

    /// Whether `self` is listed no later than `other`.
    fn listed_before(&self, other: &PendingMode) -> (r: bool)
        ensures
            r == mode_le(*self, self.id, *other, other.id),
    {
        let left = (rank(self.width), rank(self.height), rank(self.refresh_mhz));
        let right = (rank(other.width), rank(other.height), rank(other.refresh_mhz));
        if left.0 != right.0 {
            left.0 < right.0
        } else if left.1 != right.1 {
            left.1 < right.1
        } else if left.2 != right.2 {
            left.2 < right.2
        } else if self.preferred != other.preferred {
            other.preferred
        } else {
            self.id <= other.id
        }
    }
}

/// The place of an optional number among optional numbers: what is missing
/// comes first.
pub open spec fn option_rank(value: Option<i32>) -> int {
    match value {
        Some(v) => v as int,
        None => i32::MIN - 1,
    }
}

fn rank(value: Option<i32>) -> (r: i64)
    ensures
        r == option_rank(value),
{
    match value {
        Some(v) => v as i64,
        None => -2147483649,
    }
}

/// Whether mode `a` with id `i` is listed no later than mode `b` with id `j`:
/// by width, height, refresh rate, those not preferred first, and then by id.
pub open spec fn mode_le(a: PendingMode, i: u32, b: PendingMode, j: u32) -> bool {
    if option_rank(a.width) != option_rank(b.width) {
        option_rank(a.width) < option_rank(b.width)
    } else if option_rank(a.height) != option_rank(b.height) {
        option_rank(a.height) < option_rank(b.height)
    } else if option_rank(a.refresh_mhz) != option_rank(b.refresh_mhz) {
        option_rank(a.refresh_mhz) < option_rank(b.refresh_mhz)
    } else if a.preferred != b.preferred {
        b.preferred
    } else {
        i <= j
    }
}

/// The order in which the modes of one head are listed, over their ids.
pub open spec fn mode_order(modes: Map<u32, PendingMode>) -> spec_fn(u32, u32) -> bool {
    |i: u32, j: u32| mode_le(modes[i], i, modes[j], j)
}

/// The ids of the modes of one head, in the order in which they are listed.
pub open spec fn mode_listing(modes: Map<u32, PendingMode>) -> Seq<u32> {
    modes.dom().to_sorted_seq(mode_order(modes))
}

/// The order of modes is total.
pub proof fn mode_order_is_total(modes: Map<u32, PendingMode>)
    ensures
        total_ordering(mode_order(modes)),
{
}

/// The keys of a map, in no particular order.
pub(crate) fn key_list<V>(map: &HashMap<u32, V>) -> (keys: Vec<u32>)
    ensures
        keys@.no_duplicates(),
        keys@.to_set() == map@.dom(),
{
    broadcast use vstd::std_specs::hash::group_hash_axioms;

    let mut keys: Vec<u32> = Vec::new();
    for key in it: map.keys()
        invariant
            keys@ == it.seq().unref().take(it.index() as int),
            it.seq().unref().to_set() == map@.dom(),
            it.seq().no_duplicates(),
            it.index() == it.seq().len() ==> keys@ =~= it.seq().unref(),
    {
        keys.push(*key);
    }
    keys
}

/// A head as far as the compositor has described it.
#[derive(Debug)]
pub struct PendingHead {
    pub id: u32,
    pub name: Option<String>,
    pub description: Option<String>,
    pub enabled: bool,
    pub position: Option<(i32, i32)>,
    pub transform: Option<u32>,
    pub scale: Option<Scale>,
    pub current_mode_id: Option<u32>,
    pub modes: HashMap<u32, PendingMode>,
}

/// What a [`PendingHead`] stands for.
#[verifier::ext_equal]
pub struct PendingHeadView {
    pub id: u32,
    pub name: Option<Seq<char>>,
    pub description: Option<Seq<char>>,
    pub enabled: bool,
    pub position: Option<(i32, i32)>,
    pub transform: Option<u32>,
    pub scale: Option<ScaleView>,
    pub current_mode_id: Option<u32>,
    pub modes: Map<u32, PendingMode>,
}

impl View for PendingHead {
    type V = PendingHeadView;

    open spec fn view(&self) -> PendingHeadView {
        PendingHeadView {
            id: self.id,
            name: text::option_text(self.name),
            description: text::option_text(self.description),
            enabled: self.enabled,
            position: self.position,
            transform: self.transform,
            scale: scale::option_scale(self.scale),
            current_mode_id: self.current_mode_id,
            modes: self.modes@,
        }
    }
}

/// Whether the mode with a given id is preferred, as a property of ids.
pub open spec fn preferred_in(modes: Map<u32, PendingMode>) -> spec_fn(u32) -> bool {
    |id: u32| modes[id].preferred
}

impl PendingHeadView {
    /// The head with this id of which nothing is known yet.
    pub open spec fn fresh(id: u32) -> PendingHeadView {
        PendingHeadView {
            id,
            name: None,
            description: None,
            enabled: false,
            position: None,
            transform: None,
            scale: None,
            current_mode_id: None,
            modes: Map::empty(),
        }
    }

    /// Every mode is filed under its own id.
    pub open spec fn wf(self) -> bool {
        &&& self.modes.dom().finite()
        &&& forall|m: u32| #[trigger] self.modes.contains_key(m) ==> self.modes[m].id == m
    }

    /// The name under which the head is published.
    pub open spec fn published_name(self) -> Seq<char> {
        match self.name {
            Some(name) => name,
            None => "head-"@ + text::decimal(self.id as int),
        }
    }

    /// The mode that is published as current: the one that the compositor
    /// selected, or else the first one listed that it prefers.
    pub open spec fn selected_mode(self) -> Option<u32> {
        if self.current_mode_id is Some && self.modes.contains_key(self.current_mode_id->0) {
            self.current_mode_id
        } else {
            order::find_first(mode_listing(self.modes), preferred_in(self.modes))
        }
    }

    /// How the head is published.
    pub open spec fn snapshot(self) -> OutputHeadSnapshotView {
        let listing = mode_listing(self.modes);
        let selected = self.selected_mode();
        OutputHeadSnapshotView {
            name: self.published_name(),
            description: self.description,
            enabled: self.enabled,
            position: self.position,
            transform: self.transform,
            scale: self.scale,
            current_mode: match selected {
                Some(id) => Some(self.modes[id].snapshot(true)),
                None => None,
            },
            modes: Seq::new(
                listing.len(),
                |i: int| self.modes[listing[i]].snapshot(Some(listing[i]) == selected),
            ),
        }
    }
}

/// The ids of modes.
pub open spec fn mode_ids(modes: Seq<PendingMode>) -> Seq<u32> {
    Seq::new(modes.len(), |i: int| modes[i].id)
}

impl PendingHead {
    pub fn new(id: u32) -> (head: PendingHead)
        ensures
            head@ == PendingHeadView::fresh(id),
            head@.wf(),
    {
        PendingHead {
            id,
            name: None,
            description: None,
            enabled: false,
            position: None,
            transform: None,
            scale: None,
            current_mode_id: None,
            modes: HashMap::new(),
        }
    }

    /// The modes in the order in which they are published.
    fn listed_modes(&self) -> (listed: Vec<PendingMode>)
        requires
            self@.wf(),
        ensures
            mode_ids(listed@) == mode_listing(self@.modes),
            forall|i: int|
                0 <= i < listed@.len() ==> self@.modes.contains_key((#[trigger] listed@[i]).id)
                    && listed@[i] == self@.modes[listed@[i].id],
    {
        broadcast use vstd::std_specs::hash::group_hash_axioms;

        let ids = key_list(&self.modes);
        let mut listed: Vec<PendingMode> = Vec::new();
        let ghost modes = self@.modes;
        let ghost leq = mode_order(modes);
        assert(mode_ids(listed@) =~= ids@.take(0));
        for i in 0..ids.len()
            invariant
                self@.wf(),
                modes == self@.modes,
                leq == mode_order(modes),
                ids@.to_set() == modes.dom(),
                mode_ids(listed@).to_multiset() == ids@.take(i as int).to_multiset(),
                sorted_by(mode_ids(listed@), leq),
                forall|j: int|
                    0 <= j < listed@.len() ==> modes.contains_key((#[trigger] listed@[j]).id)
                        && listed@[j] == modes[listed@[j].id],
        {
            let id = ids[i];
            assert(ids@.to_set().contains(id));
            if let Some(mode) = self.modes.get(&id) {
                let ghost before = listed@;
                let mut at: usize = 0;
                while at < listed.len() && listed[at].listed_before(mode)
                    invariant
                        at <= listed@.len(),
                        before == listed@,
                        mode.id == id,
                        *mode == modes[id],
                        leq == mode_order(modes),
                        forall|j: int|
                            0 <= j < listed@.len() ==> modes.contains_key(
                                (#[trigger] listed@[j]).id,
                            ) && listed@[j] == modes[listed@[j].id],
                        forall|j: int|
                            0 <= j < at ==> leq(#[trigger] mode_ids(before)[j], id),
                    decreases listed@.len() - at,
                {
                    assert(leq(mode_ids(before)[at as int], id));
                    at = at + 1;
                }
                proof {
                    mode_order_is_total(modes);
                    if at < listed@.len() {
                        assert(!leq(mode_ids(before)[at as int], id));
                    }
                    order::lemma_insert_sorted(mode_ids(before), at as int, id, leq);
                }
                listed.insert(at, *mode);
                proof {
                    assert(mode_ids(listed@) =~= mode_ids(before).insert(at as int, id));
                    to_multiset_build(ids@.take(i as int), id);
                    assert(ids@.take(i + 1) =~= ids@.take(i as int).push(id));
                }
            }
        }
        proof {
            assert(ids@.take(ids@.len() as int) =~= ids@);
            mode_order_is_total(modes);
            order::lemma_sorted_listing(modes.dom(), ids@, mode_ids(listed@), leq);
        }
        listed
    }

    /// How the head is published.
    pub fn into_snapshot(self) -> (snapshot: OutputHeadSnapshot)
        requires
            self@.wf(),
        ensures
            snapshot@ == self@.snapshot(),
    {
        broadcast use vstd::std_specs::hash::group_hash_axioms;

        let listed = self.listed_modes();
        let ghost listing = mode_listing(self@.modes);
        let selected = self.selected_mode_id(&listed);
        let current_mode = match selected {
            Some(id) => match self.modes.get(&id) {
                Some(mode) => Some(mode.into_snapshot(true)),
                None => None,
            },
            None => None,
        };
        let mut modes: Vec<OutputModeSnapshot> = Vec::new();
        for i in 0..listed.len()
            invariant
                mode_ids(listed@) == listing,
                listing == mode_listing(self@.modes),
                selected == self@.selected_mode(),
                forall|j: int|
                    0 <= j < listed@.len() ==> (#[trigger] listed@[j])
                        == self@.modes[listed@[j].id],
                modes@.len() == i,
                forall|j: int|
                    0 <= j < i ==> #[trigger] modes@[j] == self@.modes[listing[j]].snapshot(
                        Some(listing[j]) == selected,
                    ),
        {
            let mode = listed[i];
            let is_current = match selected {
                Some(id) => id == mode.id,
                None => false,
            };
            assert(listing[i as int] == mode.id);
            modes.push(mode.into_snapshot(is_current));
        }
        assert(listing.len() == listed@.len());
        assert(modes@ =~= self@.snapshot().modes);
        let name = match self.name {
            Some(name) => name,
            None => {
                let mut name = String::new();
                name.append("head-");
                text::push_nat(&mut name, self.id as u64);
                assert(name@ =~= "head-"@ + text::decimal(self.id as int));
                name
            },
        };
        OutputHeadSnapshot {
            name,
            description: self.description,
            enabled: self.enabled,
            position: self.position,
            transform: self.transform,
            scale: self.scale,
            current_mode,
            modes,
        }
    }

    /// The mode that is published as current.
    fn selected_mode_id(&self, listed: &Vec<PendingMode>) -> (selected: Option<u32>)
        requires
            self@.wf(),
            mode_ids(listed@) == mode_listing(self@.modes),
            forall|i: int|
                0 <= i < listed@.len() ==> self@.modes.contains_key((#[trigger] listed@[i]).id)
                    && listed@[i] == self@.modes[listed@[i].id],
        ensures
            selected == self@.selected_mode(),
            selected is Some ==> self@.modes.contains_key(selected->0),
    {
        broadcast use vstd::std_specs::hash::group_hash_axioms;

        if let Some(id) = self.current_mode_id {
            if self.modes.contains_key(&id) {
                return Some(id);
            }
        }
        let ghost listing = mode_listing(self@.modes);
        let ghost preferred = preferred_in(self@.modes);
        for i in 0..listed.len()
            invariant
                mode_ids(listed@) == listing,
                preferred == preferred_in(self@.modes),
                listing == mode_listing(self@.modes),
                self@.selected_mode() == order::find_first(listing, preferred),
                forall|j: int|
                    0 <= j < listed@.len() ==> self@.modes.contains_key(
                        (#[trigger] listed@[j]).id,
                    ) && listed@[j] == self@.modes[listed@[j].id],
                forall|j: int| 0 <= j < i ==> !preferred(#[trigger] listing[j]),
        {
            assert(listing[i as int] == listed@[i as int].id);
            if listed[i].preferred {
                proof {
                    order::lemma_found(listing, preferred, i as int);
                }
                return Some(listed[i].id);
            }
        }
        proof {
            assert(listing.len() == listed@.len());
            order::lemma_not_found(listing, preferred);
        }
        None
    }
}

impl Clone for PendingHead {
    fn clone(&self) -> (r: PendingHead)
        ensures
            r@ == self@,
    {
        PendingHead {
            id: self.id,
            name: self.name.clone(),
            description: self.description.clone(),
            enabled: self.enabled,
            position: self.position,
            transform: self.transform,
            scale: self.scale.clone(),
            current_mode_id: self.current_mode_id,
            modes: self.modes.clone(),
        }
    }
}

/// Why the collector refuses an event.
#[derive(Debug, PartialEq)]
pub enum SnapshotStateError {
    InvalidScale(Scale),
    UnknownHead(u32),
    UnknownMode(u32),
}

/// What a [`SnapshotStateError`] stands for.
pub enum SnapshotStateErrorView {
    InvalidScale(ScaleView),
    UnknownHead(u32),
    UnknownMode(u32),
}

impl View for SnapshotStateError {
    type V = SnapshotStateErrorView;

    open spec fn view(&self) -> SnapshotStateErrorView {
        match *self {
            SnapshotStateError::InvalidScale(scale) => SnapshotStateErrorView::InvalidScale(scale@),
            SnapshotStateError::UnknownHead(id) => SnapshotStateErrorView::UnknownHead(id),
            SnapshotStateError::UnknownMode(id) => SnapshotStateErrorView::UnknownMode(id),
        }
    }
}

impl Clone for SnapshotStateError {
    fn clone(&self) -> (r: SnapshotStateError)
        ensures
            r@ == self@,
    {
        match self {
            SnapshotStateError::InvalidScale(scale) => {
                SnapshotStateError::InvalidScale(scale.clone())
            },
            SnapshotStateError::UnknownHead(id) => SnapshotStateError::UnknownHead(*id),
            SnapshotStateError::UnknownMode(id) => SnapshotStateError::UnknownMode(*id),
        }
    }
}

impl SnapshotStateErrorView {
    /// The error in words.
    pub open spec fn message(self) -> Seq<char> {
        match self {
            SnapshotStateErrorView::InvalidScale(scale) => "invalid scale value "@ + scale.text,
            SnapshotStateErrorView::UnknownHead(id) => "unknown head id "@ + text::decimal(
                id as int,
            ),
            SnapshotStateErrorView::UnknownMode(id) => "unknown mode id "@ + text::decimal(
                id as int,
            ),
        }
    }
}

impl SnapshotStateError {
    /// The error in words.
    pub fn message(&self) -> (message: String)
        ensures
            message@ == self@.message(),
    {
        let mut message = String::new();
        match self {
            SnapshotStateError::InvalidScale(scale) => {
                message.append("invalid scale value ");
                message.append(scale.text.as_str());
            },
            SnapshotStateError::UnknownHead(id) => {
                message.append("unknown head id ");
                text::push_nat(&mut message, *id as u64);
            },
            SnapshotStateError::UnknownMode(id) => {
                message.append("unknown mode id ");
                text::push_nat(&mut message, *id as u64);
            },
        }
        assert(message@ =~= self@.message());
        message
    }
}

/// The scale to store for a reported one: `rounded`, the reported scale rounded
/// to four decimals, unless either of the two is no usable factor.
pub open spec fn normalized_scale(scale: ScaleView, rounded: ScaleView) -> Result<
    ScaleView,
    SnapshotStateErrorView,
> {
    if !scale::positive_finite(scale.bits) || scale::at_most_zero(rounded.bits) {
        Err(SnapshotStateErrorView::InvalidScale(scale))
    } else {
        Ok(rounded)
    }
}

/// The scale to store for a reported one, given the reported scale rounded to
/// four decimals.
pub fn normalize_scale(scale: Scale, rounded: Scale) -> (r: Result<Scale, SnapshotStateError>)
    ensures
        match r {
            Ok(s) => normalized_scale(scale@, rounded@) == Ok::<ScaleView, SnapshotStateErrorView>(
                s@,
            ),
            Err(e) => normalized_scale(scale@, rounded@) == Err::<
                ScaleView,
                SnapshotStateErrorView,
            >(e@),
        },
{
    if !scale.is_positive_finite() {
        return Err(SnapshotStateError::InvalidScale(scale));
    }
    if rounded.is_at_most_zero() {
        return Err(SnapshotStateError::InvalidScale(scale));
    }
    Ok(rounded)
}

/// Collects heads and modes and queues what is published.
#[derive(Debug)]
pub struct SnapshotCollector {
    heads: HashMap<u32, PendingHead>,
    mode_to_head: HashMap<u32, u32>,
    publications: VecDeque<OutputSnapshot>,
}

/// What a [`SnapshotCollector`] stands for.
#[verifier::ext_equal]
pub struct CollectorView {
    pub heads: Map<u32, PendingHeadView>,
    pub mode_to_head: Map<u32, u32>,
    pub publications: Seq<OutputSnapshotView>,
}

/// What filed heads stand for.
pub open spec fn pending_views(heads: Map<u32, PendingHead>) -> Map<u32, PendingHeadView> {
    heads.map_values(|head: PendingHead| head@)
}

proof fn lemma_filed(heads: Map<u32, PendingHead>, id: u32, head: PendingHead)
    ensures
        pending_views(heads.insert(id, head)) == pending_views(heads).insert(id, head@),
{
    assert(pending_views(heads.insert(id, head)) =~= pending_views(heads).insert(id, head@));
}

impl View for SnapshotCollector {
    type V = CollectorView;

    closed spec fn view(&self) -> CollectorView {
        CollectorView {
            heads: pending_views(self.heads@),
            mode_to_head: self.mode_to_head@,
            publications: wayland_observer::snapshot_views(self.publications@),
        }
    }
}

/// Whether head `a` with id `i` is published no later than head `b` with id
/// `j`: by name, and heads of one name by id.
pub open spec fn head_le(a: PendingHeadView, i: u32, b: PendingHeadView, j: u32) -> bool {
    &&& text::text_le(a.published_name(), b.published_name())
    &&& a.published_name() == b.published_name() ==> i <= j
}

/// The order in which heads are published, over their ids.
pub open spec fn head_order(heads: Map<u32, PendingHeadView>) -> spec_fn(u32, u32) -> bool {
    |i: u32, j: u32| head_le(heads[i], i, heads[j], j)
}

/// The ids of the heads, in the order in which they are published.
pub open spec fn head_listing(heads: Map<u32, PendingHeadView>) -> Seq<u32> {
    heads.dom().to_sorted_seq(head_order(heads))
}

/// The order of heads is total.
pub proof fn head_order_is_total(heads: Map<u32, PendingHeadView>)
    ensures
        total_ordering(head_order(heads)),
{
    text::text_order_is_total();
    let text_leq = text::text_order();
    let leq = head_order(heads);
    assert forall|i: u32| #[trigger] leq(i, i) by {
        assert(text_leq(heads[i].published_name(), heads[i].published_name()));
    }
    assert forall|i: u32, j: u32| #[trigger] leq(i, j) && #[trigger] leq(j, i) implies i == j by {
        assert(text_leq(heads[i].published_name(), heads[j].published_name()));
        assert(text_leq(heads[j].published_name(), heads[i].published_name()));
    }
    assert forall|i: u32, j: u32, k: u32|
        #[trigger] leq(i, j) && #[trigger] leq(j, k) implies leq(i, k) by {
        assert(text_leq(heads[i].published_name(), heads[j].published_name()));
        assert(text_leq(heads[j].published_name(), heads[k].published_name()));
        assert(text_leq(heads[i].published_name(), heads[k].published_name()));
    }
    assert forall|i: u32, j: u32| #[trigger] leq(i, j) || #[trigger] leq(j, i) by {
        let left = heads[i].published_name();
        let right = heads[j].published_name();
        assert(text_leq(left, right) || text_leq(right, left));
        if text_leq(left, right) && text_leq(right, left) {
            assert(left == right);
        }
    }
}

impl CollectorView {
    /// The collector before the first event.
    pub open spec fn empty() -> CollectorView {
        CollectorView { heads: Map::empty(), mode_to_head: Map::empty(), publications: seq![] }
    }

    /// Heads and modes are filed under their own ids, and a mode that can be
    /// reached by its id belongs to a head that is there.
    pub open spec fn wf(self) -> bool {
        &&& self.heads.dom().finite()
        &&& forall|h: u32| #[trigger]
            self.heads.contains_key(h) ==> self.heads[h].id == h && self.heads[h].wf()
        &&& forall|m: u32| #[trigger]
            self.mode_to_head.contains_key(m) ==> self.heads.contains_key(self.mode_to_head[m])
                && self.heads[self.mode_to_head[m]].modes.contains_key(m)
    }

    /// With `head` in place of what is filed under `id`.
    pub open spec fn with_head(self, id: u32, head: PendingHeadView) -> CollectorView {
        CollectorView { heads: self.heads.insert(id, head), ..self }
    }

    /// With `mode` in place of what its head files under `id`.
    pub open spec fn with_mode(self, id: u32, mode: PendingMode) -> CollectorView {
        let head_id = self.mode_to_head[id];
        let head = self.heads[head_id];
        self.with_head(
            head_id,
            PendingHeadView { modes: head.modes.insert(id, mode), ..head },
        )
    }

    /// The mode with this id.
    pub open spec fn mode(self, id: u32) -> PendingMode {
        self.heads[self.mode_to_head[id]].modes[id]
    }

    /// After a head is announced.
    pub open spec fn note_head(self, id: u32) -> CollectorView {
        if self.heads.contains_key(id) {
            self
        } else {
            self.with_head(id, PendingHeadView::fresh(id))
        }
    }

    /// After a change of the head with this id, which must be known.
    pub open spec fn change_head(self, id: u32, head: PendingHeadView) -> Result<
        CollectorView,
        SnapshotStateErrorView,
    > {
        if self.heads.contains_key(id) {
            Ok(self.with_head(id, head))
        } else {
            Err(SnapshotStateErrorView::UnknownHead(id))
        }
    }

    /// After a change of the mode with this id, which must be known.
    pub open spec fn change_mode(self, id: u32, mode: PendingMode) -> Result<
        CollectorView,
        SnapshotStateErrorView,
    > {
        if self.mode_to_head.contains_key(id) {
            Ok(self.with_mode(id, mode))
        } else {
            Err(SnapshotStateErrorView::UnknownMode(id))
        }
    }

    pub open spec fn set_head_name(self, id: u32, name: Seq<char>) -> Result<
        CollectorView,
        SnapshotStateErrorView,
    > {
        self.change_head(id, PendingHeadView { name: Some(name), ..self.heads[id] })
    }

    pub open spec fn set_head_description(self, id: u32, description: Seq<char>) -> Result<
        CollectorView,
        SnapshotStateErrorView,
    > {
        self.change_head(id, PendingHeadView { description: Some(description), ..self.heads[id] })
    }

    /// A head that is switched off loses all that holds of enabled heads only.
    pub open spec fn set_head_enabled(self, id: u32, enabled: bool) -> Result<
        CollectorView,
        SnapshotStateErrorView,
    > {
        self.change_head(
            id,
            if enabled {
                PendingHeadView { enabled, ..self.heads[id] }
            } else {
                PendingHeadView {
                    enabled,
                    current_mode_id: None,
                    position: None,
                    transform: None,
                    scale: None,
                    ..self.heads[id]
                }
            },
        )
    }

    pub open spec fn set_head_current_mode(self, id: u32, mode_id: u32) -> Result<
        CollectorView,
        SnapshotStateErrorView,
    > {
        self.change_head(id, PendingHeadView { current_mode_id: Some(mode_id), ..self.heads[id] })
    }

    pub open spec fn set_head_position(self, id: u32, x: i32, y: i32) -> Result<
        CollectorView,
        SnapshotStateErrorView,
    > {
        self.change_head(id, PendingHeadView { position: Some((x, y)), ..self.heads[id] })
    }

    pub open spec fn set_head_transform(self, id: u32, transform: u32) -> Result<
        CollectorView,
        SnapshotStateErrorView,
    > {
        self.change_head(id, PendingHeadView { transform: Some(transform), ..self.heads[id] })
    }

    pub open spec fn set_head_scale(
        self,
        id: u32,
        scale: ScaleView,
        rounded: ScaleView,
    ) -> Result<CollectorView, SnapshotStateErrorView> {
        match normalized_scale(scale, rounded) {
            Ok(normalized) => self.change_head(
                id,
                PendingHeadView { scale: Some(normalized), ..self.heads[id] },
            ),
            Err(error) => Err(error),
        }
    }

    /// After a mode of a head is announced.
    pub open spec fn note_mode(self, head_id: u32, mode_id: u32) -> Result<
        CollectorView,
        SnapshotStateErrorView,
    > {
        if self.heads.contains_key(head_id) {
            let head = self.heads[head_id];
            let modes = if head.modes.contains_key(mode_id) {
                head.modes
            } else {
                head.modes.insert(mode_id, fresh_mode(mode_id))
            };
            Ok(
                CollectorView {
                    heads: self.heads.insert(head_id, PendingHeadView { modes, ..head }),
                    mode_to_head: self.mode_to_head.insert(mode_id, head_id),
                    ..self
                },
            )
        } else {
            Err(SnapshotStateErrorView::UnknownHead(head_id))
        }
    }

    pub open spec fn set_mode_size(self, id: u32, width: i32, height: i32) -> Result<
        CollectorView,
        SnapshotStateErrorView,
    > {
        self.change_mode(
            id,
            PendingMode { width: Some(width), height: Some(height), ..self.mode(id) },
        )
    }

    pub open spec fn set_mode_refresh(self, id: u32, refresh: i32) -> Result<
        CollectorView,
        SnapshotStateErrorView,
    > {
        self.change_mode(id, PendingMode { refresh_mhz: Some(refresh), ..self.mode(id) })
    }

    pub open spec fn set_mode_preferred(self, id: u32) -> Result<
        CollectorView,
        SnapshotStateErrorView,
    > {
        self.change_mode(id, PendingMode { preferred: true, ..self.mode(id) })
    }

    /// After a head is gone, and its modes with it.
    pub open spec fn finish_head(self, id: u32) -> Result<CollectorView, SnapshotStateErrorView> {
        if self.heads.contains_key(id) {
            Ok(
                CollectorView {
                    heads: self.heads.remove(id),
                    mode_to_head: self.mode_to_head.remove_keys(self.heads[id].modes.dom()),
                    ..self
                },
            )
        } else {
            Err(SnapshotStateErrorView::UnknownHead(id))
        }
    }

    /// After a mode is gone.
    pub open spec fn finish_mode(self, id: u32) -> Result<CollectorView, SnapshotStateErrorView> {
        if self.mode_to_head.contains_key(id) {
            let head_id = self.mode_to_head[id];
            let head = self.heads[head_id];
            Ok(
                CollectorView {
                    heads: self.heads.insert(
                        head_id,
                        PendingHeadView {
                            modes: head.modes.remove(id),
                            current_mode_id: if head.current_mode_id == Some(id) {
                                None
                            } else {
                                head.current_mode_id
                            },
                            ..head
                        },
                    ),
                    mode_to_head: self.mode_to_head.remove(id),
                    ..self
                },
            )
        } else {
            Err(SnapshotStateErrorView::UnknownMode(id))
        }
    }

    /// The snapshot of all heads as they stand.
    pub open spec fn snapshot(self, serial: u32) -> OutputSnapshotView {
        let listing = head_listing(self.heads);
        OutputSnapshotView {
            serial,
            heads: Seq::new(listing.len(), |i: int| self.heads[listing[i]].snapshot()),
        }
    }

    /// After the compositor declares the state complete.
    pub open spec fn publish_done(self, serial: u32) -> CollectorView {
        CollectorView { publications: self.publications.push(self.snapshot(serial)), ..self }
    }
}

/// Whether an operation ended as `model` says: in the modelled state, or with
/// the modelled error and nothing changed.
pub open spec fn ends_as(
    before: CollectorView,
    after: CollectorView,
    result: Result<(), SnapshotStateError>,
    model: Result<CollectorView, SnapshotStateErrorView>,
) -> bool {
    match (result, model) {
        (Ok(()), Ok(next)) => after == next,
        (Err(error), Err(expected)) => error@ == expected && after == before,
        _ => false,
    }
}

impl SnapshotCollector {
    pub fn new() -> (collector: SnapshotCollector)
        ensures
            collector@ == CollectorView::empty(),
            collector@.wf(),
    {
        let collector = SnapshotCollector {
            heads: HashMap::new(),
            mode_to_head: HashMap::new(),
            publications: VecDeque::new(),
        };
        assert(collector@ =~= CollectorView::empty());
        collector
    }

    /// The head with this id, to be changed.
    fn head_mut(&mut self, head_id: u32) -> (r: Result<&mut PendingHead, SnapshotStateError>)
        ensures
            match r {
                Ok(head) => {
                    &&& old(self).heads@.contains_key(head_id)
                    &&& *head == old(self).heads@[head_id]
                    &&& final(self).heads@ == old(self).heads@.insert(head_id, *final(head))
                },
                Err(error) => {
                    &&& !old(self).heads@.contains_key(head_id)
                    &&& error@ == SnapshotStateErrorView::UnknownHead(head_id)
                    &&& final(self).heads@ == old(self).heads@
                },
            },
            final(self).mode_to_head@ == old(self).mode_to_head@,
            final(self).publications@ == old(self).publications@,
    {
        broadcast use vstd::std_specs::hash::group_hash_axioms;

        match self.heads.entry(head_id) {
            Entry::Occupied(entry) => Ok(entry.into_mut()),
            Entry::Vacant(_) => Err(SnapshotStateError::UnknownHead(head_id)),
        }
    }

    /// Notes that there is a head with this id.
    pub fn note_head(&mut self, head_id: u32)
        requires
            old(self)@.wf(),
        ensures
            final(self)@ == old(self)@.note_head(head_id),
            final(self)@.wf(),
    {
        broadcast use vstd::std_specs::hash::group_hash_axioms;

        if !self.heads.contains_key(&head_id) {
            self.heads.insert(head_id, PendingHead::new(head_id));
        }
        assert(self@ =~= old(self)@.note_head(head_id));
    }

    pub fn set_head_name(&mut self, head_id: u32, name: String) -> (r: Result<
        (),
        SnapshotStateError,
    >)
        requires
            old(self)@.wf(),
        ensures
            ends_as(old(self)@, final(self)@, r, old(self)@.set_head_name(head_id, name@)),
            final(self)@.wf(),
    {
        let ghost heads = self.heads@;
        let head = match self.head_mut(head_id) {
            Ok(head) => head,
            Err(error) => return Err(error),
        };
        head.name = Some(name);
        proof {
            lemma_filed(heads, head_id, self.heads@[head_id]);
        }
        Ok(())
    }

    pub fn set_head_description(&mut self, head_id: u32, description: String) -> (r: Result<
        (),
        SnapshotStateError,
    >)
        requires
            old(self)@.wf(),
        ensures
            ends_as(
                old(self)@,
                final(self)@,
                r,
                old(self)@.set_head_description(head_id, description@),
            ),
            final(self)@.wf(),
    {
        let ghost heads = self.heads@;
        let head = match self.head_mut(head_id) {
            Ok(head) => head,
            Err(error) => return Err(error),
        };
        head.description = Some(description);
        proof {
            lemma_filed(heads, head_id, self.heads@[head_id]);
        }
        Ok(())
    }

    pub fn set_head_enabled(&mut self, head_id: u32, enabled: bool) -> (r: Result<
        (),
        SnapshotStateError,
    >)
        requires
            old(self)@.wf(),
        ensures
            ends_as(old(self)@, final(self)@, r, old(self)@.set_head_enabled(head_id, enabled)),
            final(self)@.wf(),
    {
        let ghost heads = self.heads@;
        let head = match self.head_mut(head_id) {
            Ok(head) => head,
            Err(error) => return Err(error),
        };
        head.enabled = enabled;
        if !enabled {
            head.current_mode_id = None;
            head.position = None;
            head.transform = None;
            head.scale = None;
        }
        proof {
            lemma_filed(heads, head_id, self.heads@[head_id]);
        }
        Ok(())
    }

    pub fn set_head_current_mode(&mut self, head_id: u32, mode_id: u32) -> (r: Result<
        (),
        SnapshotStateError,
    >)
        requires
            old(self)@.wf(),
        ensures
            ends_as(
                old(self)@,
                final(self)@,
                r,
                old(self)@.set_head_current_mode(head_id, mode_id),
            ),
            final(self)@.wf(),
    {
        let ghost heads = self.heads@;
        let head = match self.head_mut(head_id) {
            Ok(head) => head,
            Err(error) => return Err(error),
        };
        head.current_mode_id = Some(mode_id);
        proof {
            lemma_filed(heads, head_id, self.heads@[head_id]);
        }
        Ok(())
    }

    pub fn set_head_position(&mut self, head_id: u32, x: i32, y: i32) -> (r: Result<
        (),
        SnapshotStateError,
    >)
        requires
            old(self)@.wf(),
        ensures
            ends_as(old(self)@, final(self)@, r, old(self)@.set_head_position(head_id, x, y)),
            final(self)@.wf(),
    {
        let ghost heads = self.heads@;
        let head = match self.head_mut(head_id) {
            Ok(head) => head,
            Err(error) => return Err(error),
        };
        head.position = Some((x, y));
        proof {
            lemma_filed(heads, head_id, self.heads@[head_id]);
        }
        Ok(())
    }

    pub fn set_head_transform(&mut self, head_id: u32, transform: u32) -> (r: Result<
        (),
        SnapshotStateError,
    >)
        requires
            old(self)@.wf(),
        ensures
            ends_as(old(self)@, final(self)@, r, old(self)@.set_head_transform(head_id, transform)),
            final(self)@.wf(),
    {
        let ghost heads = self.heads@;
        let head = match self.head_mut(head_id) {
            Ok(head) => head,
            Err(error) => return Err(error),
        };
        head.transform = Some(transform);
        proof {
            lemma_filed(heads, head_id, self.heads@[head_id]);
        }
        Ok(())
    }

    /// Sets the scale of a head, given the reported scale and the same rounded
    /// to four decimals.
    pub fn set_head_scale(&mut self, head_id: u32, scale: Scale, rounded: Scale) -> (r: Result<
        (),
        SnapshotStateError,
    >)
        requires
            old(self)@.wf(),
        ensures
            ends_as(
                old(self)@,
                final(self)@,
                r,
                old(self)@.set_head_scale(head_id, scale@, rounded@),
            ),
            final(self)@.wf(),
    {
        let ghost heads = self.heads@;
        let normalized = match normalize_scale(scale, rounded) {
            Ok(normalized) => normalized,
            Err(error) => return Err(error),
        };
        let head = match self.head_mut(head_id) {
            Ok(head) => head,
            Err(error) => return Err(error),
        };
        head.scale = Some(normalized);
        proof {
            lemma_filed(heads, head_id, self.heads@[head_id]);
        }
        Ok(())
    }

    /// Notes that the head has a mode with this id.
    pub fn note_mode(&mut self, head_id: u32, mode_id: u32) -> (r: Result<(), SnapshotStateError>)
        requires
            old(self)@.wf(),
        ensures
            ends_as(old(self)@, final(self)@, r, old(self)@.note_mode(head_id, mode_id)),
            final(self)@.wf(),
    {
        broadcast use vstd::std_specs::hash::group_hash_axioms;

        let ghost heads = self.heads@;
        let head = match self.head_mut(head_id) {
            Ok(head) => head,
            Err(error) => return Err(error),
        };
        if !head.modes.contains_key(&mode_id) {
            head.modes.insert(mode_id, PendingMode::new(mode_id));
        }
        self.mode_to_head.insert(mode_id, head_id);
        proof {
            lemma_filed(heads, head_id, self.heads@[head_id]);
        }
        Ok(())
    }

    /// The mode with this id, to be changed.
    fn mode_mut(&mut self, mode_id: u32) -> (r: Result<&mut PendingMode, SnapshotStateError>)
        requires
            old(self)@.wf(),
        ensures
            match r {
                Ok(mode) => {
                    &&& old(self)@.mode_to_head.contains_key(mode_id)
                    &&& *mode == old(self)@.mode(mode_id)
                    &&& final(self)@ == old(self)@.with_mode(mode_id, *final(mode))
                },
                Err(error) => {
                    &&& !old(self)@.mode_to_head.contains_key(mode_id)
                    &&& error@ == SnapshotStateErrorView::UnknownMode(mode_id)
                    &&& final(self)@ == old(self)@
                },
            },
    {
        broadcast use vstd::std_specs::hash::group_hash_axioms;

        let ghost heads = self.heads@;
        let head_id = match self.mode_to_head.get(&mode_id) {
            Some(head_id) => *head_id,
            None => return Err(SnapshotStateError::UnknownMode(mode_id)),
        };
        assert(pending_views(heads).contains_key(head_id));
        proof {
            assert forall|head: PendingHead| #[trigger]
                pending_views(heads.insert(head_id, head)) == pending_views(heads).insert(
                    head_id,
                    head@,
                ) by {
                lemma_filed(heads, head_id, head);
            }
        }
        let head = match self.head_mut(head_id) {
            Ok(head) => head,
            Err(error) => return Err(error),
        };
        match head.modes.entry(mode_id) {
            Entry::Occupied(entry) => Ok(entry.into_mut()),
            Entry::Vacant(_) => Err(SnapshotStateError::UnknownMode(mode_id)),
        }
    }

    pub fn set_mode_size(&mut self, mode_id: u32, width: i32, height: i32) -> (r: Result<
        (),
        SnapshotStateError,
    >)
        requires
            old(self)@.wf(),
        ensures
            ends_as(old(self)@, final(self)@, r, old(self)@.set_mode_size(mode_id, width, height)),
            final(self)@.wf(),
    {
        let mode = match self.mode_mut(mode_id) {
            Ok(mode) => mode,
            Err(error) => return Err(error),
        };
        mode.width = Some(width);
        mode.height = Some(height);
        Ok(())
    }

    pub fn set_mode_refresh(&mut self, mode_id: u32, refresh: i32) -> (r: Result<
        (),
        SnapshotStateError,
    >)
        requires
            old(self)@.wf(),
        ensures
            ends_as(old(self)@, final(self)@, r, old(self)@.set_mode_refresh(mode_id, refresh)),
            final(self)@.wf(),
    {
        let mode = match self.mode_mut(mode_id) {
            Ok(mode) => mode,
            Err(error) => return Err(error),
        };
        mode.refresh_mhz = Some(refresh);
        Ok(())
    }

    pub fn set_mode_preferred(&mut self, mode_id: u32) -> (r: Result<(), SnapshotStateError>)
        requires
            old(self)@.wf(),
        ensures
            ends_as(old(self)@, final(self)@, r, old(self)@.set_mode_preferred(mode_id)),
            final(self)@.wf(),
    {
        let mode = match self.mode_mut(mode_id) {
            Ok(mode) => mode,
            Err(error) => return Err(error),
        };
        mode.preferred = true;
        Ok(())
    }

    /// Forgets a head and its modes.
    pub fn finish_head(&mut self, head_id: u32) -> (r: Result<(), SnapshotStateError>)
        requires
            old(self)@.wf(),
        ensures
            ends_as(old(self)@, final(self)@, r, old(self)@.finish_head(head_id)),
            final(self)@.wf(),
    {
        broadcast use vstd::std_specs::hash::group_hash_axioms;

        let ghost before = self@;
        let ghost heads = self.heads@;
        let ghost mode_to_head = self.mode_to_head@;
        let head = match self.heads.remove(&head_id) {
            Some(head) => head,
            None => {
                assert(self@ =~= before);
                return Err(SnapshotStateError::UnknownHead(head_id));
            },
        };
        let ids = key_list(&head.modes);
        assert(self.mode_to_head@ =~= mode_to_head.remove_keys(ids@.take(0).to_set()));
        for i in 0..ids.len()
            invariant
                self.mode_to_head@ == mode_to_head.remove_keys(ids@.take(i as int).to_set()),
                self.heads@ == heads.remove(head_id),
                self.publications@ == old(self).publications@,
        {
            self.mode_to_head.remove(&ids[i]);
            proof {
                let seen = ids@.take(i as int);
                let next = ids@.take(i + 1);
                assert(next =~= seen.push(ids@[i as int]));
                assert forall|m: u32| next.to_set().contains(m) <==> seen.to_set().contains(m) || m
                    == ids@[i as int] by {
                    if m == ids@[i as int] {
                        assert(next[i as int] == m);
                    }
                    if seen.contains(m) {
                        let j = choose|j: int| 0 <= j < seen.len() && seen[j] == m;
                        assert(next[j] == m);
                    }
                }
                assert(self.mode_to_head@ =~= mode_to_head.remove_keys(next.to_set()));
            }
        }
        proof {
            assert(ids@.take(ids@.len() as int) =~= ids@);
            assert(pending_views(heads.remove(head_id)) =~= pending_views(heads).remove(head_id));
        }
        Ok(())
    }

    /// Forgets a mode.
    pub fn finish_mode(&mut self, mode_id: u32) -> (r: Result<(), SnapshotStateError>)
        requires
            old(self)@.wf(),
        ensures
            ends_as(old(self)@, final(self)@, r, old(self)@.finish_mode(mode_id)),
            final(self)@.wf(),
    {
        broadcast use vstd::std_specs::hash::group_hash_axioms;

        let ghost heads = self.heads@;
        let ghost before = self@;
        let head_id = match self.mode_to_head.remove(&mode_id) {
            Some(head_id) => head_id,
            None => {
                assert(self.mode_to_head@ =~= before.mode_to_head);
                return Err(SnapshotStateError::UnknownMode(mode_id));
            },
        };
        assert(pending_views(heads).contains_key(head_id));
        let head = match self.head_mut(head_id) {
            Ok(head) => head,
            Err(error) => return Err(error),
        };
        head.modes.remove(&mode_id);
        if let Some(current) = head.current_mode_id {
            if current == mode_id {
                head.current_mode_id = None;
            }
        }
        proof {
            lemma_filed(heads, head_id, self.heads@[head_id]);
        }
        Ok(())
    }

    /// Publishes the state of all heads.
    pub fn publish_done(&mut self, serial: u32) -> (r: Result<(), SnapshotStateError>)
        requires
            old(self)@.wf(),
        ensures
            r is Ok,
            final(self)@ == old(self)@.publish_done(serial),
            final(self)@.wf(),
    {
        let heads = self.listed_heads();
        let ghost published = self.publications@;
        let snapshot = OutputSnapshot { serial, heads };
        self.publications.push_back(snapshot);
        proof {
            assert(snapshot@ =~= old(self)@.snapshot(serial));
            assert(wayland_observer::snapshot_views(self.publications@)
                =~= wayland_observer::snapshot_views(published).push(snapshot@));
        }
        Ok(())
    }

    /// The heads in the order in which they are published.
    fn listed_heads(&self) -> (listed: Vec<OutputHeadSnapshot>)
        requires
            self@.wf(),
        ensures
            wayland_observer::head_views(listed@) == self@.snapshot(0).heads,
    {
        broadcast use vstd::std_specs::hash::group_hash_axioms;

        let ids = key_list(&self.heads);
        let mut order: Vec<u32> = Vec::new();
        let mut listed: Vec<OutputHeadSnapshot> = Vec::new();
        let ghost heads = self@.heads;
        let ghost leq = head_order(heads);
        assert(heads.dom() =~= self.heads@.dom());
        assert(order@ =~= ids@.take(0));
        for i in 0..ids.len()
            invariant
                self@.wf(),
                heads == self@.heads,
                leq == head_order(heads),
                ids@.to_set() == heads.dom(),
                order@.to_multiset() == ids@.take(i as int).to_multiset(),
                sorted_by(order@, leq),
                listed@.len() == order@.len(),
                forall|j: int|
                    0 <= j < order@.len() ==> (#[trigger] listed@[j])@
                        == heads[order@[j]].snapshot(),
        {
            let id = ids[i];
            assert(ids@.to_set().contains(id));
            if let Some(head) = self.heads.get(&id) {
                let head = head.clone().into_snapshot();
                assert(head@ == heads[id].snapshot());
                let ghost order_before = order@;
                let ghost listed_before = listed@;
                let mut at: usize = 0;
                while at < order.len() && published_before(
                    listed[at].name.as_str(),
                    order[at],
                    head.name.as_str(),
                    id,
                )
                    invariant
                        at <= order@.len(),
                        order_before == order@,
                        listed_before == listed@,
                        listed@.len() == order@.len(),
                        head@ == heads[id].snapshot(),
                        leq == head_order(heads),
                        forall|j: int|
                            0 <= j < order@.len() ==> (#[trigger] listed@[j])@
                                == heads[order@[j]].snapshot(),
                        forall|j: int| 0 <= j < at ==> leq(#[trigger] order_before[j], id),
                    decreases order@.len() - at,
                {
                    assert(leq(order_before[at as int], id));
                    at = at + 1;
                }
                proof {
                    head_order_is_total(heads);
                    if at < order@.len() {
                        let next = order_before[at as int];
                        assert(listed_before[at as int]@ == heads[next].snapshot());
                        assert(!leq(order_before[at as int], id));
                    }
                    order::lemma_insert_sorted(order_before, at as int, id, leq);
                }
                order.insert(at, id);
                listed.insert(at, head);
                proof {
                    to_multiset_build(ids@.take(i as int), id);
                    assert(ids@.take(i + 1) =~= ids@.take(i as int).push(id));
                    assert forall|j: int| 0 <= j < order@.len() implies (#[trigger] listed@[j])@
                        == heads[order@[j]].snapshot() by {
                        if j < at {
                            assert(listed_before[j]@ == heads[order_before[j]].snapshot());
                        } else if j > at {
                            assert(listed_before[j - 1]@ == heads[order_before[j - 1]].snapshot());
                        }
                    }
                }
            }
        }
        proof {
            assert(ids@.take(ids@.len() as int) =~= ids@);
            head_order_is_total(heads);
            order::lemma_sorted_listing(heads.dom(), ids@, order@, leq);
            assert(wayland_observer::head_views(listed@) =~= self@.snapshot(0).heads);
        }
        listed
    }

    /// Takes the oldest snapshot that was published and not yet taken.
    pub fn take_publication(&mut self) -> (taken: Option<OutputSnapshot>)
        requires
            old(self)@.wf(),
        ensures
            match taken {
                Some(snapshot) => {
                    &&& old(self)@.publications.len() > 0
                    &&& snapshot@ == old(self)@.publications.first()
                    &&& final(self)@ == (CollectorView {
                        publications: old(self)@.publications.drop_first(),
                        ..old(self)@
                    })
                },
                None => old(self)@.publications.len() == 0 && final(self)@ == old(self)@,
            },
            final(self)@.wf(),
    {
        let ghost published = self.publications@;
        let taken = self.publications.pop_front();
        proof {
            if taken is Some {
                assert(wayland_observer::snapshot_views(self.publications@)
                    =~= wayland_observer::snapshot_views(published).drop_first());
            }
        }
        taken
    }

    /// How many snapshots wait to be taken.
    pub fn pending_publications(&self) -> (n: usize)
        ensures
            n == self@.publications.len(),
    {
        self.publications.len()
    }
}

/// Whether the head with the first name and id is published no later than the
/// head with the second.
fn published_before(left: &str, left_id: u32, right: &str, right_id: u32) -> (r: bool)
    ensures
        r == (text::text_le(left@, right@) && (left@ == right@ ==> left_id <= right_id)),
{
    if text::text_eq(left, right) {
        proof {
            text::text_order_is_total();
            let leq = text::text_order();
            assert(leq(left@, left@));
        }
        left_id <= right_id
    } else {
        text::text_precedes(left, right)
    }
}

impl Default for SnapshotCollector {
    fn default() -> (collector: SnapshotCollector)
        ensures
            collector@ == CollectorView::empty(),
            collector@.wf(),
    {
        SnapshotCollector::new()
    }
}

proof fn lemma_mode_listing(head: PendingHeadView)
    requires
        head.wf(),
    ensures
        mode_listing(head.modes).no_duplicates(),
        mode_listing(head.modes).to_set() == head.modes.dom(),
        mode_listing(head.modes).len() == head.modes.len(),
        sorted_by(mode_listing(head.modes), mode_order(head.modes)),
{
    mode_order_is_total(head.modes);
    order::lemma_listing_elements(head.modes.dom(), mode_order(head.modes));
}

/// The mode that is published as current is one that the head has.
pub proof fn selected_mode_is_known(head: PendingHeadView)
    requires
        head.wf(),
    ensures
        head.selected_mode() matches Some(id) ==> head.modes.contains_key(id),
{
    let listing = mode_listing(head.modes);
    lemma_mode_listing(head);
    order::lemma_find_first(listing, preferred_in(head.modes));
    if let Some(id) = order::find_first(listing, preferred_in(head.modes)) {
        assert(listing.to_set().contains(id));
    }
}

/// A mode that the compositor selected is published as current, whatever it
/// prefers; without one the current mode is a preferred one, if there is any.
pub proof fn selection_comes_before_preference(head: PendingHeadView)
    requires
        head.wf(),
    ensures
        head.current_mode_id matches Some(id) ==> head.modes.contains_key(id)
            ==> head.snapshot().current_mode == Some(head.modes[id].snapshot(true)),
        (head.current_mode_id matches Some(id) ==> !head.modes.contains_key(id))
            ==> match head.snapshot().current_mode {
            Some(mode) => mode.preferred,
            None => forall|m: u32| #[trigger]
                head.modes.contains_key(m) ==> !head.modes[m].preferred,
        },
{
    let listing = mode_listing(head.modes);
    let preferred = preferred_in(head.modes);
    lemma_mode_listing(head);
    order::lemma_find_first(listing, preferred);
    if order::find_first(listing, preferred) is None {
        assert forall|m: u32| #[trigger]
            head.modes.contains_key(m) implies !head.modes[m].preferred by {
            assert(listing.to_set().contains(m));
            let i = choose|i: int| 0 <= i < listing.len() && listing[i] == m;
            assert(!preferred(listing[i]));
        }
    }
}

/// Of the published modes of a head, the one published as current is marked
/// so, and no other.
pub proof fn current_mode_is_the_one_marked(head: PendingHeadView)
    requires
        head.wf(),
    ensures
        ({
            let published = head.snapshot();
            &&& published.modes.len() == head.modes.len()
            &&& forall|i: int|
                0 <= i < published.modes.len() && (#[trigger] published.modes[i]).current
                    ==> published.current_mode == Some(published.modes[i])
            &&& forall|i: int, j: int|
                0 <= i < published.modes.len() && 0 <= j < published.modes.len() && (
                #[trigger] published.modes[i]).current && (#[trigger] published.modes[j]).current
                    ==> i == j
            &&& published.current_mode is Some ==> exists|i: int|
                0 <= i < published.modes.len() && (#[trigger] published.modes[i]).current
        }),
{
    let published = head.snapshot();
    let listing = mode_listing(head.modes);
    lemma_mode_listing(head);
    selected_mode_is_known(head);
    if let Some(id) = head.selected_mode() {
        assert(listing.to_set().contains(id));
        let i = choose|i: int| 0 <= i < listing.len() && listing[i] == id;
        assert(published.modes[i].current);
    }
}

/// The modes of a head are published in the order of width, height, refresh
/// rate and preference, whatever the order in which they were announced.
pub proof fn modes_are_listed_in_order(head: PendingHeadView, i: int, j: int)
    requires
        head.wf(),
        0 <= i < j < mode_listing(head.modes).len(),
    ensures
        ({
            let listing = mode_listing(head.modes);
            &&& mode_le(head.modes[listing[i]], listing[i], head.modes[listing[j]], listing[j])
            &&& listing[i] != listing[j]
        }),
{
    let listing = mode_listing(head.modes);
    lemma_mode_listing(head);
    let leq = mode_order(head.modes);
    assert(leq(listing[i], listing[j]));
}

/// A snapshot holds every head once, and the heads stand in the order of their
/// names.
pub proof fn heads_are_published_in_name_order(collector: CollectorView, serial: u32)
    requires
        collector.wf(),
    ensures
        ({
            let published = collector.snapshot(serial).heads;
            &&& published.len() == collector.heads.len()
            &&& forall|i: int, j: int|
                0 <= i < j < published.len() ==> text::text_le(
                    (#[trigger] published[i]).name,
                    (#[trigger] published[j]).name,
                )
            &&& forall|h: u32| #[trigger]
                collector.heads.contains_key(h) ==> published.contains(
                    collector.heads[h].snapshot(),
                )
        }),
{
    let published = collector.snapshot(serial).heads;
    let listing = head_listing(collector.heads);
    let leq = head_order(collector.heads);
    head_order_is_total(collector.heads);
    order::lemma_listing_elements(collector.heads.dom(), leq);
    assert forall|i: int, j: int| 0 <= i < j < published.len() implies text::text_le(
        (#[trigger] published[i]).name,
        (#[trigger] published[j]).name,
    ) by {
        assert(leq(listing[i], listing[j]));
    }
    assert forall|h: u32| #[trigger] collector.heads.contains_key(h) implies published.contains(
        collector.heads[h].snapshot(),
    ) by {
        assert(listing.to_set().contains(h));
        let i = choose|i: int| 0 <= i < listing.len() && listing[i] == h;
        assert(published[i] == collector.heads[h].snapshot());
    }
}

/// Nothing that is said of heads and modes touches what was already published:
/// snapshots are immutable, and only a `done` adds one, behind all others.
pub proof fn publications_only_grow_by_done(
    collector: CollectorView,
    head_id: u32,
    mode_id: u32,
    next: CollectorView,
)
    requires
        ({
            let ok = Ok::<CollectorView, SnapshotStateErrorView>(next);
            ||| next == collector.note_head(head_id)
            ||| exists|head: PendingHeadView| ok == #[trigger] collector.change_head(head_id, head)
            ||| exists|mode: PendingMode| ok == #[trigger] collector.change_mode(mode_id, mode)
            ||| ok == collector.note_mode(head_id, mode_id)
            ||| ok == collector.finish_head(head_id)
            ||| ok == collector.finish_mode(mode_id)
        }),
    ensures
        next.publications == collector.publications,
{
}

/// Each snapshot comes out as the state was when it was published, in the order
/// of publication, whatever was said of heads and modes in between.
pub proof fn snapshots_keep_their_order(
    collector: CollectorView,
    between: CollectorView,
    first_serial: u32,
    second_serial: u32,
)
    requires
        collector.publications.len() == 0,
        between.publications == collector.publish_done(first_serial).publications,
    ensures
        between.publish_done(second_serial).publications == seq![
            collector.snapshot(first_serial),
            between.snapshot(second_serial),
        ],
{
    assert(between.publish_done(second_serial).publications =~= seq![
        collector.snapshot(first_serial),
        between.snapshot(second_serial),
    ]);
}

/// A head that is gone is unknown, and so is every mode of it.
pub proof fn finished_head_is_forgotten(
    collector: CollectorView,
    next: CollectorView,
    head_id: u32,
    mode_id: u32,
    head: PendingHeadView,
    mode: PendingMode,
)
    requires
        collector.wf(),
        collector.finish_head(head_id) == Ok::<CollectorView, SnapshotStateErrorView>(next),
    ensures
        next.wf(),
        next.change_head(head_id, head) == Err::<CollectorView, SnapshotStateErrorView>(
            SnapshotStateErrorView::UnknownHead(head_id),
        ),
        next.note_mode(head_id, mode_id) == Err::<CollectorView, SnapshotStateErrorView>(
            SnapshotStateErrorView::UnknownHead(head_id),
        ),
        collector.heads[head_id].modes.contains_key(mode_id) ==> next.change_mode(mode_id, mode)
            == Err::<CollectorView, SnapshotStateErrorView>(
            SnapshotStateErrorView::UnknownMode(mode_id),
        ),
{
}

/// A mode that is gone is unknown, and its head no longer has it, nor is
/// driven in it.
pub proof fn finished_mode_is_forgotten(
    collector: CollectorView,
    next: CollectorView,
    mode_id: u32,
    mode: PendingMode,
)
    requires
        collector.wf(),
        collector.finish_mode(mode_id) == Ok::<CollectorView, SnapshotStateErrorView>(next),
    ensures
        next.wf(),
        next.change_mode(mode_id, mode) == Err::<CollectorView, SnapshotStateErrorView>(
            SnapshotStateErrorView::UnknownMode(mode_id),
        ),
        ({
            let head = next.heads[collector.mode_to_head[mode_id]];
            &&& !head.modes.contains_key(mode_id)
            &&& head.current_mode_id != Some(mode_id)
        }),
{
}

/// A head that is switched off is published without position, transform and
/// scale.
pub proof fn disabled_head_has_no_layout(
    collector: CollectorView,
    next: CollectorView,
    head_id: u32,
)
    requires
        collector.set_head_enabled(head_id, false) == Ok::<CollectorView, SnapshotStateErrorView>(
            next,
        ),
    ensures
        ({
            let published = next.heads[head_id].snapshot();
            &&& !published.enabled
            &&& published.position is None
            &&& published.transform is None
            &&& published.scale is None
        }),
{
}

/// Announcing a head or a mode twice is announcing it once.
pub proof fn announcing_twice_is_announcing_once(
    collector: CollectorView,
    head_id: u32,
    mode_id: u32,
)
    ensures
        collector.note_head(head_id).note_head(head_id) == collector.note_head(head_id),
        collector.note_mode(head_id, mode_id) matches Ok(next) ==> next.note_mode(head_id, mode_id)
            == Ok::<CollectorView, SnapshotStateErrorView>(next),
{
    if let Ok(next) = collector.note_mode(head_id, mode_id) {
        if let Ok(again) = next.note_mode(head_id, mode_id) {
            assert(again.heads =~= next.heads);
            assert(again.mode_to_head =~= next.mode_to_head);
            assert(again =~= next);
        }
    }
}

} // verus!
