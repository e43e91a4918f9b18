//! The synchronization hub: one current display state value, replaced
//! atomically by the single writer and observed by any number of readers
//! through coalescing, latest-value-wins subscriptions.

use vstd::prelude::*;

verus! {

/// One key/value pair of display content. The hub carries content opaquely.
#[derive(Debug, PartialEq, Eq)]
pub struct ContentEntry {
    pub key: String,
    pub value: String,
}

impl Clone for ContentEntry {
    fn clone(&self) -> (r: Self)
        ensures
            r == *self,
    {
        ContentEntry { key: self.key.clone(), value: self.value.clone() }
    }
}

/// The single shared display state: an identifier, opaque content pairs and
/// an optional slide type reference.
#[derive(Debug, PartialEq, Eq)]
pub struct DisplayState {
    pub id: String,
    pub content: Vec<ContentEntry>,
    pub slide_type_id: Option<u128>,
}

/// The mathematical value of a display state.
#[verifier::ext_equal]
pub struct StateView {
    pub id: Seq<char>,
    pub content: Seq<(Seq<char>, Seq<char>)>,
    pub slide_type_id: Option<u128>,
}

impl View for DisplayState {
    type V = StateView;

    open spec fn view(&self) -> StateView {
        StateView {
            id: self.id@,
            content: Seq::new(
                self.content@.len(),
                |i: int| (self.content@[i].key@, self.content@[i].value@),
            ),
            slide_type_id: self.slide_type_id,
        }
    }
}

/// The empty display state every hub starts from.
pub open spec fn empty_state_view() -> StateView {
    StateView { id: Seq::empty(), content: Seq::empty(), slide_type_id: None }
}

impl DisplayState {
    pub fn new() -> (r: Self)
        ensures
            r@ == empty_state_view(),
    {
        let r = DisplayState { id: String::new(), content: Vec::new(), slide_type_id: None };
        proof {
            assert(r@ =~= empty_state_view());
        }
        r
    }
}

impl Clone for DisplayState {
    fn clone(&self) -> (r: Self)
        ensures
            r@ == self@,
    {
        let mut content: Vec<ContentEntry> = Vec::new();
        let n = self.content.len();
        let mut k: usize = 0;
        while k < n
            invariant
                n == self.content@.len(),
                k <= n,
                content@.len() == k,
                forall|i: int| 0 <= i < k ==> content@[i] == self.content@[i],
            decreases n - k,
        {
            content.push(self.content[k].clone());
            k += 1;
        }
        let r = DisplayState { id: self.id.clone(), content, slide_type_id: self.slide_type_id };
        proof {
            assert(r.content@ =~= self.content@);
            assert(r@ =~= self@);
        }
        r
    }
}

impl Default for DisplayState {
    fn default() -> (r: Self)
        ensures
            r@ == empty_state_view(),
    {
        DisplayState::new()
    }
}

/// The hub: the current state and a version counter that ticks once per
/// replacement, so a subscriber can tell whether it already observed the
/// latest value.
pub struct Hub {
    pub current: DisplayState,
    pub version: u64,
}

/// The hub value after a replacement.
pub open spec fn spec_replace(h: Hub, value: DisplayState) -> Hub {
    Hub { current: value, version: (h.version + 1) as u64 }
}

/// What a subscriber's poll yields: the latest value exactly when the
/// subscriber has not observed it yet, never a queue of history.
pub open spec fn spec_poll(s: Subscriber, h: Hub) -> Option<StateView> {
    if s.seen != h.version {
        Some(h.current@)
    } else {
        None
    }
}

impl Hub {
    /// A hub holding the empty state.
    pub fn new() -> (r: Self)
        ensures
            r.current@ == empty_state_view(),
            r.version == 0,
    {
        Hub { current: DisplayState::new(), version: 0 }
    }

    /// A snapshot of the current state; never blocks, changes nothing.
    pub fn current(&self) -> (r: DisplayState)
        ensures
            r@ == self.current@,
    {
        self.current.clone()
    }

    /// Atomically replaces the current state and notifies all subscribers
    /// by advancing the version.
    pub fn replace(&mut self, value: DisplayState)
        requires
            old(self).version < u64::MAX,
        ensures
            *final(self) == spec_replace(*old(self), value),
            final(self).current == value,
            final(self).version == old(self).version + 1,
    {
        self.current = value;
        self.version = self.version + 1;
    }

    /// A new subscription; it has observed the current value, so it yields
    /// only changes published after this point.
    pub fn subscribe(&self) -> (r: Subscriber)
        ensures
            r.seen == self.version,
    {
        Subscriber { seen: self.version }
    }
}

/// A change-notification handle: remembers the last hub version observed.
pub struct Subscriber {
    pub seen: u64,
}

impl Subscriber {
    /// Yields the latest state exactly when it has not been observed yet
    /// (coalescing: intermediate values missed while away are never
    /// delivered), and records the observation.
    pub fn poll(&mut self, hub: &Hub) -> (r: Option<DisplayState>)
        ensures
            final(self).seen == hub.version,
            match r {
                Some(v) => old(self).seen != hub.version && v@ == hub.current@,
                None => old(self).seen == hub.version,
            },
            r is Some <==> spec_poll(*old(self), *hub) is Some,
            match (r, spec_poll(*old(self), *hub)) {
                (Some(v), Some(w)) => v@ == w,
                (None, None) => true,
                _ => false,
            },
    {
        if self.seen != hub.version {
            self.seen = hub.version;
            Some(hub.current.clone())
        } else {
            None
        }
    }
}

/// Two replacements in quick succession are serialized by the hub's single
/// writer: the state afterwards is exactly one of the two published values
/// (the later one), never a mixture, and every subscriber that still has an
/// observation outstanding is handed exactly that value, so all observers
/// converge on it.
pub proof fn lemma_serialized_replacements_converge(h: Hub, a: DisplayState, b: DisplayState)
    requires
        h.version + 2 <= u64::MAX,
    ensures
        ({
            let h2 = spec_replace(spec_replace(h, a), b);
            &&& h2.current == b
            &&& h2.current == a || h2.current == b
            &&& forall|s: Subscriber|
                s.seen != h2.version ==> spec_poll(s, h2) == Some(b@)
        }),
{
}

} // verus!
