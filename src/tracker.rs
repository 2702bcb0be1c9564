use vstd::prelude::*;

use crate::glyph::{glyph, keycode_to_string};
use crate::keys::Key;
use crate::keyset::KeySet;

verus! {

/// Whether a key went down or came up.
#[derive(Clone, Copy, Debug, PartialEq, Eq, Structural)]
pub enum EventKind {
    Press,
    Release,
}

/// The name of an event kind on the wire.
pub open spec fn event_kind_name(kind: EventKind) -> Seq<char> {
    match kind {
        EventKind::Press => "press"@,
        EventKind::Release => "release"@,
    }
}

impl EventKind {
    /// The name of this kind on the wire: "press" or "release".
    pub fn as_str(&self) -> (r: &'static str)
        ensures
            r@ == event_kind_name(*self),
    {
        match self {
            EventKind::Press => "press",
            EventKind::Release => "release",
        }
    }
}

/// One key-state transition: the key, the glyph shown for it, and whether it
/// went down or came up.
#[derive(Clone, Debug)]
pub struct KeyEvent {
    pub code: Key,
    pub glyph: String,
    pub kind: EventKind,
}

impl View for KeyEvent {
    type V = (Key, Seq<char>, EventKind);

    open spec fn view(&self) -> (Key, Seq<char>, EventKind) {
        (self.code, self.glyph@, self.kind)
    }
}

/// The views of a sequence of events.
pub open spec fn event_views(events: Seq<KeyEvent>) -> Seq<(Key, Seq<char>, EventKind)> {
    events.map_values(|e: KeyEvent| e@)
}

/// The keys of `from` that are not in `against`, in the order of `from`.
pub open spec fn changed(from: Seq<Key>, against: Set<Key>) -> Seq<Key>
    decreases from.len(),
{
    if from.len() == 0 {
        Seq::empty()
    } else {
        let rest = changed(from.drop_last(), against);
        if against.contains(from.last()) {
            rest
        } else {
            rest.push(from.last())
        }
    }
}

/// One event of kind `kind` for each key of `codes`, in order.
pub open spec fn events_of(codes: Seq<Key>, kind: EventKind, uppercase: bool) -> Seq<
    (Key, Seq<char>, EventKind),
> {
    codes.map_values(|k: Key| (k, glyph(k, uppercase), kind))
}

/// The events of a tick from `prev` to `curr`: a press for each key of `curr`
/// that `prev` lacks, then a release for each key of `prev` that `curr`
/// lacks, all with the same letter case.
pub open spec fn tick_events(prev: Seq<Key>, curr: Seq<Key>, uppercase: bool) -> Seq<
    (Key, Seq<char>, EventKind),
> {
    events_of(changed(curr, prev.to_set()), EventKind::Press, uppercase) + events_of(
        changed(prev, curr.to_set()),
        EventKind::Release,
        uppercase,
    )
}

/// Caps lock flips when it goes down and at no other time.
pub open spec fn next_caps_lock(on: bool, prev: Set<Key>, curr: Set<Key>) -> bool {
    if curr.contains(Key::CapsLock) && !prev.contains(Key::CapsLock) {
        !on
    } else {
        on
    }
}

/// Whether either shift key is held.
pub open spec fn shift_held(keys: Set<Key>) -> bool {
    keys.contains(Key::LShift) || keys.contains(Key::RShift)
}

/// Letters show upper case while shift is held or caps lock is on.
pub open spec fn uppercase_of(shift: bool, caps_lock_on: bool) -> bool {
    shift || caps_lock_on
}

/// One event for each key of `from` that `against` lacks, in the order of
/// `from`.
pub fn changed_events(from: &KeySet, against: &KeySet, kind: EventKind, uppercase: bool) -> (r:
    Vec<KeyEvent>)
    ensures
        event_views(r@) == events_of(changed(from.elems(), against@), kind, uppercase),
{
    let n = from.len();
    let mut out: Vec<KeyEvent> = Vec::new();
    let mut i: usize = 0;
    while i < n
        invariant
            n == from.elems().len(),
            0 <= i <= n,
            event_views(out@) == events_of(
                changed(from.elems().subrange(0, i as int), against@),
                kind,
                uppercase,
            ),
        decreases n - i,
    {
        let key = from.get(i);
        let ghost before = from.elems().subrange(0, i as int);
        let ghost after = from.elems().subrange(0, i + 1);
        assert(after.drop_last() =~= before);
        assert(after.last() == key);
        if !against.contains(&key) {
            let g = keycode_to_string(&key, uppercase);
            let ev = KeyEvent { code: key, glyph: g, kind };
            let ghost old_out = out@;
            out.push(ev);
            assert(event_views(out@) =~= event_views(old_out).push(ev@));
            assert(events_of(changed(after, against@), kind, uppercase) =~= events_of(
                changed(before, against@),
                kind,
                uppercase,
            ).push(ev@));
        }
        i += 1;
    }
    assert(from.elems().subrange(0, n as int) =~= from.elems());
    out
}

/// Whether `events` holds an event of kind `kind` for key `k`.
pub open spec fn has_event(events: Seq<(Key, Seq<char>, EventKind)>, k: Key, kind: EventKind) -> bool {
    exists|i: int| 0 <= i < events.len() && #[trigger] events[i].0 == k && events[i].2 == kind
}

/// No key has two events of the same kind in `events`.
pub open spec fn at_most_once(events: Seq<(Key, Seq<char>, EventKind)>) -> bool {
    forall|i: int, j: int|
        0 <= i < events.len() && 0 <= j < events.len() && #[trigger] events[i].0 == #[trigger] events[j].0
            && events[i].2 == events[j].2 ==> i == j
}

/// What `changed` keeps: the keys of `from` outside `against`, each once.
proof fn lemma_changed(from: Seq<Key>, against: Set<Key>)
    requires
        from.no_duplicates(),
    ensures
        changed(from, against).no_duplicates(),
        forall|k: Key| #[trigger]
            changed(from, against).contains(k) <==> from.contains(k) && !against.contains(k),
    decreases from.len(),
{
    broadcast use vstd::seq_lib::group_seq_properties;

    if from.len() > 0 {
        let init = from.drop_last();
        let last = from.last();
        let rest = changed(init, against);
        assert(init.no_duplicates());
        lemma_changed(init, against);
        assert(from =~= init.push(last));
        assert(!init.contains(last)) by {
            if init.contains(last) {
                let j = choose|j: int| 0 <= j < init.len() && init[j] == last;
                assert(from[j] == from[from.len() - 1]);
            }
        }
        assert forall|k: Key| #[trigger] from.contains(k) <==> init.contains(k) || k == last by {}
        if !against.contains(last) {
            let c = rest.push(last);
            assert(!rest.contains(last));
            assert forall|i: int, j: int| 0 <= i < c.len() && 0 <= j < c.len() && i != j implies c[i]
                != c[j] by {
                if i < rest.len() && j == rest.len() {
                    assert(rest.contains(c[i]));
                } else if j < rest.len() && i == rest.len() {
                    assert(rest.contains(c[j]));
                }
            }
        }
    } else {
        assert(changed(from, against) =~= Seq::<Key>::empty());
    }
}

/// Each tick gives a press for exactly the keys that went down and a
/// release for exactly the keys that came up, and no key gets two events of
/// one kind.
pub proof fn law_events_match_difference(prev: KeySet, curr: KeySet, uppercase: bool)
    requires
        prev.wf(),
        curr.wf(),
    ensures
        forall|k: Key|
            has_event(tick_events(prev.elems(), curr.elems(), uppercase), k, EventKind::Press)
                <==> curr@.contains(k) && !prev@.contains(k),
        forall|k: Key|
            has_event(tick_events(prev.elems(), curr.elems(), uppercase), k, EventKind::Release)
                <==> prev@.contains(k) && !curr@.contains(k),
        at_most_once(tick_events(prev.elems(), curr.elems(), uppercase)),
{
    let down = changed(curr.elems(), prev@);
    let up = changed(prev.elems(), curr@);
    lemma_changed(curr.elems(), prev@);
    lemma_changed(prev.elems(), curr@);
    let presses = events_of(down, EventKind::Press, uppercase);
    let releases = events_of(up, EventKind::Release, uppercase);
    let ev = tick_events(prev.elems(), curr.elems(), uppercase);
    assert(ev == presses + releases);
    assert forall|i: int| 0 <= i < ev.len() implies (i < down.len() ==> ev[i] == (
        down[i],
        glyph(down[i], uppercase),
        EventKind::Press,
    )) && (i >= down.len() ==> ev[i] == (
        up[i - down.len()],
        glyph(up[i - down.len()], uppercase),
        EventKind::Release,
    )) by {}
    assert forall|k: Key| has_event(ev, k, EventKind::Press) <==> curr@.contains(k) && !prev@.contains(k) by {
        if has_event(ev, k, EventKind::Press) {
            let i = choose|i: int| 0 <= i < ev.len() && #[trigger] ev[i].0 == k && ev[i].2 == EventKind::Press;
            assert(down[i] == k);
            assert(down.contains(k));
        }
        if curr@.contains(k) && !prev@.contains(k) {
            assert(down.contains(k));
            let i = choose|i: int| 0 <= i < down.len() && down[i] == k;
            assert(ev[i].0 == k && ev[i].2 == EventKind::Press);
        }
    }
    assert forall|k: Key| has_event(ev, k, EventKind::Release) <==> prev@.contains(k) && !curr@.contains(k) by {
        if has_event(ev, k, EventKind::Release) {
            let i = choose|i: int| 0 <= i < ev.len() && #[trigger] ev[i].0 == k && ev[i].2 == EventKind::Release;
            assert(up[i - down.len()] == k);
            assert(up.contains(k));
        }
        if prev@.contains(k) && !curr@.contains(k) {
            assert(up.contains(k));
            let j = choose|j: int| 0 <= j < up.len() && up[j] == k;
            assert(ev[j + down.len()].0 == k && ev[j + down.len()].2 == EventKind::Release);
        }
    }
    assert forall|i: int, j: int|
        0 <= i < ev.len() && 0 <= j < ev.len() && #[trigger] ev[i].0 == #[trigger] ev[j].0
            && ev[i].2 == ev[j].2 implies i == j by {
        if i < down.len() && j >= down.len() {
            assert(ev[i].2 != ev[j].2);
        } else if i >= down.len() && j < down.len() {
            assert(ev[i].2 != ev[j].2);
        }
    }
}

/// The caps-lock state after a run of ticks, starting from `on` with `prev`
/// held.
pub open spec fn caps_lock_after(on: bool, prev: Set<Key>, ticks: Seq<Set<Key>>) -> bool
    decreases ticks.len(),
{
    if ticks.len() == 0 {
        on
    } else {
        caps_lock_after(next_caps_lock(on, prev, ticks[0]), ticks[0], ticks.drop_first())
    }
}

/// Caps lock flips exactly when it goes down: not while it is held, not when
/// it comes up.
pub proof fn law_caps_lock_edge(on: bool, prev: Set<Key>, curr: Set<Key>)
    ensures
        (next_caps_lock(on, prev, curr) != on) <==> (curr.contains(Key::CapsLock) && !prev.contains(
            Key::CapsLock,
        )),
{
}

/// Holding caps lock down over any run of ticks flips it at most once: the
/// state after the whole run is the state after its first tick.
pub proof fn law_caps_lock_held(on: bool, prev: Set<Key>, ticks: Seq<Set<Key>>)
    requires
        ticks.len() > 0,
        forall|i: int| 0 <= i < ticks.len() ==> #[trigger] ticks[i].contains(Key::CapsLock),
    ensures
        caps_lock_after(on, prev, ticks) == next_caps_lock(on, prev, ticks[0]),
{
    lemma_caps_lock_stays(next_caps_lock(on, prev, ticks[0]), ticks[0], ticks.drop_first());
}

/// While caps lock stays down its state does not change.
proof fn lemma_caps_lock_stays(on: bool, prev: Set<Key>, ticks: Seq<Set<Key>>)
    requires
        prev.contains(Key::CapsLock),
        forall|i: int| 0 <= i < ticks.len() ==> #[trigger] ticks[i].contains(Key::CapsLock),
    ensures
        caps_lock_after(on, prev, ticks) == on,
    decreases ticks.len(),
{
    if ticks.len() > 0 {
        assert(ticks[0].contains(Key::CapsLock));
        lemma_caps_lock_stays(on, ticks[0], ticks.drop_first());
    }
}

/// The key-state diff loop's state: the keys held at the previous tick and
/// whether caps lock is on.
pub struct KeyTracker {
    prev: KeySet,
    caps_lock_on: bool,
}

impl KeyTracker {
    /// The keys held at the previous tick.
    pub closed spec fn previous(&self) -> KeySet {
        self.prev
    }

    /// Whether caps lock is on.
    pub closed spec fn caps_lock(&self) -> bool {
        self.caps_lock_on
    }

    pub open spec fn wf(&self) -> bool {
        self.previous().wf()
    }

    /// A tracker that has seen no key and has caps lock off.
    pub fn new() -> (r: KeyTracker)
        ensures
            r.wf(),
            r.previous().elems() == Seq::<Key>::empty(),
            !r.caps_lock(),
    {
        KeyTracker { prev: KeySet::new(), caps_lock_on: false }
    }

    /// Whether caps lock is on.
    pub fn caps_lock_on(&self) -> (r: bool)
        ensures
            r == self.caps_lock(),
    {
        self.caps_lock_on
    }

    /// Takes the keys held now: flips caps lock if it has just gone down,
    /// and returns the presses of the keys that have gone down and then the
    /// releases of those that have come up, all cased by whether shift is
    /// held now or caps lock is on. `curr` becomes the previous key set.
    pub fn tick(&mut self, curr: KeySet) -> (r: Vec<KeyEvent>)
        requires
            old(self).wf(),
            curr.wf(),
        ensures
            final(self).wf(),
            final(self).previous() == curr,
            final(self).caps_lock() == next_caps_lock(
                old(self).caps_lock(),
                old(self).previous()@,
                curr@,
            ),
            event_views(r@) == tick_events(
                old(self).previous().elems(),
                curr.elems(),
                uppercase_of(shift_held(curr@), final(self).caps_lock()),
            ),
    {
        if curr.contains(&Key::CapsLock) && !self.prev.contains(&Key::CapsLock) {
            self.caps_lock_on = !self.caps_lock_on;
        }
        let shift = curr.contains(&Key::LShift) || curr.contains(&Key::RShift);
        let uppercase = shift || self.caps_lock_on;
        let mut events = changed_events(&curr, &self.prev, EventKind::Press, uppercase);
        let mut releases = changed_events(&self.prev, &curr, EventKind::Release, uppercase);
        let ghost presses_v = events@;
        let ghost releases_v = releases@;
        events.append(&mut releases);
        assert(event_views(events@) =~= event_views(presses_v) + event_views(releases_v));
        self.prev = curr;
        events
    }
}

} // verus!
