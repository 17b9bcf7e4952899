//! Deferred destruction of replaced GPU objects.
//!
//! The GPU runs behind the host: when an object is replaced, frames that
//! were recorded against the old one may not have run yet. The old object
//! is therefore retired, not freed, and it is freed only when every pass
//! recorded against it has completed.

use vstd::prelude::*;

verus! {

/// A replaced object that may still be in use.
#[derive(Clone, Copy, Debug, PartialEq, Eq, Structural)]
pub struct Retired {
    /// Which object: the number of replacements before it came to be.
    pub generation: u64,
    /// Passes recorded against it that have not completed.
    pub in_flight: u64,
}

/// What a [`Generations`] holds, as mathematics.
pub ghost struct GenerationsView {
    pub current: u64,
    pub in_flight: u64,
    pub retired: Seq<Retired>,
}

/// The successive objects of one kind, of which the last is current: which
/// of them still live and how many recorded passes use each.
#[derive(Debug)]
pub struct Generations {
    current: u64,
    in_flight: u64,
    retired: Vec<Retired>,
}

impl View for Generations {
    type V = GenerationsView;

    closed spec fn view(&self) -> GenerationsView {
        GenerationsView {
            current: self.current,
            in_flight: self.in_flight,
            retired: self.retired@,
        }
    }
}

/// The invariant: retired objects are older than the current one and stand
/// oldest first, so none is listed twice.
pub open spec fn generations_well_formed(v: GenerationsView) -> bool {
    &&& forall|i: int| 0 <= i < v.retired.len() ==> (#[trigger] v.retired[i]).generation < v.current
    &&& forall|i: int, j: int|
        0 <= i < j < v.retired.len() ==> (#[trigger] v.retired[i]).generation < (
        #[trigger] v.retired[j]).generation
}

/// Whether the object of generation `g` was replaced and has not been freed.
pub open spec fn is_retired(v: GenerationsView, g: u64) -> bool {
    exists|i: int| 0 <= i < v.retired.len() && (#[trigger] v.retired[i]).generation == g
}

/// The place of the object of generation `g` among the retired ones.
pub open spec fn retired_at(v: GenerationsView, g: u64) -> int {
    choose|i: int| 0 <= i < v.retired.len() && (#[trigger] v.retired[i]).generation == g
}

/// Whether the object of generation `g` has not been freed.
pub open spec fn is_live(v: GenerationsView, g: u64) -> bool {
    g == v.current || is_retired(v, g)
}

/// Passes recorded against generation `g` that have not completed; 0 for an
/// object that is not live.
pub open spec fn uses_in_flight(v: GenerationsView, g: u64) -> u64 {
    if g == v.current {
        v.in_flight
    } else if is_retired(v, g) {
        v.retired[retired_at(v, g)].in_flight
    } else {
        0
    }
}

/// In a well-formed state the uses of a retired object are those of its
/// entry.
pub proof fn lemma_uses_of_retired(v: GenerationsView, i: int)
    requires
        generations_well_formed(v),
        0 <= i < v.retired.len(),
    ensures
        is_live(v, v.retired[i].generation),
        uses_in_flight(v, v.retired[i].generation) == v.retired[i].in_flight,
{
    let g = v.retired[i].generation;
    let j = retired_at(v, g);
    if j < i {
        assert(v.retired[j].generation < v.retired[i].generation);
    } else if i < j {
        assert(v.retired[i].generation < v.retired[j].generation);
    }
}

/// The state after the current object is replaced.
pub open spec fn spec_replace(v: GenerationsView) -> GenerationsView {
    GenerationsView {
        current: (v.current + 1) as u64,
        in_flight: 0,
        retired: v.retired.push(Retired { generation: v.current, in_flight: v.in_flight }),
    }
}

/// The state after the retired objects without uses are freed.
pub open spec fn spec_release(v: GenerationsView) -> GenerationsView {
    GenerationsView { retired: v.retired.filter(|r: Retired| r.in_flight > 0), ..v }
}

/// Replacing frees nothing. Every object that lived before the replacement
/// lives after it, with the uses that it had; so whatever was recorded
/// against the old object runs on an object that is still there. The new
/// object is live and unused.
pub proof fn lemma_replace_keeps_live(v: GenerationsView, g: u64)
    requires
        generations_well_formed(v),
        v.current < u64::MAX,
        is_live(v, g),
    ensures
        is_live(spec_replace(v), g),
        uses_in_flight(spec_replace(v), g) == uses_in_flight(v, g),
        is_live(spec_replace(v), spec_replace(v).current),
        uses_in_flight(spec_replace(v), spec_replace(v).current) == 0,
        !is_live(v, spec_replace(v).current),
{
    let w = spec_replace(v);
    assert(generations_well_formed(w)) by {
        assert forall|i: int| 0 <= i < w.retired.len() implies (#[trigger] w.retired[i]).generation
            < w.current by {
            if i < v.retired.len() {
                assert(w.retired[i] == v.retired[i]);
            }
        }
        assert forall|i: int, j: int| 0 <= i < j < w.retired.len() implies (
        #[trigger] w.retired[i]).generation < (#[trigger] w.retired[j]).generation by {
            assert(w.retired[i] == v.retired[i]);
            if j < v.retired.len() {
                assert(w.retired[j] == v.retired[j]);
            }
        }
    }
    if g == v.current {
        let last = v.retired.len() as int;
        assert(w.retired[last].generation == g);
        lemma_uses_of_retired(w, last);
    } else {
        let i = retired_at(v, g);
        assert(w.retired[i] == v.retired[i]);
        lemma_uses_of_retired(v, i);
        lemma_uses_of_retired(w, i);
    }
    if is_live(v, w.current) {
        let i = retired_at(v, w.current);
        assert(v.retired[i].generation < v.current);
    }
}

/// Releasing frees no object in use and never the current one: an object
/// lives after the release exactly if it lived before and is current or
/// has a pass outstanding, and its uses are what they were.
pub proof fn lemma_release_spares_used(v: GenerationsView, g: u64)
    requires
        generations_well_formed(v),
    ensures
        is_live(spec_release(v), g) <==> is_live(v, g) && (g == v.current || uses_in_flight(v, g)
            > 0),
        is_live(spec_release(v), g) ==> uses_in_flight(spec_release(v), g) == uses_in_flight(v, g),
{
    let keep = |r: Retired| r.in_flight > 0;
    let w = spec_release(v);
    lemma_filter_keeps_order(v, keep);
    if g != v.current {
        if is_live(w, g) {
            let k = retired_at(w, g);
            let i = lemma_filter_from(v.retired, keep, k);
            v.retired.lemma_filter_pred(keep, k);
            assert(v.retired[i].generation == g);
            lemma_uses_of_retired(v, i);
            lemma_uses_of_retired(w, k);
        }
        if is_live(v, g) && uses_in_flight(v, g) > 0 {
            let i = retired_at(v, g);
            lemma_uses_of_retired(v, i);
            v.retired.lemma_filter_contains_rev(keep, v.retired[i]);
            let k = choose|k: int| 0 <= k < w.retired.len() && w.retired[k] == v.retired[i];
            assert(w.retired[k].generation == g);
        }
    }
}

impl Generations {
    /// The first object, unused so far.
    pub fn new() -> (r: Generations)
        ensures
            r@ == (GenerationsView { current: 0, in_flight: 0, retired: Seq::empty() }),
            generations_well_formed(r@),
    {
        Generations { current: 0, in_flight: 0, retired: Vec::new() }
    }

    /// Generation of the current object.
    pub fn current(&self) -> (r: u64)
        ensures
            r == self@.current,
    {
        self.current
    }

    /// Passes recorded against the current object that have not completed.
    pub fn in_flight(&self) -> (r: u64)
        ensures
            r == self@.in_flight,
    {
        self.in_flight
    }

    /// The replaced objects that have not been freed, oldest first.
    pub fn retired(&self) -> (r: &Vec<Retired>)
        ensures
            r@ == self@.retired,
    {
        &self.retired
    }

    /// Executable form of [`is_live`].
    pub fn is_live(&self, generation: u64) -> (r: bool)
        ensures
            r == is_live(self@, generation),
    {
        if generation == self.current {
            return true;
        }
        let mut i: usize = 0;
        while i < self.retired.len()
            invariant
                i <= self.retired.len(),
                forall|j: int|
                    0 <= j < i ==> (#[trigger] self.retired@[j]).generation != generation,
            decreases self.retired.len() - i,
        {
            if self.retired[i].generation == generation {
                assert(self@.retired[i as int].generation == generation);
                return true;
            }
            i += 1;
        }
        false
    }

    /// Notes that a pass was recorded against the current object.
    pub fn record_use(&mut self)
        requires
            old(self)@.in_flight < u64::MAX,
        ensures
            final(self)@ == (GenerationsView {
                in_flight: (old(self)@.in_flight + 1) as u64,
                ..old(self)@
            }),
    {
        self.in_flight = self.in_flight + 1;
    }

    /// Replaces the current object by a new one. The old one is retired with
    /// the uses it has; it is not freed here, whether it is in use or not.
    pub fn replace(&mut self)
        requires
            generations_well_formed(old(self)@),
            old(self)@.current < u64::MAX,
        ensures
            generations_well_formed(final(self)@),
            final(self)@ == spec_replace(old(self)@),
    {
        self.retired.push(Retired { generation: self.current, in_flight: self.in_flight });
        self.current = self.current + 1;
        self.in_flight = 0;
        proof {
            let a = old(self)@;
            let b = self@;
            assert forall|i: int| 0 <= i < b.retired.len() implies (
            #[trigger] b.retired[i]).generation < b.current by {
                if i < a.retired.len() {
                    assert(b.retired[i] == a.retired[i]);
                }
            }
            assert forall|i: int, j: int| 0 <= i < j < b.retired.len() implies (
            #[trigger] b.retired[i]).generation < (#[trigger] b.retired[j]).generation by {
                assert(b.retired[i] == a.retired[i]);
                if j < a.retired.len() {
                    assert(b.retired[j] == a.retired[j]);
                }
            }
        }
    }

    /// Notes that one pass recorded against `generation` has completed.
    /// Returns whether such a pass was outstanding; if none was, nothing
    /// changes.
    pub fn complete(&mut self, generation: u64) -> (r: bool)
        requires
            generations_well_formed(old(self)@),
        ensures
            generations_well_formed(final(self)@),
            r == (uses_in_flight(old(self)@, generation) > 0),
            !r ==> final(self)@ == old(self)@,
            final(self)@.current == old(self)@.current,
            final(self)@.retired.len() == old(self)@.retired.len(),
            forall|g: u64| is_live(final(self)@, g) == is_live(old(self)@, g),
            forall|g: u64|
                uses_in_flight(final(self)@, g) == if r && g == generation {
                    (uses_in_flight(old(self)@, g) - 1) as u64
                } else {
                    uses_in_flight(old(self)@, g)
                },
    {
        if generation == self.current {
            if self.in_flight == 0 {
                return false;
            }
            self.in_flight = self.in_flight - 1;
            proof {
                let a = old(self)@;
                let b = self@;
                assert(b.retired == a.retired);
                assert forall|g: u64| uses_in_flight(b, g) == if g == generation {
                    (uses_in_flight(a, g) - 1) as u64
                } else {
                    uses_in_flight(a, g)
                } by {}
            }
            return true;
        }
        let mut i: usize = 0;
        while i < self.retired.len()
            invariant
                i <= self.retired.len(),
                self@ == old(self)@,
                generations_well_formed(self@),
                generation != self@.current,
                forall|j: int|
                    0 <= j < i ==> (#[trigger] self.retired@[j]).generation != generation,
            decreases self.retired.len() - i,
        {
            let entry = self.retired[i];
            if entry.generation == generation {
                proof {
                    lemma_uses_of_retired(self@, i as int);
                }
                if entry.in_flight == 0 {
                    return false;
                }
                self.retired.set(i, Retired { generation, in_flight: entry.in_flight - 1 });
                proof {
                    let a = old(self)@;
                    let b = self@;
                    assert forall|k: int| 0 <= k < b.retired.len() implies (
                    #[trigger] b.retired[k]).generation == a.retired[k].generation by {}
                    assert(generations_well_formed(b));
                    assert forall|g: u64| is_live(b, g) == is_live(a, g) by {
                        if is_live(a, g) && g != a.current {
                            let k = retired_at(a, g);
                            assert(b.retired[k].generation == g);
                        }
                        if is_live(b, g) && g != b.current {
                            let k = retired_at(b, g);
                            assert(a.retired[k].generation == g);
                        }
                    }
                    assert forall|g: u64| uses_in_flight(b, g) == if g == generation {
                        (uses_in_flight(a, g) - 1) as u64
                    } else {
                        uses_in_flight(a, g)
                    } by {
                        if g != a.current && is_live(a, g) {
                            let k = retired_at(a, g);
                            lemma_uses_of_retired(a, k);
                            lemma_uses_of_retired(b, k);
                        }
                    }
                }
                return true;
            }
            i += 1;
        }
        false
    }

    /// Frees the retired objects that no outstanding pass uses and returns
    /// their generations, oldest first. Objects in use stay retired; the
    /// current object stays current.
    pub fn release(&mut self) -> (freed: Vec<u64>)
        requires
            generations_well_formed(old(self)@),
        ensures
            generations_well_formed(final(self)@),
            final(self)@ == spec_release(old(self)@),
            freed@ == old(self)@.retired.filter(|r: Retired| r.in_flight == 0).map_values(
                |r: Retired| r.generation,
            ),
    {
        let ghost before = self.retired@;
        let ghost in_use = |r: Retired| r.in_flight > 0;
        let ghost unused = |r: Retired| r.in_flight == 0;
        let ghost generation_of = |r: Retired| r.generation;
        let mut kept: Vec<Retired> = Vec::new();
        let mut freed: Vec<u64> = Vec::new();
        let mut i: usize = 0;
        while i < self.retired.len()
            invariant
                i <= self.retired.len(),
                self@ == old(self)@,
                before == self.retired@,
                in_use == |r: Retired| r.in_flight > 0,
                unused == |r: Retired| r.in_flight == 0,
                generation_of == |r: Retired| r.generation,
                kept@ == before.take(i as int).filter(in_use),
                freed@ == before.take(i as int).filter(unused).map_values(generation_of),
            decreases self.retired.len() - i,
        {
            let entry = self.retired[i];
            proof {
                let prefix = before.take(i as int);
                assert(before.take(i + 1) == prefix.push(entry));
                lemma_filter_push(prefix, entry, in_use);
                lemma_filter_push(prefix, entry, unused);
            }
            if entry.in_flight > 0 {
                kept.push(entry);
            } else {
                freed.push(entry.generation);
                assert(freed@ =~= before.take(i + 1).filter(unused).map_values(generation_of));
            }
            i += 1;
        }
        assert(before.take(i as int) == before);
        proof {
            lemma_filter_keeps_order(old(self)@, in_use);
        }
        self.retired = kept;
        freed
    }
}

/// Filtering a sequence with one more element at its end.
proof fn lemma_filter_push(s: Seq<Retired>, r: Retired, keep: spec_fn(Retired) -> bool)
    ensures
        s.push(r).filter(keep) == if keep(r) {
            s.filter(keep).push(r)
        } else {
            s.filter(keep)
        },
{
    reveal(Seq::filter);
    assert(s.push(r).drop_last() == s);
}

/// Every element of a filtered sequence comes from the sequence, and a
/// later one comes from a later place.
proof fn lemma_filter_from(s: Seq<Retired>, keep: spec_fn(Retired) -> bool, k: int) -> (i: int)
    requires
        0 <= k < s.filter(keep).len(),
    ensures
        k <= i < s.len(),
        s[i] == s.filter(keep)[k],
        s.take(i).filter(keep).len() == k,
    decreases s.len(),
{
    reveal(Seq::filter);
    let head = s.drop_last();
    lemma_filter_push(head, s.last(), keep);
    assert(head.push(s.last()) == s);
    if keep(s.last()) && k == head.filter(keep).len() {
        assert(s.take(s.len() - 1) == head);
        s.len() - 1
    } else {
        let i = lemma_filter_from(head, keep, k);
        assert(s.take(i) == head.take(i));
        i
    }
}

/// What is left of a well-formed state after some retired objects are
/// dropped is well formed.
proof fn lemma_filter_keeps_order(v: GenerationsView, keep: spec_fn(Retired) -> bool)
    requires
        generations_well_formed(v),
    ensures
        generations_well_formed(GenerationsView { retired: v.retired.filter(keep), ..v }),
{
    let f = v.retired.filter(keep);
    assert forall|a: int| 0 <= a < f.len() implies (#[trigger] f[a]).generation < v.current by {
        let i = lemma_filter_from(v.retired, keep, a);
        assert(v.retired[i].generation < v.current);
    }
    assert forall|a: int, b: int| 0 <= a < b < f.len() implies (#[trigger] f[a]).generation < (
    #[trigger] f[b]).generation by {
        let i = lemma_filter_from(v.retired, keep, a);
        let j = lemma_filter_from(v.retired, keep, b);
        if j <= i {
            lemma_filter_len_monotone(v.retired, keep, j, i);
        }
        assert(v.retired[i].generation < v.retired[j].generation);
    }
}

/// A longer prefix keeps at least as many elements, and one more if it
/// ends behind a kept element that the shorter one ends at.
proof fn lemma_filter_len_monotone(s: Seq<Retired>, keep: spec_fn(Retired) -> bool, j: int, i: int)
    requires
        0 <= j <= i <= s.len(),
    ensures
        s.take(j).filter(keep).len() <= s.take(i).filter(keep).len(),
    decreases i - j,
{
    if j < i {
        lemma_filter_len_monotone(s, keep, j, i - 1);
        assert(s.take(i) == s.take(i - 1).push(s[i - 1]));
        lemma_filter_push(s.take(i - 1), s[i - 1], keep);
    }
}

} // verus!
