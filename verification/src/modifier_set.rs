//! The set of currently held modifier keys, kept as display labels in the
//! order in which they were first pressed.

use vstd::prelude::*;

verus! {

/// No label occurs twice: the sequence behaves as a set that remembers
/// insertion order.
pub open spec fn distinct_labels(s: Seq<Seq<char>>) -> bool {
    forall|i: int, j: int| 0 <= i < j < s.len() ==> s[i] != s[j]
}

/// Pressing a label that is already held changes nothing; otherwise the
/// label is appended, keeping insertion order.
pub open spec fn spec_press(s: Seq<Seq<char>>, label: Seq<char>) -> Seq<Seq<char>> {
    if s.contains(label) {
        s
    } else {
        s.push(label)
    }
}

/// Releasing a label removes every occurrence of it and keeps the other
/// labels in order.
pub open spec fn spec_release(s: Seq<Seq<char>>, label: Seq<char>) -> Seq<Seq<char>>
    decreases s.len(),
{
    if s.len() == 0 {
        Seq::empty()
    } else {
        let rest = spec_release(s.drop_last(), label);
        if s.last() == label {
            rest
        } else {
            rest.push(s.last())
        }
    }
}

/// Appending one label on the right commutes with a release.
pub proof fn lemma_release_push(s: Seq<Seq<char>>, x: Seq<char>, label: Seq<char>)
    ensures
        spec_release(s.push(x), label) == (if x == label {
            spec_release(s, label)
        } else {
            spec_release(s, label).push(x)
        }),
{
    assert(s.push(x).drop_last() =~= s);
    assert(s.push(x).last() == x);
}

/// After a release the set holds only labels it held before, and never
/// the released label itself.
pub proof fn lemma_release_contains(s: Seq<Seq<char>>, label: Seq<char>, m: Seq<char>)
    ensures
        spec_release(s, label).contains(m) ==> (s.contains(m) && m != label),
    decreases s.len(),
{
    if s.len() > 0 {
        lemma_release_contains(s.drop_last(), label, m);
        if spec_release(s, label).contains(m) {
            let rest = spec_release(s.drop_last(), label);
            if s.last() == label {
                assert(rest.contains(m));
            } else {
                let i = choose|i: int|
                    0 <= i < rest.push(s.last()).len() && rest.push(s.last())[i] == m;
                if i < rest.len() {
                    assert(rest[i] == m);
                    assert(rest.contains(m));
                } else {
                    assert(m == s.last());
                    assert(s[s.len() - 1] == m);
                }
            }
            if s.drop_last().contains(m) {
                let j = choose|j: int| 0 <= j < s.drop_last().len() && s.drop_last()[j] == m;
                assert(s[j] == m);
            }
        }
    }
}

/// A release preserves distinctness of the held labels.
pub proof fn lemma_release_distinct(s: Seq<Seq<char>>, label: Seq<char>)
    requires
        distinct_labels(s),
    ensures
        distinct_labels(spec_release(s, label)),
    decreases s.len(),
{
    if s.len() > 0 {
        assert(forall|i: int, j: int|
            0 <= i < j < s.drop_last().len() ==> s.drop_last()[i] != s.drop_last()[j]);
        lemma_release_distinct(s.drop_last(), label);
        let rest = spec_release(s.drop_last(), label);
        if s.last() != label {
            assert(!rest.contains(s.last())) by {
                lemma_release_contains(s.drop_last(), label, s.last());
                if s.drop_last().contains(s.last()) {
                    let i = choose|i: int|
                        0 <= i < s.drop_last().len() && s.drop_last()[i] == s.last();
                    assert(s[i] == s[s.len() - 1]);
                }
            }
            assert(forall|i: int| 0 <= i < rest.len() ==> rest[i] != s.last());
            assert(distinct_labels(rest.push(s.last())));
        }
    }
}

/// Law: pressing a modifier that is already held is a no-op, so a second
/// press without an intervening release leaves the held set (and so its
/// size) unchanged.
pub proof fn lemma_press_idempotent(s: Seq<Seq<char>>, label: Seq<char>)
    ensures
        spec_press(spec_press(s, label), label) == spec_press(s, label),
{
    if !s.contains(label) {
        assert(s.push(label)[s.len() as int] == label);
        assert(s.push(label).contains(label));
    }
}

/// Law: releasing a modifier that is not currently held leaves the set
/// unchanged.
pub proof fn lemma_release_not_held(s: Seq<Seq<char>>, label: Seq<char>)
    requires
        !s.contains(label),
    ensures
        spec_release(s, label) == s,
    decreases s.len(),
{
    if s.len() > 0 {
        assert(forall|i: int| 0 <= i < s.len() ==> s[i] != label);
        assert(!s.drop_last().contains(label)) by {
            if s.drop_last().contains(label) {
                let i = choose|i: int| 0 <= i < s.drop_last().len() && s.drop_last()[i] == label;
                assert(s[i] == label);
            }
        }
        lemma_release_not_held(s.drop_last(), label);
        assert(s[s.len() - 1] != label);
        assert(spec_release(s, label) == s.drop_last().push(s.last()));
        assert(s.drop_last().push(s.last()) =~= s);
    }
}

/// The currently held modifier display labels, in the order in which they
/// were first pressed.
pub struct ModifierSet {
    labels: Vec<String>,
}

impl View for ModifierSet {
    type V = Seq<Seq<char>>;

    closed spec fn view(&self) -> Seq<Seq<char>> {
        self.labels.deep_view()
    }
}

impl ModifierSet {
    /// Each label is held at most once.
    pub open spec fn wf(&self) -> bool {
        distinct_labels(self@)
    }

    /// An empty set: no modifier is held at startup.
    pub fn new() -> (r: ModifierSet)
        ensures
            r@ == Seq::<Seq<char>>::empty(),
            r.wf(),
    {
        ModifierSet { labels: Vec::new() }
    }

    /// The number of modifiers currently held.
    pub fn len(&self) -> (r: usize)
        ensures
            r == self@.len(),
    {
        self.labels.len()
    }

    /// Whether the given label is currently held.
    pub fn is_held(&self, label: &String) -> (r: bool)
        ensures
            r == self@.contains(label@),
    {
        let mut i: usize = 0;
        while i < self.labels.len()
            invariant
                i <= self.labels.len(),
                forall|k: int| 0 <= k < i ==> self@[k] != label@,
            decreases self.labels.len() - i,
        {
            if self.labels[i] == *label {
                assert(self@[i as int] == label@);
                return true;
            }
            i += 1;
        }
        false
    }

    /// Record a modifier press: add the label unless it is already held.
    pub fn press(&mut self, label: String)
        requires
            old(self).wf(),
        ensures
            final(self).wf(),
            final(self)@ == spec_press(old(self)@, label@),
    {
        if !self.is_held(&label) {
            proof {
                assert(forall|i: int| 0 <= i < self@.len() ==> self@[i] != label@);
            }
            self.labels.push(label);
            proof {
                assert(self@ =~= old(self)@.push(label@));
            }
        }
    }

    /// Record a modifier release: drop the label if it is held, and do
    /// nothing otherwise.
    pub fn release(&mut self, label: &String)
        requires
            old(self).wf(),
        ensures
            final(self).wf(),
            final(self)@ == spec_release(old(self)@, label@),
    {
        let mut kept: Vec<String> = Vec::new();
        let mut i: usize = 0;
        while i < self.labels.len()
            invariant
                i <= self.labels.len(),
                kept.deep_view() == spec_release(self.labels.deep_view().take(i as int), label@),
            decreases self.labels.len() - i,
        {
            let ghost prefix = self.labels.deep_view().take(i as int);
            let ghost elem = self.labels.deep_view()[i as int];
            if self.labels[i] == *label {
                proof {
                    lemma_release_push(prefix, elem, label@);
                    assert(self.labels.deep_view().take(i as int + 1) =~= prefix.push(elem));
                }
            } else {
                kept.push(self.labels[i].clone());
                proof {
                    lemma_release_push(prefix, elem, label@);
                    assert(self.labels.deep_view().take(i as int + 1) =~= prefix.push(elem));
                    assert(kept.deep_view() =~= spec_release(prefix, label@).push(elem));
                }
            }
            i += 1;
        }
        proof {
            assert(self.labels.deep_view().take(self.labels.len() as int) =~= self@);
            lemma_release_distinct(self@, label@);
        }
        self.labels = kept;
    }

    /// A snapshot of the held labels, in insertion order, for emission.
    pub fn snapshot(&self) -> (r: Vec<String>)
        ensures
            r.deep_view() == self@,
    {
        let mut out: Vec<String> = Vec::new();
        let mut i: usize = 0;
        while i < self.labels.len()
            invariant
                i <= self.labels.len(),
                out.deep_view() == self@.take(i as int),
            decreases self.labels.len() - i,
        {
            out.push(self.labels[i].clone());
            proof {
                assert(out.deep_view() =~= self@.take(i as int).push(self@[i as int]));
                assert(self@.take(i as int + 1) =~= self@.take(i as int).push(self@[i as int]));
            }
            i += 1;
        }
        proof {
            assert(self@.take(self.labels.len() as int) =~= self@);
        }
        out
    }
}

} // verus!
