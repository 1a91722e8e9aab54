//! A list of descriptions, each marked good or bad, with running counts of
//! each kind that always match the list.
use vstd::prelude::*;

verus! {

/// Whether a description is good or bad.
#[derive(Debug, Clone, Copy, PartialEq, Eq, Structural)]
pub enum DescriptionKind {
    Good,
    Bad,
}

/// Mathematical model of one entry.
pub type Entry = (Seq<char>, DescriptionKind);

/// How many entries of `s` are of kind `k`.
pub open spec fn count_kind(s: Seq<Entry>, k: DescriptionKind) -> nat
    decreases s.len(),
{
    if s.len() == 0 {
        0
    } else {
        count_kind(s.drop_last(), k) + if s.last().1 == k {
            1nat
        } else {
            0nat
        }
    }
}

proof fn lemma_count_concat(a: Seq<Entry>, b: Seq<Entry>, k: DescriptionKind)
    ensures
        count_kind(a + b, k) == count_kind(a, k) + count_kind(b, k),
    decreases b.len(),
{
    if b.len() > 0 {
        assert((a + b).drop_last() =~= a + b.drop_last());
        lemma_count_concat(a, b.drop_last(), k);
    }
}

proof fn lemma_count_le_len(s: Seq<Entry>, k: DescriptionKind)
    ensures
        count_kind(s, k) <= s.len(),
    decreases s.len(),
{
    if s.len() > 0 {
        lemma_count_le_len(s.drop_last(), k);
    }
}

proof fn lemma_count_remove(s: Seq<Entry>, i: int, k: DescriptionKind)
    requires
        0 <= i < s.len(),
    ensures
        count_kind(s, k) == count_kind(s.remove(i), k) + if s[i].1 == k {
            1nat
        } else {
            0nat
        },
{
    let a = s.subrange(0, i);
    let b = s.subrange(i + 1, s.len() as int);
    assert(s =~= a + seq![s[i]] + b);
    assert(s.remove(i) =~= a + b);
    lemma_count_concat(a + seq![s[i]], b, k);
    lemma_count_concat(a, seq![s[i]], k);
    lemma_count_concat(a, b, k);
    let one = seq![s[i]];
    assert(one.drop_last() =~= Seq::<Entry>::empty());
    assert(one.last() == s[i]);
    assert(count_kind(one, k) == count_kind(Seq::<Entry>::empty(), k) + if s[i].1 == k {
        1nat
    } else {
        0nat
    });
}

/// Descriptions with a count of each kind.
pub struct Descriptions {
    num_good: u32,
    num_bad: u32,
    descriptions: Vec<(String, DescriptionKind)>,
}

impl View for Descriptions {
    type V = Seq<Entry>;

    closed spec fn view(&self) -> Seq<Entry> {
        self.descriptions@.map_values(|e: (String, DescriptionKind)| (e.0@, e.1))
    }
}

impl Descriptions {
    /// Internal consistency: the counts match the entries.
    pub closed spec fn wf(&self) -> bool {
        &&& self.num_good as nat == count_kind(self@, DescriptionKind::Good)
        &&& self.num_bad as nat == count_kind(self@, DescriptionKind::Bad)
    }

    /// No descriptions.
    pub fn new() -> (r: Descriptions)
        ensures
            r.wf(),
            r@ == Seq::<Entry>::empty(),
    {
        let r = Descriptions { num_good: 0, num_bad: 0, descriptions: Vec::new() };
        assert(r@ =~= Seq::<Entry>::empty());
        r
    }

    /// The number of good descriptions.
    pub fn num_good(&self) -> (r: u32)
        requires
            self.wf(),
        ensures
            r as nat == count_kind(self@, DescriptionKind::Good),
    {
        self.num_good
    }

    /// The number of bad descriptions.
    pub fn num_bad(&self) -> (r: u32)
        requires
            self.wf(),
        ensures
            r as nat == count_kind(self@, DescriptionKind::Bad),
    {
        self.num_bad
    }

    /// The number of descriptions.
    pub fn len(&self) -> (r: usize)
        ensures
            r == self@.len(),
    {
        self.descriptions.len()
    }

    /// Appends a description and counts it under its kind.
    pub fn add_description(&mut self, entry: (String, DescriptionKind))
        requires
            old(self).wf(),
            old(self)@.len() < u32::MAX,
        ensures
            final(self).wf(),
            final(self)@ == old(self)@.push((entry.0@, entry.1)),
    {
        proof {
            lemma_count_le_len(self@, DescriptionKind::Good);
            lemma_count_le_len(self@, DescriptionKind::Bad);
        }
        let ghost pre = self@;
        match entry.1 {
            DescriptionKind::Good => self.num_good = self.num_good + 1,
            DescriptionKind::Bad => self.num_bad = self.num_bad + 1,
        }
        self.descriptions.push(entry);
        assert(self@ =~= pre.push((entry.0@, entry.1)));
        assert(self@.drop_last() =~= pre);
    }

    /// Removes and returns the description at `index`, uncounting it; `None`,
    /// changing nothing, when there is no such description.
    pub fn remove_description(&mut self, index: usize) -> (r: Option<(String, DescriptionKind)>)
        requires
            old(self).wf(),
        ensures
            final(self).wf(),
            index >= old(self)@.len() ==> r is None && final(self)@ == old(self)@,
            index < old(self)@.len() ==> r is Some && (r.unwrap().0@, r.unwrap().1) == old(
                self,
            )@[index as int] && final(self)@ == old(self)@.remove(index as int),
    {
        if index >= self.descriptions.len() {
            return None;
        }
        let ghost pre = self@;
        let (description, kind) = self.descriptions.remove(index);
        proof {
            lemma_count_remove(pre, index as int, DescriptionKind::Good);
            lemma_count_remove(pre, index as int, DescriptionKind::Bad);
            assert(self@ =~= pre.remove(index as int));
        }
        match kind {
            DescriptionKind::Good => self.num_good = self.num_good - 1,
            DescriptionKind::Bad => self.num_bad = self.num_bad - 1,
        }
        Some((description, kind))
    }
}

} // verus!
