use crate::text::{
    lemma_str_lt_irreflexive, lemma_str_lt_total, lemma_str_lt_transitive, less, same, str_lt,
};
use vstd::prelude::*;
use vstd::string::*;

verus! {

/// Whether each string of `s` comes before all that follow it.
pub open spec fn ascending(s: Seq<Seq<char>>) -> bool {
    forall|i: int, j: int| 0 <= i < j < s.len() ==> str_lt(#[trigger] s[i], #[trigger] s[j])
}

/// An ascending sequence holds no string twice.
pub proof fn lemma_ascending_no_duplicates(s: Seq<Seq<char>>)
    requires
        ascending(s),
    ensures
        s.no_duplicates(),
{
    assert forall|i: int, j: int| 0 <= i < s.len() && 0 <= j < s.len() && i != j implies s[i]
        != s[j] by {
        lemma_str_lt_irreflexive(s[i]);
    }
}

/// Two ascending sequences with the same members are the same sequence.
pub proof fn lemma_ascending_unique(s: Seq<Seq<char>>, t: Seq<Seq<char>>)
    requires
        ascending(s),
        ascending(t),
        s.to_set() == t.to_set(),
    ensures
        s == t,
    decreases s.len(),
{
    lemma_ascending_no_duplicates(s);
    lemma_ascending_no_duplicates(t);
    s.unique_seq_to_set();
    t.unique_seq_to_set();
    if s.len() > 0 {
        // The first of each is the least member of the common set.
        assert(t.to_set().contains(s[0]));
        assert(s.to_set().contains(t[0]));
        let j = choose|j: int| 0 <= j < t.len() && t[j] == s[0];
        let i = choose|i: int| 0 <= i < s.len() && s[i] == t[0];
        lemma_str_lt_irreflexive(s[0]);
        if j > 0 {
            if i > 0 {
                lemma_str_lt_transitive(s[0], t[0], s[0]);
            }
        }
        let s1 = s.skip(1);
        let t1 = t.skip(1);
        assert forall|x: Seq<char>| s1.to_set().contains(x) <==> t1.to_set().contains(x) by {
            if s1.to_set().contains(x) {
                assert(t.to_set().contains(x));
                let m = choose|m: int| 0 <= m < t.len() && t[m] == x;
                assert(t1[m - 1] == x);
            }
            if t1.to_set().contains(x) {
                assert(s.to_set().contains(x));
                let m = choose|m: int| 0 <= m < s.len() && s[m] == x;
                assert(s1[m - 1] == x);
            }
        }
        assert(s1.to_set() =~= t1.to_set());
        assert(ascending(s1)) by {
            assert forall|a: int, b: int| 0 <= a < b < s1.len() implies str_lt(
                #[trigger] s1[a],
                #[trigger] s1[b],
            ) by {}
        }
        assert(ascending(t1)) by {
            assert forall|a: int, b: int| 0 <= a < b < t1.len() implies str_lt(
                #[trigger] t1[a],
                #[trigger] t1[b],
            ) by {}
        }
        lemma_ascending_unique(s1, t1);
        assert(s =~= seq![s[0]] + s1);
    }
}

/// The members of the first `i + 1` strings of `all` are those of the
/// first `i` and the string at `i`.
pub proof fn lemma_take_next(all: Seq<Seq<char>>, i: int)
    requires
        0 <= i < all.len(),
    ensures
        all.take(i + 1).to_set() == all.take(i).to_set().insert(all[i]),
{
    let done = all.take(i);
    let next = all.take(i + 1);
    assert forall|x: Seq<char>| next.to_set().contains(x) <==> done.to_set().insert(
        all[i],
    ).contains(x) by {
        if x == all[i] {
            assert(next[i] == x);
        }
    }
}

/// The strings of `v` as sequences of characters.
pub open spec fn views(v: Seq<String>) -> Seq<Seq<char>> {
    Seq::new(v.len(), |i: int| v[i]@)
}

/// A set of strings that is kept in ascending order.
#[derive(Debug)]
pub struct StringSet {
    items: Vec<String>,
}

impl View for StringSet {
    type V = Set<Seq<char>>;

    open spec fn view(&self) -> Set<Seq<char>> {
        self.order().to_set()
    }
}

impl StringSet {
    /// The members, in the order in which the set hands them out.
    pub closed spec fn order(&self) -> Seq<Seq<char>> {
        views(self.items@)
    }

    /// What holds of every set: its order is ascending, so that no
    /// member occurs twice.
    #[verifier::type_invariant]
    pub open spec fn inv(&self) -> bool {
        ascending(self.order())
    }

    pub fn new() -> (r: StringSet)
        ensures
            r.order() == Seq::<Seq<char>>::empty(),
            r@ == Set::<Seq<char>>::empty(),
    {
        let r = StringSet { items: Vec::new() };
        r
    }

    pub fn len(&self) -> (r: usize)
        ensures
            r == self.order().len(),
    {
        self.items.len()
    }

    /// The member at place `i` of the order.
    pub fn get(&self, i: usize) -> (r: &String)
        requires
            i < self.order().len(),
        ensures
            r@ == self.order()[i as int],
    {
        &self.items[i]
    }

    /// The members, in order.
    pub fn to_vec(&self) -> (r: Vec<String>)
        ensures
            r.deep_view() == self.order(),
    {
        let copy = self.clone();
        copy.items
    }

    /// The first place whose member does not come before `s`.
    fn lower_bound(&self, s: &str) -> (i: usize)
        ensures
            i <= self.order().len(),
            ascending(self.order()),
            forall|j: int| 0 <= j < i ==> str_lt(#[trigger] self.order()[j], s@),
            forall|j: int| i < j < self.order().len() ==> str_lt(s@, #[trigger] self.order()[j]),
            i < self.order().len() ==> (self.order()[i as int] == s@ || str_lt(
                s@,
                self.order()[i as int],
            )),
            self@.contains(s@) <==> (i < self.order().len() && self.order()[i as int] == s@),
    {
        proof {
            use_type_invariant(self);
        }
        let mut i: usize = 0;
        while i < self.items.len() && less(self.items[i].as_str(), s)
            invariant
                i <= self.items.len(),
                forall|j: int| 0 <= j < i ==> str_lt(#[trigger] self.order()[j], s@),
            decreases self.items.len() - i,
        {
            i = i + 1;
        }
        proof {
            let o = self.order();
            lemma_str_lt_irreflexive(s@);
            if i < o.len() {
                lemma_str_lt_total(o[i as int], s@);
                assert forall|j: int| i < j < o.len() implies str_lt(s@, #[trigger] o[j]) by {
                    if o[i as int] != s@ {
                        lemma_str_lt_transitive(s@, o[i as int], o[j]);
                    }
                }
            }
        }
        i
    }

    pub fn contains(&self, s: &str) -> (r: bool)
        ensures
            r == self@.contains(s@),
    {
        let i = self.lower_bound(s);
        i < self.items.len() && same(self.items[i].as_str(), s)
    }

    /// Adds `s` to the set. Returns whether it was new.
    pub fn insert(&mut self, s: String) -> (r: bool)
        ensures
            final(self)@ == old(self)@.insert(s@),
            r == !old(self)@.contains(s@),
    {
        let i = self.lower_bound(s.as_str());
        let ghost o = self.order();
        if i < self.items.len() && same(self.items[i].as_str(), s.as_str()) {
            return false;
        }
        proof {
            let n = o.insert(i as int, s@);
            assert(views(self.items@.insert(i as int, s)) =~= n);
            assert forall|a: int, b: int| 0 <= a < b < n.len() implies str_lt(
                #[trigger] n[a],
                #[trigger] n[b],
            ) by {
                if a < i && b > i {
                    lemma_str_lt_transitive(n[a], s@, n[b]);
                }
            }
            assert forall|x: Seq<char>| n.to_set().contains(x) <==> o.to_set().insert(s@).contains(
                x,
            ) by {
                if o.to_set().contains(x) {
                    let k = choose|k: int| 0 <= k < o.len() && o[k] == x;
                    if k < i {
                        assert(n[k] == x);
                    } else {
                        assert(n[k + 1] == x);
                    }
                }
                if x == s@ {
                    assert(n[i as int] == x);
                }
            }
        }
        let mut items: Vec<String> = Vec::new();
        std::mem::swap(&mut self.items, &mut items);
        items.insert(i, s);
        self.items = items;
        true
    }

    /// Takes `s` out of the set. Returns whether it was there.
    pub fn remove(&mut self, s: &str) -> (r: bool)
        ensures
            final(self)@ == old(self)@.remove(s@),
            r == old(self)@.contains(s@),
    {
        let i = self.lower_bound(s);
        let ghost o = self.order();
        if i < self.items.len() && same(self.items[i].as_str(), s) {
            proof {
                let n = o.remove(i as int);
                assert(views(self.items@.remove(i as int)) =~= n);
                assert forall|a: int, b: int| 0 <= a < b < n.len() implies str_lt(
                    #[trigger] n[a],
                    #[trigger] n[b],
                ) by {}
                lemma_str_lt_irreflexive(s@);
                assert forall|x: Seq<char>| n.to_set().contains(x) <==> o.to_set().remove(
                    s@,
                ).contains(x) by {
                    if o.to_set().contains(x) && x != s@ {
                        let k = choose|k: int| 0 <= k < o.len() && o[k] == x;
                        if k < i {
                            assert(n[k] == x);
                        } else {
                            assert(n[k - 1] == x);
                        }
                    }
                }
            }
            let mut items: Vec<String> = Vec::new();
            std::mem::swap(&mut self.items, &mut items);
            items.remove(i);
            self.items = items;
            true
        } else {
            false
        }
    }
}

impl StringSet {
    /// Adds every string of `items` to the set.
    pub fn extend(&mut self, items: &Vec<&'static str>)
        ensures
            final(self)@ == old(self)@.union(items.deep_view().to_set()),
    {
        let ghost all = items.deep_view();
        let mut i: usize = 0;
        while i < items.len()
            invariant
                i <= items.len(),
                all == items.deep_view(),
                self@ == old(self)@.union(all.take(i as int).to_set()),
            decreases items.len() - i,
        {
            self.insert(String::from_str(items[i]));
            proof {
                lemma_take_next(all, i as int);
            }
            i = i + 1;
        }
        assert(all.take(i as int) =~= all);
    }

    /// Adds every member of `other` to the set.
    pub fn merge(&mut self, other: &StringSet)
        ensures
            final(self)@ == old(self)@.union(other@),
    {
        let ghost all = other.order();
        let mut i: usize = 0;
        while i < other.len()
            invariant
                i <= other.order().len(),
                all == other.order(),
                self@ == old(self)@.union(all.take(i as int).to_set()),
            decreases other.order().len() - i,
        {
            self.insert(other.get(i).clone());
            proof {
                lemma_take_next(all, i as int);
            }
            i = i + 1;
        }
        assert(all.take(i as int) =~= all);
    }
}

impl Clone for StringSet {
    fn clone(&self) -> (r: StringSet)
        ensures
            r.order() == self.order(),
            r@ == self@,
    {
        proof {
            use_type_invariant(self);
        }
        let mut items: Vec<String> = Vec::new();
        let mut i: usize = 0;
        while i < self.items.len()
            invariant
                i <= self.items.len(),
                items@.len() == i,
                views(items@) == self.order().take(i as int),
            decreases self.items.len() - i,
        {
            let item = self.items[i].clone();
            let ghost before = items@;
            items.push(item);
            i = i + 1;
            assert forall|k: int| 0 <= k < i implies views(items@)[k] == self.order()[k] by {
                if k < i - 1 {
                    assert(views(before)[k] == self.order().take(i - 1)[k]);
                }
            }
        }
        assert(self.order().take(i as int) =~= self.order());
        StringSet { items }
    }
}

/// The members of `s` in ascending order. Only a finite set has such an
/// order; the sets that a `StringSet` stands for are finite.
pub open spec fn in_order(s: Set<Seq<char>>) -> Seq<Seq<char>> {
    choose|q: Seq<Seq<char>>| ascending(q) && q.to_set() == s
}

/// What is ascending is the order of its members.
pub proof fn lemma_in_order(q: Seq<Seq<char>>)
    requires
        ascending(q),
    ensures
        in_order(q.to_set()) == q,
{
    let p = in_order(q.to_set());
    lemma_ascending_unique(p, q);
}

} // verus!
