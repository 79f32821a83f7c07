//! Sets of texts.

use crate::storage::text::{find_text, same_text};
use vstd::prelude::*;

verus! {

/// The texts of a list, as a set.
pub open spec fn text_set(items: Seq<Seq<char>>) -> Set<Seq<char>> {
    Set::new(|x: Seq<char>| items.contains(x))
}

/// A finite set of texts. It keeps each text once, in the order in which
/// the texts came.
#[derive(Debug)]
pub struct TextSet {
    items: Vec<String>,
}

impl View for TextSet {
    type V = Set<Seq<char>>;

    closed spec fn view(&self) -> Set<Seq<char>> {
        text_set(self.items.deep_view())
    }
}

impl TextSet {
    #[verifier::type_invariant]
    spec fn well_formed(&self) -> bool {
        self.items.deep_view().no_duplicates()
    }

    /// The empty set.
    pub fn new() -> (r: Self)
        ensures
            r@ == Set::<Seq<char>>::empty(),
    {
        let r = TextSet { items: Vec::new() };
        assert(r.items.deep_view() =~= Seq::<Seq<char>>::empty());
        assert(r@ =~= Set::<Seq<char>>::empty());
        r
    }

    /// The set of the texts of a list.
    pub fn from_vec(items: &Vec<String>) -> (r: Self)
        ensures
            r@ == text_set(items.deep_view()),
    {
        TextSet { items: distinct_texts(items) }
    }

    /// Whether a text is in the set.
    pub fn contains(&self, x: &str) -> (r: bool)
        ensures
            r == self@.contains(x@),
    {
        find_text(&self.items, x) < self.items.len()
    }

    /// Adds a text. Adding a text that is there changes nothing.
    pub fn insert(&mut self, x: &str)
        ensures
            final(self)@ == old(self)@.insert(x@),
    {
        proof {
            use_type_invariant(&*self);
        }
        let at = find_text(&self.items, x);
        if at >= self.items.len() {
            let ghost before = self.items.deep_view();
            let mut items: Vec<String> = Vec::new();
            std::mem::swap(&mut items, &mut self.items);
            proof {
                assert(self.items.deep_view() =~= Seq::<Seq<char>>::empty());
            }
            items.push(x.to_string());
            proof {
                let after = items.deep_view();
                assert(after =~= before.push(x@));
                assert forall|y: Seq<char>| after.contains(y) <==> (before.contains(y) || y
                    == x@) by {
                    if after.contains(y) {
                        let w = choose|w: int| 0 <= w < after.len() && after[w] == y;
                        if w < before.len() {
                            assert(before[w] == y);
                        }
                    }
                    if before.contains(y) {
                        let w = choose|w: int| 0 <= w < before.len() && before[w] == y;
                        assert(after[w] == y);
                    }
                    if y == x@ {
                        assert(after[before.len() as int] == y);
                    }
                }
                assert(text_set(after) =~= text_set(before).insert(x@));
            }
            self.items = items;
        } else {
            assert(self@ =~= self@.insert(x@));
        }
    }

    /// Removes a text. Removing a text that is not there changes nothing.
    pub fn remove(&mut self, x: &str)
        ensures
            final(self)@ == old(self)@.remove(x@),
    {
        proof {
            use_type_invariant(&*self);
        }
        let at = find_text(&self.items, x);
        if at < self.items.len() {
            let ghost before = self.items.deep_view();
            let mut items: Vec<String> = Vec::new();
            std::mem::swap(&mut items, &mut self.items);
            proof {
                assert(self.items.deep_view() =~= Seq::<Seq<char>>::empty());
            }
            items.remove(at);
            proof {
                let after = items.deep_view();
                assert(after =~= before.remove(at as int));
                assert(before[at as int] == x@);
                assert forall|y: Seq<char>| after.contains(y) <==> (before.contains(y) && y
                    != x@) by {
                    if after.contains(y) {
                        let w = choose|w: int| 0 <= w < after.len() && after[w] == y;
                        if w < at {
                            assert(before[w] == y);
                        } else {
                            assert(before[w + 1] == y);
                        }
                    }
                    if before.contains(y) && y != x@ {
                        let w = choose|w: int| 0 <= w < before.len() && before[w] == y;
                        if w < at {
                            assert(after[w] == y);
                        } else {
                            assert(after[w - 1] == y);
                        }
                    }
                }
                assert(text_set(after) =~= text_set(before).remove(x@));
            }
            self.items = items;
        } else {
            assert(self@ =~= self@.remove(x@));
        }
    }

    /// The texts of the set, each once.
    pub fn to_vec(&self) -> (r: Vec<String>)
        ensures
            text_set(r.deep_view()) == self@,
            r.deep_view().no_duplicates(),
    {
        proof {
            use_type_invariant(self);
        }
        self.items.clone()
    }
}

/// The texts of a list, each once, in the order of their first occurrence.
pub fn distinct_texts(items: &Vec<String>) -> (r: Vec<String>)
    ensures
        r.deep_view().no_duplicates(),
        text_set(r.deep_view()) == text_set(items.deep_view()),
{
    let ghost all = items.deep_view();
    let mut out: Vec<String> = Vec::new();
    let mut i: usize = 0;
    assert(out.deep_view() =~= Seq::<Seq<char>>::empty());
    while i < items.len()
        invariant
            i <= items.len(),
            all == items.deep_view(),
            out.deep_view().no_duplicates(),
            forall|x: Seq<char>|
                out.deep_view().contains(x) <==> all.subrange(0, i as int).contains(x),
        decreases items.len() - i,
    {
        let ghost before = out.deep_view();
        let ghost seen = all.subrange(0, i as int);
        let at = find_text(&out, items[i].as_str());
        if at >= out.len() {
            out.push(items[i].clone());
            assert(out.deep_view() =~= before.push(all[i as int]));
        }
        proof {
            let after = out.deep_view();
            let next = all.subrange(0, i + 1);
            assert(next =~= seen.push(all[i as int]));
            assert forall|x: Seq<char>| after.contains(x) <==> next.contains(x) by {
                if after.contains(x) {
                    let w = choose|w: int| 0 <= w < after.len() && after[w] == x;
                    if w < before.len() {
                        assert(before[w] == x);
                        assert(before.contains(x));
                        let v = choose|v: int| 0 <= v < seen.len() && seen[v] == x;
                        assert(next[v] == x);
                    } else {
                        assert(next[i as int] == x);
                    }
                }
                if next.contains(x) {
                    let v = choose|v: int| 0 <= v < next.len() && next[v] == x;
                    if v < i {
                        assert(seen[v] == x);
                        assert(seen.contains(x));
                        assert(before.contains(x));
                        let w = choose|w: int| 0 <= w < before.len() && before[w] == x;
                        assert(after[w] == x);
                    } else {
                        if at >= before.len() {
                            assert(after[before.len() as int] == x);
                        } else {
                            assert(before.contains(x));
                            let w = choose|w: int| 0 <= w < before.len() && before[w] == x;
                            assert(after[w] == x);
                        }
                    }
                }
            }
        }
        i += 1;
    }
    proof {
        assert(all.subrange(0, all.len() as int) =~= all);
        assert(text_set(out.deep_view()) =~= text_set(all));
    }
    out
}

/// Whether a text differs from `x`.
pub open spec fn other_than(x: Seq<char>) -> spec_fn(Seq<char>) -> bool {
    |s: Seq<char>| s != x
}

/// The texts of a list that differ from `x`, in their order.
pub fn without_text(items: &Vec<String>, x: &str) -> (r: Vec<String>)
    ensures
        r.deep_view() == items.deep_view().filter(other_than(x@)),
{
    let ghost all = items.deep_view();
    let ghost pred = other_than(x@);
    let mut out: Vec<String> = Vec::new();
    let mut i: usize = 0;
    proof {
        assert(out.deep_view() =~= Seq::<Seq<char>>::empty());
        assert(all.subrange(0, 0) =~= Seq::<Seq<char>>::empty());
        reveal_with_fuel(Seq::filter, 1);
    }
    while i < items.len()
        invariant
            i <= items.len(),
            all == items.deep_view(),
            pred == other_than(x@),
            out.deep_view() == all.subrange(0, i as int).filter(pred),
        decreases items.len() - i,
    {
        let ghost before = out.deep_view();
        proof {
            let head = all.subrange(0, i as int);
            assert(all.subrange(0, i + 1) =~= head.push(all[i as int]));
            head.lemma_filter_push(all[i as int], pred);
        }
        if !same_text(items[i].as_str(), x) {
            out.push(items[i].clone());
            assert(out.deep_view() =~= before.push(all[i as int]));
        }
        i += 1;
    }
    proof {
        assert(all.subrange(0, all.len() as int) =~= all);
    }
    out
}

} // verus!
