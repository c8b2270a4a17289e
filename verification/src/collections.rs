//! Sequences of values: copies, filters and sets of texts.
use std::collections::VecDeque;
use vstd::prelude::*;

verus! {

/// Values that can be copied without changing what they mean.
pub trait Duplicate: DeepView + Sized {
    /// A copy with the same meaning.
    fn duplicate(&self) -> (copy: Self)
        ensures
            copy.deep_view() == self.deep_view(),
    ;
}

impl Duplicate for String {
    fn duplicate(&self) -> String {
        self.clone()
    }
}

impl<T: Duplicate> Duplicate for Option<T> {
    fn duplicate(&self) -> Option<T> {
        match self {
            Some(value) => Some(value.duplicate()),
            None => None,
        }
    }
}

impl<T: Duplicate> Duplicate for Vec<T> {
    fn duplicate(&self) -> Vec<T> {
        let mut copy: Vec<T> = Vec::new();
        let mut i: usize = 0;
        while i < self.len()
            invariant
                i <= self@.len(),
                copy.deep_view() == self.deep_view().take(i as int),
            decreases self@.len() - i,
        {
            let ghost before = copy.deep_view();
            copy.push(self[i].duplicate());
            assert(copy.deep_view() == before.push(self.deep_view()[i as int]));
            i = i + 1;
        }
        assert(self.deep_view().take(self@.len() as int) == self.deep_view());
        copy
    }
}

/// The items that `wanted` holds of, in their order.
pub(crate) fn retain_deque<T: DeepView, F: Fn(&T) -> bool>(
    items: &mut VecDeque<T>,
    keep: F,
    Ghost(wanted): Ghost<spec_fn(T::V) -> bool>,
)
    requires
        forall|item: &T| #[trigger] call_requires(keep, (item,)),
        forall|item: &T, kept: bool| #[trigger]
            call_ensures(keep, (item,), kept) ==> kept == wanted(item.deep_view()),
    ensures
        final(items).deep_view() == old(items).deep_view().filter(wanted),
{
    let n: usize = items.len();
    let mut k: usize = 0;
    let ghost all = items.deep_view();
    assert(all.take(0).filter(wanted) == Seq::<T::V>::empty()) by {
        reveal(Seq::filter);
    }
    assert(items.deep_view() == all.skip(0) + all.take(0).filter(wanted));
    while k < n
        invariant
            k <= n == all.len(),
            all == old(items).deep_view(),
            items.deep_view() == all.skip(k as int) + all.take(k as int).filter(wanted),
            forall|item: &T| #[trigger] call_requires(keep, (item,)),
            forall|item: &T, kept: bool| #[trigger]
                call_ensures(keep, (item,), kept) ==> kept == wanted(item.deep_view()),
        decreases n - k,
    {
        let ghost before = items.deep_view();
        let ghost before_items = items@;
        proof {
            assert(before.len() == before_items.len());
            assert(before[0] == all[k as int]);
            assert(all.take(k + 1).drop_last() == all.take(k as int));
            reveal(Seq::filter);
        }
        match items.pop_front() {
            Some(item) => {
                assert(item.deep_view() == all[k as int]);
                assert(items.deep_view() == before.skip(1));
                if keep(&item) {
                    let ghost mid = items.deep_view();
                    items.push_back(item);
                    assert(items.deep_view() == mid.push(all[k as int]));
                }
            },
            None => {},
        }
        k = k + 1;
        assert(items.deep_view() == all.skip(k as int) + all.take(k as int).filter(wanted));
    }
    assert(all.take(n as int) == all);
    assert(items.deep_view() == all.filter(wanted));
}

/// The items that `wanted` holds of, in their order.
pub(crate) fn retain_vec<T: DeepView, F: Fn(&T) -> bool>(
    items: &mut Vec<T>,
    keep: F,
    Ghost(wanted): Ghost<spec_fn(T::V) -> bool>,
)
    requires
        forall|item: &T| #[trigger] call_requires(keep, (item,)),
        forall|item: &T, kept: bool| #[trigger]
            call_ensures(keep, (item,), kept) ==> kept == wanted(item.deep_view()),
    ensures
        final(items).deep_view() == old(items).deep_view().filter(wanted),
{
    let n: usize = items.len();
    let mut k: usize = 0;
    let mut i: usize = 0;
    let ghost all = items.deep_view();
    assert(all.take(0).filter(wanted) == Seq::<T::V>::empty()) by {
        reveal(Seq::filter);
    }
    assert(items.deep_view() == all.take(0).filter(wanted) + all.skip(0));
    while k < n
        invariant
            k <= n == all.len(),
            all == old(items).deep_view(),
            i == all.take(k as int).filter(wanted).len(),
            items.deep_view() == all.take(k as int).filter(wanted) + all.skip(k as int),
            forall|item: &T| #[trigger] call_requires(keep, (item,)),
            forall|item: &T, kept: bool| #[trigger]
                call_ensures(keep, (item,), kept) ==> kept == wanted(item.deep_view()),
        decreases n - k,
    {
        let ghost before = items.deep_view();
        proof {
            assert(before.len() == items@.len());
            assert(before[i as int] == all[k as int]);
            assert(all.take(k + 1).drop_last() == all.take(k as int));
            reveal(Seq::filter);
        }
        if keep(&items[i]) {
            i = i + 1;
        } else {
            items.remove(i);
            assert(items.deep_view() == before.remove(i as int));
        }
        k = k + 1;
        assert(items.deep_view() == all.take(k as int).filter(wanted) + all.skip(k as int));
    }
    assert(all.take(n as int) == all);
    assert(items.deep_view() == all.filter(wanted));
}

/// A filter that holds of every item keeps all of them.
pub proof fn lemma_filter_all<T>(items: Seq<T>, keep: spec_fn(T) -> bool)
    requires
        forall|i: int| 0 <= i < items.len() ==> keep(#[trigger] items[i]),
    ensures
        items.filter(keep) == items,
    decreases items.len(),
{
    reveal(Seq::filter);
    if items.len() > 0 {
        lemma_filter_all(items.drop_last(), keep);
        assert(items.drop_last().push(items.last()) =~= items);
    }
}

/// A filter keeps only what it holds of.
pub proof fn lemma_filter_holds<T>(items: Seq<T>, keep: spec_fn(T) -> bool)
    ensures
        forall|i: int| 0 <= i < items.filter(keep).len() ==> keep(#[trigger] items.filter(keep)[i]),
{
    assert forall|i: int| 0 <= i < items.filter(keep).len() implies keep(
        #[trigger] items.filter(keep)[i],
    ) by {
        items.lemma_filter_pred(keep, i);
    }
}

/// Filters that agree on what is there keep the same.
pub proof fn lemma_filter_same<T>(
    items: Seq<T>,
    keep: spec_fn(T) -> bool,
    other: spec_fn(T) -> bool,
)
    requires
        forall|i: int| 0 <= i < items.len() ==> keep(#[trigger] items[i]) == other(items[i]),
    ensures
        items.filter(keep) == items.filter(other),
    decreases items.len(),
{
    reveal(Seq::filter);
    if items.len() > 0 {
        lemma_filter_same(items.drop_last(), keep, other);
        assert(keep(items[items.len() - 1]) == other(items[items.len() - 1]));
    }
}

/// Whether `texts` holds `text`.
pub fn contains_text(texts: &Vec<String>, text: &String) -> (result: bool)
    ensures
        result == texts.deep_view().contains(text@),
{
    let mut i: usize = 0;
    while i < texts.len()
        invariant
            i <= texts@.len(),
            forall|j: int| 0 <= j < i ==> (#[trigger] texts.deep_view()[j]) != text@,
        decreases texts@.len() - i,
    {
        assert(texts.deep_view()[i as int] == texts@[i as int]@);
        if texts[i] == *text {
            return true;
        }
        i = i + 1;
    }
    false
}

/// Whether two sequences of texts have a text in common.
pub open spec fn overlap(a: Seq<Seq<char>>, b: Seq<Seq<char>>) -> bool {
    exists|i: int| 0 <= i < a.len() && b.contains(#[trigger] a[i])
}

/// Whether two lists of texts have a text in common.
pub fn texts_overlap(a: &Vec<String>, b: &Vec<String>) -> (result: bool)
    ensures
        result == overlap(a.deep_view(), b.deep_view()),
{
    let mut i: usize = 0;
    while i < a.len()
        invariant
            i <= a@.len(),
            forall|j: int|
                0 <= j < i ==> !b.deep_view().contains(#[trigger] a.deep_view()[j]),
        decreases a@.len() - i,
    {
        assert(a.deep_view()[i as int] == a@[i as int]@);
        if contains_text(b, &a[i]) {
            return true;
        }
        i = i + 1;
    }
    false
}

/// A set of texts.
#[derive(Debug)]
pub struct TextSet {
    items: Vec<String>,
}

impl View for TextSet {
    type V = Set<Seq<char>>;

    closed spec fn view(&self) -> Set<Seq<char>> {
        self.items.deep_view().to_set()
    }
}

impl TextSet {
    /// The set without members.
    pub fn new() -> (set: TextSet)
        ensures
            set@ == Set::<Seq<char>>::empty(),
    {
        let set = TextSet { items: Vec::new() };
        assert(set@ =~= Set::<Seq<char>>::empty());
        set
    }

    /// Whether `text` is a member.
    pub fn contains(&self, text: &String) -> (result: bool)
        ensures
            result == self@.contains(text@),
    {
        contains_text(&self.items, text)
    }

    /// Whether some text of `texts` is a member.
    pub fn contains_any(&self, texts: &Vec<String>) -> (result: bool)
        ensures
            result == exists|i: int| 0 <= i < texts@.len() && self@.contains(#[trigger] texts.deep_view()[i]),
    {
        let result = texts_overlap(texts, &self.items);
        assert(forall|t: Seq<char>| self@.contains(t) == self.items.deep_view().contains(t));
        result
    }

    /// Makes `text` a member.
    pub fn insert(&mut self, text: String)
        ensures
            final(self)@ == old(self)@.insert(text@),
    {
        let ghost before = self.items.deep_view();
        if !contains_text(&self.items, &text) {
            self.items.push(text);
            assert(self.items.deep_view() == before.push(text@));
            proof {
                before.lemma_push_to_set_commute(text@);
            }
        }
        assert(self@ =~= old(self)@.insert(text@));
    }

    /// Makes every text of `texts` a member.
    pub fn insert_all(&mut self, texts: &Vec<String>)
        ensures
            final(self)@ == old(self)@.union(texts.deep_view().to_set()),
    {
        let mut i: usize = 0;
        assert(texts.deep_view().take(0).to_set() =~= Set::<Seq<char>>::empty());
        assert(self@ =~= self@.union(Set::<Seq<char>>::empty()));
        while i < texts.len()
            invariant
                i <= texts@.len(),
                self@ == old(self)@.union(texts.deep_view().take(i as int).to_set()),
            decreases texts@.len() - i,
        {
            let ghost taken = texts.deep_view().take(i as int);
            self.insert(texts[i].clone());
            proof {
                assert(texts.deep_view().take(i + 1) == taken.push(texts.deep_view()[i as int]));
                taken.lemma_push_to_set_commute(texts.deep_view()[i as int]);
                assert(self@ =~= old(self)@.union(texts.deep_view().take(i + 1).to_set()));
            }
            i = i + 1;
        }
        assert(texts.deep_view().take(texts@.len() as int) == texts.deep_view());
    }

    /// Makes no text of `texts` a member.
    pub fn remove_all(&mut self, texts: &Vec<String>)
        ensures
            final(self)@ == old(self)@.difference(texts.deep_view().to_set()),
    {
        let ghost gone = texts.deep_view();
        let ghost before = self.items.deep_view();
        let ghost wanted = |t: Seq<char>| !gone.contains(t);
        let keep = |item: &String| -> (kept: bool)
            ensures
                kept == wanted(item.deep_view()),
            { !contains_text(texts, item) };
        retain_vec(&mut self.items, keep, Ghost(wanted));
        assert forall|t: Seq<char>| #[trigger] self@.contains(t) == old(self)@.difference(
            gone.to_set(),
        ).contains(t) by {
            if before.filter(wanted).contains(t) {
                before.lemma_filter_contains_rev(wanted, t);
            }
            if before.contains(t) && wanted(t) {
                let i = choose|i: int| 0 <= i < before.len() && before[i] == t;
                before.lemma_filter_contains(wanted, i);
            }
        }
        assert(self@ =~= old(self)@.difference(gone.to_set()));
    }
}

} // verus!
