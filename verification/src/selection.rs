//! The selection engine: a set of item keys with an anchor for range selection.
//!
//! The keys are texts. The selection holds them in ascending dictionary
//! order, each once, so that whatever walks the selection meets the keys in
//! that order. They stand in a vector: of a `BTreeSet` vstd states nothing
//! unless the key type's ordering is known to obey the laws of a total
//! order, and of `String` that is not known.

use crate::text::{
    chars_of, lemma_text_lt_asymmetric, lemma_text_lt_transitive, text_lt, text_order, texts_of,
    TextOrder,
};
use vstd::prelude::*;

verus! {

/// Whether the texts stand in ascending dictionary order, each before the
/// next; then none occurs twice.
pub open spec fn ascending(texts: Seq<Seq<char>>) -> bool {
    forall|i: int, j: int|
        0 <= i < j < texts.len() ==> text_lt(#[trigger] texts[i], #[trigger] texts[j])
}

/// The keys of `keys` at the indices from `lo` to `hi`, both included.
pub open spec fn keys_between(keys: Seq<String>, lo: int, hi: int) -> Set<Seq<char>> {
    Set::new(
        |k: Seq<char>|
            exists|i: int| lo <= i <= hi && 0 <= i < keys.len() && (#[trigger] keys[i])@ == k,
    )
}

/// A sequence with one more element holds that element and what it held.
proof fn lemma_insert_to_set<A>(s: Seq<A>, at: int, x: A)
    requires
        0 <= at <= s.len(),
    ensures
        s.insert(at, x).to_set() =~= s.to_set().insert(x),
{
    let t = s.insert(at, x);
    assert forall|a: A| t.to_set().contains(a) <==> s.to_set().insert(x).contains(a) by {
        if t.contains(a) {
            let i = choose|i: int| 0 <= i < t.len() && t[i] == a;
            if i < at {
                assert(s[i] == a);
            } else if i > at {
                assert(s[i - 1] == a);
            }
        }
        if s.contains(a) {
            let i = choose|i: int| 0 <= i < s.len() && s[i] == a;
            if i < at {
                assert(t[i] == a);
            } else {
                assert(t[i + 1] == a);
            }
        }
        if a == x {
            assert(t[at] == a);
        }
    }
}

/// A sequence without duplicates, less one element, holds what it held but
/// that element.
proof fn lemma_remove_to_set<A>(s: Seq<A>, at: int)
    requires
        0 <= at < s.len(),
        s.no_duplicates(),
    ensures
        s.remove(at).to_set() =~= s.to_set().remove(s[at]),
{
    let t = s.remove(at);
    assert forall|a: A| t.to_set().contains(a) <==> s.to_set().remove(s[at]).contains(a) by {
        if t.contains(a) {
            let i = choose|i: int| 0 <= i < t.len() && t[i] == a;
            if i < at {
                assert(s[i] == a);
            } else {
                assert(s[i + 1] == a);
            }
        }
        if s.contains(a) && a != s[at] {
            let i = choose|i: int| 0 <= i < s.len() && s[i] == a;
            if i < at {
                assert(t[i] == a);
            } else {
                assert(t[i - 1] == a);
            }
        }
    }
}

/// Texts in ascending order are all different.
proof fn lemma_ascending_distinct(texts: Seq<Seq<char>>)
    requires
        ascending(texts),
    ensures
        texts.no_duplicates(),
{
    assert forall|i: int, j: int| 0 <= i < texts.len() && 0 <= j < texts.len() && i != j implies texts[i]
        != texts[j] by {
        if i < j {
            lemma_text_lt_asymmetric(texts[i], texts[j]);
        } else {
            lemma_text_lt_asymmetric(texts[j], texts[i]);
        }
    }
}

/// Texts in ascending order are as many as the set of them has elements.
pub proof fn lemma_ascending_count(keys: Seq<String>)
    requires
        ascending(texts_of(keys)),
    ensures
        texts_of(keys).to_set().len() == keys.len(),
{
    lemma_ascending_distinct(texts_of(keys));
    texts_of(keys).unique_seq_to_set();
}

/// Finds the place of `key` among ascending keys: the index of the first key
/// that does not come before it, and whether that key is `key` itself.
fn locate(keys: &Vec<String>, key: &str) -> (r: (usize, bool))
    requires
        ascending(texts_of(keys@)),
    ensures
        r.0 <= keys@.len(),
        forall|j: int| 0 <= j < r.0 ==> text_lt(#[trigger] texts_of(keys@)[j], key@),
        r.1 ==> r.0 < keys@.len() && keys@[r.0 as int]@ == key@,
        !r.1 ==> r.0 == keys@.len() || text_lt(key@, keys@[r.0 as int]@),
        r.1 == texts_of(keys@).to_set().contains(key@),
{
    let wanted = chars_of(key);
    let mut i: usize = 0;
    let mut found = false;
    let mut stop = false;
    while i < keys.len() && !stop
        invariant
            i <= keys.len(),
            wanted@ == key@,
            forall|j: int| 0 <= j < i ==> text_lt(#[trigger] texts_of(keys@)[j], key@),
            found ==> stop,
            stop ==> i < keys.len(),
            stop && found ==> keys@[i as int]@ == key@,
            stop && !found ==> text_lt(key@, keys@[i as int]@),
        decreases keys.len() - i + if stop { 0int } else { 1int },
    {
        match text_order(&chars_of(keys[i].as_str()), &wanted) {
            TextOrder::Before => {
                assert(texts_of(keys@)[i as int] == keys@[i as int]@);
                i += 1;
            },
            TextOrder::Same => {
                found = true;
                stop = true;
            },
            TextOrder::After => {
                stop = true;
            },
        }
    }
    proof {
        let texts = texts_of(keys@);
        if found {
            assert(texts[i as int] == key@);
        } else {
            assert forall|j: int| 0 <= j < texts.len() implies texts[j] != key@ by {
                if j < i {
                    lemma_text_lt_asymmetric(texts[j], key@);
                } else {
                    assert(texts[i as int] == keys@[i as int]@);
                    if j > i {
                        lemma_text_lt_transitive(key@, texts[i as int], texts[j]);
                    }
                    lemma_text_lt_asymmetric(key@, texts[j]);
                }
            }
        }
    }
    (i, found)
}

/// Puts `key` among ascending keys, unless it is there.
fn insert_sorted(keys: &mut Vec<String>, key: String)
    requires
        ascending(texts_of(old(keys)@)),
    ensures
        ascending(texts_of(final(keys)@)),
        texts_of(final(keys)@).to_set() == texts_of(old(keys)@).to_set().insert(key@),
{
    let (at, found) = locate(keys, key.as_str());
    let ghost before = texts_of(keys@);
    if found {
        assert(before.to_set().insert(key@) =~= before.to_set());
        return ;
    }
    keys.insert(at, key);
    proof {
        let after = texts_of(keys@);
        assert(after =~= before.insert(at as int, key@));
        lemma_insert_to_set(before, at as int, key@);
        assert forall|i: int, j: int| 0 <= i < j < after.len() implies text_lt(
            #[trigger] after[i],
            #[trigger] after[j],
        ) by {
            if j < at {
            } else if j == at {
                assert(after[i] == before[i]);
            } else if i < at {
                assert(after[i] == before[i] && after[j] == before[j - 1]);
            } else if i == at {
                assert(after[j] == before[j - 1]);
                if j - 1 > at {
                    lemma_text_lt_transitive(key@, before[at as int], before[j - 1]);
                }
            } else {
                assert(after[i] == before[i - 1] && after[j] == before[j - 1]);
            }
        }
    }
}

/// Takes `key` from among ascending keys, if it is there.
fn remove_sorted(keys: &mut Vec<String>, key: &str)
    requires
        ascending(texts_of(old(keys)@)),
    ensures
        ascending(texts_of(final(keys)@)),
        texts_of(final(keys)@).to_set() == texts_of(old(keys)@).to_set().remove(key@),
{
    let (at, found) = locate(keys, key);
    let ghost before = texts_of(keys@);
    if !found {
        assert(before.to_set().remove(key@) =~= before.to_set());
        return ;
    }
    keys.remove(at);
    proof {
        let after = texts_of(keys@);
        assert(after =~= before.remove(at as int));
        lemma_ascending_distinct(before);
        lemma_remove_to_set(before, at as int);
        assert forall|i: int, j: int| 0 <= i < j < after.len() implies text_lt(
            #[trigger] after[i],
            #[trigger] after[j],
        ) by {
            let bi = if i < at { i } else { i + 1 };
            let bj = if j < at { j } else { j + 1 };
            assert(after[i] == before[bi] && after[j] == before[bj]);
        }
    }
}

/// A set of selected keys, and the index that range selection starts from.
#[derive(Debug)]
pub struct MultiSelectState {
    selected: Vec<String>,
    anchor: Option<usize>,
}

impl View for MultiSelectState {
    type V = Set<Seq<char>>;

    closed spec fn view(&self) -> Set<Seq<char>> {
        texts_of(self.selected@).to_set()
    }
}

impl Clone for MultiSelectState {
    fn clone(&self) -> (r: Self)
        ensures
            r@ == self@,
            r.anchor() == self.anchor(),
    {
        proof {
            use_type_invariant(self);
        }
        let mut keys: Vec<String> = Vec::new();
        let mut i: usize = 0;
        while i < self.selected.len()
            invariant
                i <= self.selected.len(),
                keys@ == self.selected@.take(i as int),
            decreases self.selected.len() - i,
        {
            keys.push(self.selected[i].clone());
            assert(keys@ =~= self.selected@.take(i + 1));
            i += 1;
        }
        assert(self.selected@.take(self.selected.len() as int) =~= self.selected@);
        MultiSelectState { selected: keys, anchor: self.anchor }
    }
}

impl Default for MultiSelectState {
    fn default() -> (r: Self)
        ensures
            r@ == Set::<Seq<char>>::empty(),
            r.anchor() is None,
    {
        let state = MultiSelectState { selected: Vec::new(), anchor: None };
        assert(state@ =~= Set::<Seq<char>>::empty());
        state
    }
}

impl MultiSelectState {
    #[verifier::type_invariant]
    spec fn well_formed(self) -> bool {
        ascending(texts_of(self.selected@))
    }

    /// The anchor: the index that the last explicit focus left behind.
    pub closed spec fn anchor(&self) -> Option<usize> {
        self.anchor
    }

    /// The selected keys, in ascending dictionary order, each once.
    pub fn selected(&self) -> (r: &Vec<String>)
        ensures
            texts_of(r@).to_set() == self@,
            ascending(texts_of(r@)),
    {
        proof {
            use_type_invariant(self);
        }
        &self.selected
    }

    /// Whether `key` is selected.
    pub fn is_selected(&self, key: &str) -> (r: bool)
        ensures
            r == self@.contains(key@),
    {
        proof {
            use_type_invariant(self);
        }
        let (_, found) = locate(&self.selected, key);
        found
    }

    /// Moves or removes the anchor; the selection stays.
    pub fn set_anchor(&mut self, anchor_idx: Option<usize>)
        ensures
            final(self)@ == old(self)@,
            final(self).anchor() == anchor_idx,
    {
        proof {
            use_type_invariant(&*self);
        }
        self.anchor = anchor_idx;
    }

    /// Empties the selection and removes the anchor.
    pub fn clear(&mut self)
        ensures
            final(self)@ == Set::<Seq<char>>::empty(),
            final(self).anchor() is None,
    {
        self.selected = Vec::new();
        self.anchor = None;
        assert(self@ =~= Set::<Seq<char>>::empty());
    }

    /// Selects `key` alone and anchors at `anchor_idx`.
    pub fn set_single(&mut self, key: String, anchor_idx: usize)
        ensures
            final(self)@ == Set::<Seq<char>>::empty().insert(key@),
            final(self).anchor() == Some(anchor_idx),
    {
        let mut keys: Vec<String> = Vec::new();
        assert(texts_of(keys@).to_set() =~= Set::<Seq<char>>::empty());
        insert_sorted(&mut keys, key);
        self.selected = keys;
        self.anchor = Some(anchor_idx);
    }

    /// Selects `key` if it was not selected and deselects it if it was;
    /// anchors at `anchor_idx` either way.
    pub fn toggle(&mut self, key: String, anchor_idx: usize)
        ensures
            final(self)@ == if old(self)@.contains(key@) {
                old(self)@.remove(key@)
            } else {
                old(self)@.insert(key@)
            },
            final(self).anchor() == Some(anchor_idx),
    {
        proof {
            use_type_invariant(&*self);
        }
        let mut keys: Vec<String> = Vec::new();
        std::mem::swap(&mut keys, &mut self.selected);
        let (_, found) = locate(&keys, key.as_str());
        if found {
            remove_sorted(&mut keys, key.as_str());
        } else {
            insert_sorted(&mut keys, key);
        }
        self.selected = keys;
        self.anchor = Some(anchor_idx);
    }

    /// Extends the selection by a range of `keys`.
    ///
    /// With an anchor, the keys at the indices between the anchor and
    /// `target_idx` (both included, in either order) join the selection, and
    /// the anchor stays. Without one, the key at `target_idx` becomes the whole
    /// selection and the anchor, if `keys` has such an index.
    pub fn range_select(&mut self, keys: &[String], target_idx: usize)
        ensures
            match old(self).anchor() {
                Some(a) => {
                    &&& final(self)@ == old(self)@.union(
                        keys_between(
                            keys@,
                            if a <= target_idx { a as int } else { target_idx as int },
                            if a <= target_idx { target_idx as int } else { a as int },
                        ),
                    )
                    &&& final(self).anchor() == Some(a)
                },
                None => if target_idx < keys@.len() {
                    &&& final(self)@ == Set::<Seq<char>>::empty().insert(keys@[target_idx as int]@)
                    &&& final(self).anchor() == Some(target_idx)
                } else {
                    &&& final(self)@ == old(self)@
                    &&& final(self).anchor() is None
                },
            },
    {
        proof {
            use_type_invariant(&*self);
        }
        let anchor = match self.anchor {
            Some(a) => a,
            None => {
                if target_idx < keys.len() {
                    self.set_single(keys[target_idx].clone(), target_idx);
                }
                return ;
            },
        };
        let lo: usize = if anchor <= target_idx { anchor } else { target_idx };
        let hi: usize = if anchor <= target_idx { target_idx } else { anchor };
        let ghost before = self@;
        let mut chosen: Vec<String> = Vec::new();
        std::mem::swap(&mut chosen, &mut self.selected);
        let mut i: usize = lo;
        assert(keys_between(keys@, lo as int, lo - 1) =~= Set::<Seq<char>>::empty());
        assert(before.union(Set::<Seq<char>>::empty()) =~= before);
        while i <= hi && i < keys.len()
            invariant
                lo <= i <= hi + 1,
                ascending(texts_of(chosen@)),
                texts_of(chosen@).to_set() == before.union(keys_between(keys@, lo as int, i - 1)),
            decreases keys.len() - i,
        {
            insert_sorted(&mut chosen, keys[i].clone());
            assert(texts_of(chosen@).to_set() =~= before.union(
                keys_between(keys@, lo as int, i as int),
            ));
            i += 1;
        }
        assert(keys_between(keys@, lo as int, i - 1) =~= keys_between(keys@, lo as int, hi as int));
        self.selected = chosen;
    }

    /// Keeps the selected keys that are among `existing`. An empty
    /// `existing` means an empty list, and then the anchor goes too.
    pub fn retain_existing(&mut self, existing: &[String])
        ensures
            final(self)@ == old(self)@.intersect(texts_of(existing@).to_set()),
            final(self).anchor() == if existing@.len() == 0 {
                None
            } else {
                old(self).anchor()
            },
    {
        proof {
            use_type_invariant(&*self);
        }
        let mut old_keys: Vec<String> = Vec::new();
        std::mem::swap(&mut old_keys, &mut self.selected);
        let ghost before = texts_of(old_keys@).to_set();
        let ghost valid = texts_of(existing@);
        let mut kept: Vec<String> = Vec::new();
        let mut i: usize = 0;
        assert(texts_of(kept@).to_set() =~= Set::<Seq<char>>::empty());
        assert(valid.take(0).to_set().intersect(before) =~= Set::<Seq<char>>::empty());
        while i < existing.len()
            invariant
                i <= existing.len(),
                valid == texts_of(existing@),
                before == texts_of(old_keys@).to_set(),
                ascending(texts_of(old_keys@)),
                ascending(texts_of(kept@)),
                texts_of(kept@).to_set() == valid.take(i as int).to_set().intersect(before),
            decreases existing.len() - i,
        {
            proof {
                valid.take(i as int).lemma_push_to_set_commute(valid[i as int]);
                assert(valid.take(i + 1) =~= valid.take(i as int).push(valid[i as int]));
            }
            let (_, found) = locate(&old_keys, existing[i].as_str());
            if found {
                insert_sorted(&mut kept, existing[i].clone());
            }
            assert(texts_of(kept@).to_set() =~= valid.take(i + 1).to_set().intersect(before));
            i += 1;
        }
        assert(valid.take(existing.len() as int) =~= valid);
        assert(valid.to_set().intersect(before) =~= before.intersect(valid.to_set()));
        self.selected = kept;
        if existing.len() == 0 {
            self.anchor = None;
        }
    }

    /// Selects exactly the keys of `keys`; the anchor stays.
    pub fn select_all(&mut self, keys: &[String])
        ensures
            final(self)@ == texts_of(keys@).to_set(),
            final(self).anchor() == old(self).anchor(),
    {
        let ghost all = texts_of(keys@);
        let mut chosen: Vec<String> = Vec::new();
        let mut i: usize = 0;
        assert(texts_of(chosen@).to_set() =~= all.take(0).to_set());
        while i < keys.len()
            invariant
                i <= keys.len(),
                all == texts_of(keys@),
                ascending(texts_of(chosen@)),
                texts_of(chosen@).to_set() == all.take(i as int).to_set(),
            decreases keys.len() - i,
        {
            proof {
                all.take(i as int).lemma_push_to_set_commute(all[i as int]);
                assert(all.take(i + 1) =~= all.take(i as int).push(all[i as int]));
            }
            insert_sorted(&mut chosen, keys[i].clone());
            i += 1;
        }
        assert(all.take(keys.len() as int) =~= all);
        self.selected = chosen;
    }

    /// Replaces the selection by its complement within `keys`: the keys of
    /// the whole list that were not selected. The anchor stays.
    pub fn invert(&mut self, keys: &[String])
        ensures
            final(self)@ == texts_of(keys@).to_set().difference(old(self)@),
            final(self).anchor() == old(self).anchor(),
    {
        proof {
            use_type_invariant(&*self);
        }
        let ghost all = texts_of(keys@);
        let ghost before = self@;
        let mut next: Vec<String> = Vec::new();
        let mut i: usize = 0;
        assert(texts_of(next@).to_set() =~= all.take(0).to_set().difference(before));
        while i < keys.len()
            invariant
                i <= keys.len(),
                all == texts_of(keys@),
                before == texts_of(self.selected@).to_set(),
                ascending(texts_of(self.selected@)),
                self.anchor == old(self).anchor,
                ascending(texts_of(next@)),
                texts_of(next@).to_set() == all.take(i as int).to_set().difference(before),
            decreases keys.len() - i,
        {
            proof {
                all.take(i as int).lemma_push_to_set_commute(all[i as int]);
                assert(all.take(i + 1) =~= all.take(i as int).push(all[i as int]));
            }
            let (_, found) = locate(&self.selected, keys[i].as_str());
            if !found {
                insert_sorted(&mut next, keys[i].clone());
            }
            assert(texts_of(next@).to_set() =~= all.take(i + 1).to_set().difference(before));
            i += 1;
        }
        assert(all.take(keys.len() as int) =~= all);
        self.selected = next;
    }
}

} // verus!
