//! The fuzzy filter of the file picker: subsequence matching of a query
//! against labels, and the ranking of the labels that match.

use crate::text::{
    chars_of, is_control, is_control_char, lemma_text_lt_transitive,
    lemma_text_order_total, lower, lower_ascii, lowered, lowered_chars, string_of, text_lt,
    text_order, texts_of, trimmed, trimmed_text, TextOrder,
};
use crate::selection::{ascending, keys_between, MultiSelectState};
use vstd::prelude::*;
use vstd::string::StrSliceExecFns;

verus! {

/// What the picker asks its owner to do.
#[derive(Debug, Clone, Copy, PartialEq, Eq, Structural)]
pub enum PickerAction {
    /// Nothing to do.
    Nothing,
    /// The user confirmed the selection.
    Confirm,
    /// The user cancelled.
    Cancel,
}

/// The first index at or after `from` at which `label` holds `c`, letter
/// case aside.
pub open spec fn first_match(label: Seq<char>, c: char, from: int) -> Option<int>
    decreases label.len() - from,
{
    if from < 0 || from >= label.len() {
        None
    } else if lower(label[from]) == lower(c) {
        Some(from)
    } else {
        first_match(label, c, from + 1)
    }
}

/// `positions` put in front of what is still to come, if anything is.
pub open spec fn extended(positions: Seq<int>, rest: Option<Seq<int>>) -> Option<Seq<int>> {
    match rest {
        Some(rest) => Some(positions + rest),
        None => None,
    }
}

/// The positions at which the characters of `query` are found in `label`
/// from `from` on, each at the first place after the one before; nothing if
/// `label` runs out first.
pub open spec fn greedy_positions(label: Seq<char>, query: Seq<char>, from: int) -> Option<
    Seq<int>,
>
    decreases query.len(),
{
    if query.len() == 0 {
        Some(Seq::empty())
    } else {
        match first_match(label, query[0], from) {
            Some(at) => extended(seq![at], greedy_positions(label, query.skip(1), at + 1)),
            None => None,
        }
    }
}

/// How many positions directly follow the position before them.
pub open spec fn adjacent_pairs(positions: Seq<int>) -> nat
    decreases positions.len(),
{
    if positions.len() < 2 {
        0
    } else {
        adjacent_pairs(positions.drop_last()) + if positions[positions.len() - 1]
            == positions[positions.len() - 2] + 1 {
            1nat
        } else {
            0nat
        }
    }
}

/// The score of a match: ten for each matched character, fifteen for each
/// that directly follows the one before, less the position of the first.
pub open spec fn score_of(positions: Seq<int>) -> int {
    if positions.len() == 0 {
        0
    } else {
        10 * positions.len() + 15 * adjacent_pairs(positions) - positions[0]
    }
}

/// The match of `query` in `label`: the score and the matched positions, or
/// nothing if `query` is no subsequence of `label`.
pub open spec fn fuzzy_match(label: Seq<char>, query: Seq<char>) -> Option<(int, Seq<int>)> {
    match greedy_positions(label, query, 0) {
        Some(positions) => Some((score_of(positions), positions)),
        None => None,
    }
}

/// The positions of a match as mathematical integers.
pub open spec fn indices(positions: Seq<usize>) -> Seq<int> {
    Seq::new(positions.len(), |i: int| positions[i] as int)
}

/// `label` with each control character replaced by U+FFFD.
pub open spec fn sanitized(label: Seq<char>) -> Seq<char> {
    Seq::new(
        label.len(),
        |i: int| if is_control_char(label[i]) {
            '\u{fffd}'
        } else {
            label[i]
        },
    )
}

/// Replaces the control characters of a file name, which would disturb the
/// terminal, by a visible placeholder.
pub fn sanitize_label(s: &str) -> (r: String)
    ensures
        r@ == sanitized(s@),
{
    let chars = chars_of(s);
    let mut out: Vec<char> = Vec::new();
    let mut i: usize = 0;
    while i < chars.len()
        invariant
            i <= chars.len(),
            chars@ == s@,
            out@ == sanitized(s@).take(i as int),
        decreases chars.len() - i,
    {
        if is_control(chars[i]) {
            out.push('\u{fffd}');
        } else {
            out.push(chars[i]);
        }
        assert(out@ =~= sanitized(s@).take(i + 1));
        i += 1;
    }
    assert(sanitized(s@).take(chars.len() as int) =~= sanitized(s@));
    string_of(&out)
}

/// Skipping ahead over characters that do not match changes nothing.
proof fn lemma_first_match_skips(label: Seq<char>, c: char, from: int)
    requires
        0 <= from < label.len(),
        lower(label[from]) != lower(c),
    ensures
        first_match(label, c, from) == first_match(label, c, from + 1),
{
}

/// The positions of a greedy match lie within the label from `from` on, and
/// each lies after the one before.
pub proof fn lemma_greedy_positions_increase(label: Seq<char>, query: Seq<char>, from: int)
    requires
        0 <= from,
    ensures
        greedy_positions(label, query, from) matches Some(positions) ==> {
            &&& positions.len() == query.len()
            &&& forall|k: int| 0 <= k < positions.len() ==> from <= #[trigger] positions[k] < label.len()
            &&& forall|j: int, k: int|
                0 <= j < k < positions.len() ==> #[trigger] positions[j] < #[trigger] positions[k]
            &&& forall|k: int|
                0 <= k < positions.len() ==> lower(label[#[trigger] positions[k]]) == lower(query[k])
        },
    decreases query.len(),
{
    if query.len() > 0 {
        lemma_first_match_found(label, query[0], from);
        match first_match(label, query[0], from) {
            Some(at) => {
                lemma_greedy_positions_increase(label, query.skip(1), at + 1);
            },
            None => {},
        }
    }
}

/// Where a first match is found, it is a match at or after `from`.
pub proof fn lemma_first_match_found(label: Seq<char>, c: char, from: int)
    requires
        0 <= from,
    ensures
        first_match(label, c, from) matches Some(at) ==> from <= at < label.len() && lower(
            label[at],
        ) == lower(c),
    decreases label.len() - from,
{
    if from < label.len() && lower(label[from]) != lower(c) {
        lemma_first_match_found(label, c, from + 1);
    }
}

/// Matches `query` against `label` as a subsequence, letter case aside, and
/// scores the match.
///
/// Each character of the query is taken at the first place in the label
/// after the place of the character before it. The empty query matches with
/// score 0 and no positions.
pub fn subseq_score(label: &str, query: &str) -> (r: Option<(i64, Vec<usize>)>)
    requires
        26 * label@.len() <= i64::MAX,
    ensures
        match r {
            Some((score, positions)) => fuzzy_match(label@, query@) == Some(
                (score as int, indices(positions@)),
            ),
            None => fuzzy_match(label@, query@) is None,
        },
{
    let label_chars = chars_of(label);
    let query_chars = chars_of(query);
    let mut found: Vec<usize> = Vec::new();
    let mut li: usize = 0;
    let mut qi: usize = 0;
    assert(query@.skip(0) =~= query@);
    while qi < query_chars.len()
        invariant
            label_chars@ == label@,
            query_chars@ == query@,
            qi <= query_chars.len(),
            li <= label_chars.len(),
            found@.len() == qi,
            greedy_positions(label@, query@, 0) == extended(
                indices(found@),
                greedy_positions(label@, query@.skip(qi as int), li as int),
            ),
        decreases query_chars.len() - qi,
    {
        let wanted = lower_ascii(query_chars[qi]);
        let ghost start = li;
        while li < label_chars.len() && lower_ascii(label_chars[li]) != wanted
            invariant
                label_chars@ == label@,
                query_chars@ == query@,
                qi < query_chars.len(),
                wanted == lower(query@[qi as int]),
                start <= li <= label_chars.len(),
                first_match(label@, query@[qi as int], start as int) == first_match(
                    label@,
                    query@[qi as int],
                    li as int,
                ),
            decreases label_chars.len() - li,
        {
            proof {
                lemma_first_match_skips(label@, query@[qi as int], li as int);
            }
            li += 1;
        }
        let ghost rest = query@.skip(qi as int);
        assert(rest[0] == query@[qi as int]);
        assert(rest.skip(1) =~= query@.skip(qi + 1));
        if li == label_chars.len() {
            return None;
        }
        let ghost before = indices(found@);
        found.push(li);
        proof {
            assert(indices(found@) =~= before + seq![li as int]);
            let tail = greedy_positions(label@, query@.skip(qi + 1), li + 1);
            match tail {
                Some(t) => {
                    assert(before + (seq![li as int] + t) =~= indices(found@) + t);
                },
                None => {},
            }
        }
        li += 1;
        qi += 1;
    }
    assert(query@.skip(query@.len() as int) =~= Seq::<char>::empty());
    assert(indices(found@) + Seq::<int>::empty() =~= indices(found@));
    proof {
        lemma_greedy_positions_increase(label@, query@, 0);
    }
    if found.len() == 0 {
        return Some((0, found));
    }
    let count = found.len();
    assert(count <= label@.len()) by {
        // The positions are distinct places of the label, in increasing order.
        let positions = indices(found@);
        assert forall|k: int| 0 <= k < positions.len() implies k <= #[trigger] positions[k] by {
            lemma_increasing_from(positions, k);
        }
        assert(positions[count - 1] < label@.len());
    }
    let mut bonus: i64 = 0;
    let mut k: usize = 1;
    while k < count
        invariant
            1 <= k <= count,
            count == found@.len(),
            26 * count <= i64::MAX,
            bonus == 15 * adjacent_pairs(indices(found@).take(k as int)),
            0 <= bonus <= 15 * (k - 1),
        decreases count - k,
    {
        let ghost upto = indices(found@).take(k + 1);
        assert(upto.drop_last() =~= indices(found@).take(k as int));
        if found[k - 1] < usize::MAX && found[k] == found[k - 1] + 1 {
            bonus = bonus + 15;
        }
        k += 1;
    }
    assert(indices(found@).take(count as int) =~= indices(found@));
    let score: i64 = 10 * (count as i64) + bonus - (found[0] as i64);
    Some((score, found))
}

/// In a strictly increasing sequence of natural numbers, the `k`-th is at
/// least `k`.
proof fn lemma_increasing_from(positions: Seq<int>, k: int)
    requires
        0 <= k < positions.len(),
        forall|i: int| 0 <= i < positions.len() ==> 0 <= #[trigger] positions[i],
        forall|i: int, j: int|
            0 <= i < j < positions.len() ==> #[trigger] positions[i] < #[trigger] positions[j],
    ensures
        k <= positions[k],
    decreases k,
{
    if k > 0 {
        lemma_increasing_from(positions, k - 1);
    }
}

/// One label that passed the filter.
#[derive(Debug, Clone)]
pub struct VisibleItem {
    /// The index of the label in the list that was filtered.
    pub item_idx: usize,
    /// The score of the match.
    pub score: i64,
    /// The positions, in characters, at which the label matches the query.
    pub match_indices: Vec<usize>,
}

/// Whether `a` ranks before `b`: by the higher score; among equal scores by
/// the label that comes first in the order of a dictionary, letter case
/// aside; among labels that are then the same, by the place in the list.
pub open spec fn ranks_before(labels: Seq<Seq<char>>, a: VisibleItem, b: VisibleItem) -> bool {
    let a_key = lowered(labels[a.item_idx as int]);
    let b_key = lowered(labels[b.item_idx as int]);
    ||| a.score > b.score
    ||| (a.score == b.score && text_lt(a_key, b_key))
    ||| (a.score == b.score && a_key == b_key && a.item_idx < b.item_idx)
}

/// Whether `out` is the ranking of the first `n` labels under `query`: it
/// holds exactly the labels among them that match, each with its score and
/// positions, best first.
pub open spec fn ranked_upto(
    labels: Seq<Seq<char>>,
    query: Seq<char>,
    out: Seq<VisibleItem>,
    n: int,
) -> bool {
    &&& forall|k: int|
        0 <= k < out.len() ==> {
            &&& (#[trigger] out[k]).item_idx < n
            &&& fuzzy_match(labels[out[k].item_idx as int], query) == Some(
                (out[k].score as int, indices(out[k].match_indices@)),
            )
        }
    &&& forall|i: int|
        0 <= i < n && (#[trigger] fuzzy_match(labels[i], query)) is Some ==> exists|k: int|
            0 <= k < out.len() && (#[trigger] out[k]).item_idx == i
    &&& forall|j: int, k: int|
        0 <= j < k < out.len() ==> ranks_before(labels, #[trigger] out[j], #[trigger] out[k])
}

/// Whether `out` is the ranking of `labels` under `query`.
pub open spec fn is_ranking(labels: Seq<Seq<char>>, query: Seq<char>, out: Seq<VisibleItem>) -> bool {
    ranked_upto(labels, query, out, labels.len() as int)
}

/// Of two items for different labels, one ranks before the other.
pub proof fn lemma_rank_total(labels: Seq<Seq<char>>, a: VisibleItem, b: VisibleItem)
    requires
        a.item_idx != b.item_idx,
    ensures
        ranks_before(labels, a, b) || ranks_before(labels, b, a),
{
    lemma_text_order_total(lowered(labels[a.item_idx as int]), lowered(labels[b.item_idx as int]));
}

/// Ranking before is transitive.
pub proof fn lemma_rank_transitive(
    labels: Seq<Seq<char>>,
    a: VisibleItem,
    b: VisibleItem,
    c: VisibleItem,
)
    requires
        ranks_before(labels, a, b),
        ranks_before(labels, b, c),
    ensures
        ranks_before(labels, a, c),
{
    let a_key = lowered(labels[a.item_idx as int]);
    let b_key = lowered(labels[b.item_idx as int]);
    let c_key = lowered(labels[c.item_idx as int]);
    if a.score == b.score && b.score == c.score {
        if text_lt(a_key, b_key) && text_lt(b_key, c_key) {
            lemma_text_lt_transitive(a_key, b_key, c_key);
        }
    }
}

/// Putting a new match at the first place where it ranks before what is
/// there keeps a ranking a ranking.
proof fn lemma_insert_ranked(
    labels: Seq<Seq<char>>,
    query: Seq<char>,
    out: Seq<VisibleItem>,
    item: VisibleItem,
    p: int,
)
    requires
        0 <= item.item_idx < labels.len(),
        ranked_upto(labels, query, out, item.item_idx as int),
        fuzzy_match(labels[item.item_idx as int], query) == Some(
            (item.score as int, indices(item.match_indices@)),
        ),
        0 <= p <= out.len(),
        forall|k: int| 0 <= k < p ==> !ranks_before(labels, item, #[trigger] out[k]),
        p < out.len() ==> ranks_before(labels, item, out[p]),
    ensures
        ranked_upto(labels, query, out.insert(p, item), item.item_idx + 1),
{
    let next = out.insert(p, item);
    let n = item.item_idx as int;
    assert forall|k: int| 0 <= k < next.len() implies {
        &&& (#[trigger] next[k]).item_idx < n + 1
        &&& fuzzy_match(labels[next[k].item_idx as int], query) == Some(
            (next[k].score as int, indices(next[k].match_indices@)),
        )
    } by {
        if k < p {
            assert(next[k] == out[k]);
        } else if k > p {
            assert(next[k] == out[k - 1]);
        }
    }
    assert forall|i: int|
        0 <= i < n + 1 && (#[trigger] fuzzy_match(labels[i], query)) is Some implies exists|
        k: int,
    |
        0 <= k < next.len() && (#[trigger] next[k]).item_idx == i by {
        if i == n {
            assert(next[p].item_idx == i);
        } else {
            let k = choose|k: int| 0 <= k < out.len() && (#[trigger] out[k]).item_idx == i;
            if k < p {
                assert(next[k] == out[k]);
            } else {
                assert(next[k + 1] == out[k]);
            }
        }
    }
    assert forall|j: int, k: int| 0 <= j < k < next.len() implies ranks_before(
        labels,
        #[trigger] next[j],
        #[trigger] next[k],
    ) by {
        if k < p {
            assert(next[j] == out[j] && next[k] == out[k]);
        } else if k == p {
            assert(next[j] == out[j]);
            assert(out[j].item_idx != item.item_idx);
            lemma_rank_total(labels, item, out[j]);
        } else if j < p {
            assert(next[j] == out[j] && next[k] == out[k - 1]);
        } else if j == p {
            assert(next[k] == out[k - 1]);
            if k - 1 > p {
                assert(ranks_before(labels, out[p], out[k - 1]));
                lemma_rank_transitive(labels, item, out[p], out[k - 1]);
            }
        } else {
            assert(next[j] == out[j - 1] && next[k] == out[k - 1]);
        }
    }
}

/// Whether `a` ranks before `b`; `folded` holds the labels in lower case.
fn item_before(a: &VisibleItem, b: &VisibleItem, folded: &Vec<Vec<char>>, labels: &Vec<String>) -> (r:
    bool)
    requires
        folded@.len() == labels@.len(),
        forall|i: int| 0 <= i < folded@.len() ==> (#[trigger] folded@[i])@ == lowered(labels@[i]@),
        a.item_idx < labels@.len(),
        b.item_idx < labels@.len(),
    ensures
        r == ranks_before(texts_of(labels@), *a, *b),
{
    if a.score != b.score {
        return a.score > b.score;
    }
    match text_order(&folded[a.item_idx], &folded[b.item_idx]) {
        TextOrder::Before => true,
        TextOrder::Same => a.item_idx < b.item_idx,
        TextOrder::After => false,
    }
}

/// Filters and ranks `labels` by `query`, which is taken as it is.
///
/// The result holds one item for each label that `query` matches, with the
/// label's index, score and matched positions: the higher score first; among
/// equal scores the label that comes first in the order of a dictionary,
/// letter case aside; then the label that stands first in `labels`.
pub fn rank_labels(labels: &Vec<String>, query: &str) -> (r: Vec<VisibleItem>)
    requires
        forall|i: int| 0 <= i < labels@.len() ==> 26 * (#[trigger] labels@[i])@.len() <= i64::MAX,
    ensures
        is_ranking(texts_of(labels@), query@, r@),
{
    let mut folded: Vec<Vec<char>> = Vec::new();
    let mut i: usize = 0;
    while i < labels.len()
        invariant
            i <= labels.len(),
            folded@.len() == i,
            forall|k: int| 0 <= k < i ==> (#[trigger] folded@[k])@ == lowered(labels@[k]@),
        decreases labels.len() - i,
    {
        folded.push(lowered_chars(labels[i].as_str()));
        i += 1;
    }
    let mut out: Vec<VisibleItem> = Vec::new();
    let mut i: usize = 0;
    while i < labels.len()
        invariant
            i <= labels.len(),
            folded@.len() == labels@.len(),
            forall|k: int| 0 <= k < folded@.len() ==> (#[trigger] folded@[k])@ == lowered(labels@[k]@),
            forall|k: int| 0 <= k < labels@.len() ==> 26 * (#[trigger] labels@[k])@.len() <= i64::MAX,
            ranked_upto(texts_of(labels@), query@, out@, i as int),
        decreases labels.len() - i,
    {
        match subseq_score(labels[i].as_str(), query) {
            Some((score, match_indices)) => {
                let item = VisibleItem { item_idx: i, score, match_indices };
                let mut p: usize = 0;
                while p < out.len() && !item_before(&item, &out[p], &folded, labels)
                    invariant
                        p <= out.len(),
                        item.item_idx == i,
                        i < labels.len(),
                        folded@.len() == labels@.len(),
                        forall|k: int|
                            0 <= k < folded@.len() ==> (#[trigger] folded@[k])@ == lowered(
                                labels@[k]@,
                            ),
                        forall|k: int|
                            0 <= k < out.len() ==> (#[trigger] out@[k]).item_idx < labels@.len(),
                        forall|k: int|
                            0 <= k < p ==> !ranks_before(
                                texts_of(labels@),
                                item,
                                #[trigger] out@[k],
                            ),
                    decreases out.len() - p,
                {
                    p += 1;
                }
                proof {
                    lemma_insert_ranked(texts_of(labels@), query@, out@, item, p as int);
                }
                out.insert(p, item);
            },
            None => {},
        }
        i += 1;
    }
    out
}

/// Filters and ranks `labels` by `query` without the white space around it.
/// See `rank_labels`.
pub fn recompute_visible(labels: &Vec<String>, query: &str) -> (r: Vec<VisibleItem>)
    requires
        forall|i: int| 0 <= i < labels@.len() ==> 26 * (#[trigger] labels@[i])@.len() <= i64::MAX,
    ensures
        is_ranking(texts_of(labels@), trimmed_text(query@), r@),
{
    rank_labels(labels, trimmed(query).as_str())
}

/// A match of `query` in `label` has one position for each character of the
/// query: the positions lie in the label, each after the one before, and
/// the label holds there the character of the query, letter case aside. Its
/// score is that of its positions.
pub proof fn lemma_match_positions(label: Seq<char>, query: Seq<char>)
    ensures
        fuzzy_match(label, query) matches Some((score, positions)) ==> {
            &&& score == score_of(positions)
            &&& positions.len() == query.len()
            &&& forall|k: int| 0 <= k < positions.len() ==> 0 <= #[trigger] positions[k] < label.len()
            &&& forall|j: int, k: int|
                0 <= j < k < positions.len() ==> #[trigger] positions[j] < #[trigger] positions[k]
            &&& forall|k: int|
                0 <= k < positions.len() ==> lower(label[#[trigger] positions[k]]) == lower(query[k])
        },
{
    lemma_greedy_positions_increase(label, query, 0);
}

/// The positions `from`, `from + 1`, and so on, `n` of them.
pub open spec fn run(from: int, n: nat) -> Seq<int> {
    Seq::new(n, |i: int| from + i)
}

/// Among `n` positions at most `n - 1` follow the one before directly, and
/// where that many do, the positions are a run.
proof fn lemma_adjacent_pairs_bound(positions: Seq<int>)
    ensures
        positions.len() == 0 ==> adjacent_pairs(positions) == 0,
        positions.len() > 0 ==> adjacent_pairs(positions) <= positions.len() - 1,
        positions.len() > 0 && adjacent_pairs(positions) == positions.len() - 1 ==> positions
            == run(positions[0], positions.len()),
    decreases positions.len(),
{
    if positions.len() >= 2 {
        let front = positions.drop_last();
        lemma_adjacent_pairs_bound(front);
        if adjacent_pairs(positions) == positions.len() - 1 {
            assert(front == run(front[0], front.len()));
            assert(front[front.len() - 1] == front[0] + (front.len() - 1));
            assert(positions[positions.len() - 2] == front[front.len() - 1]);
            assert forall|i: int| 0 <= i < positions.len() implies #[trigger] positions[i]
                == positions[0] + i by {
                if i < front.len() {
                    assert(positions[i] == front[i]);
                }
            }
            assert(positions =~= run(positions[0], positions.len()));
        }
    } else if positions.len() == 1 {
        assert(positions =~= run(positions[0], 1));
    }
}

/// In a run every position but the first follows the one before directly.
proof fn lemma_run_adjacent(from: int, n: nat)
    ensures
        n > 0 ==> adjacent_pairs(run(from, n)) == n - 1,
    decreases n,
{
    if n >= 2 {
        lemma_run_adjacent(from, (n - 1) as nat);
        assert(run(from, n).drop_last() =~= run(from, (n - 1) as nat));
    }
}

/// Where `label` holds the characters of `query` one after the other from
/// `from` on, the match from `from` takes them there.
proof fn lemma_greedy_run(label: Seq<char>, query: Seq<char>, from: int)
    requires
        0 <= from,
        from + query.len() <= label.len(),
        forall|i: int| 0 <= i < query.len() ==> lower(label[from + i]) == lower(#[trigger] query[i]),
    ensures
        greedy_positions(label, query, from) == Some(run(from, query.len())),
    decreases query.len(),
{
    if query.len() == 0 {
        assert(run(from, 0) =~= Seq::<int>::empty());
    } else {
        assert(lower(label[from + 0]) == lower(query[0]));
        let rest = query.skip(1);
        assert forall|i: int| 0 <= i < rest.len() implies lower(label[from + 1 + i]) == lower(
            #[trigger] rest[i],
        ) by {
            assert(rest[i] == query[i + 1]);
            assert(lower(label[from + (i + 1)]) == lower(query[i + 1]));
        }
        lemma_greedy_run(label, rest, from + 1);
        assert(seq![from] + run(from + 1, rest.len()) =~= run(from, query.len()));
    }
}

/// A label that holds the query in one piece, beginning at the first place
/// `p` where the first character of the query occurs at all, matches there
/// and scores 25 for each character of the query, less 15, less `p`.
pub proof fn lemma_adjacent_match_score(label: Seq<char>, query: Seq<char>, p: int)
    requires
        query.len() > 0,
        first_match(label, query[0], 0) == Some(p),
        p + query.len() <= label.len(),
        forall|i: int| 0 <= i < query.len() ==> lower(label[p + i]) == lower(#[trigger] query[i]),
    ensures
        fuzzy_match(label, query) == Some((25 * query.len() - 15 - p, run(p, query.len()))),
{
    lemma_first_match_found(label, query[0], 0);
    let rest = query.skip(1);
    assert forall|i: int| 0 <= i < rest.len() implies lower(label[p + 1 + i]) == lower(
        #[trigger] rest[i],
    ) by {
        assert(rest[i] == query[i + 1]);
        assert(lower(label[p + (i + 1)]) == lower(query[i + 1]));
    }
    lemma_greedy_run(label, rest, p + 1);
    assert(seq![p] + run(p + 1, rest.len()) =~= run(p, query.len()));
    lemma_run_adjacent(p, query.len());
}

/// A label that begins with the query, letter case aside, matches at its
/// beginning and scores 25 for each character of the query, less 15.
pub proof fn lemma_prefix_match_score(label: Seq<char>, query: Seq<char>)
    requires
        query.len() > 0,
        lowered(query).is_prefix_of(lowered(label)),
    ensures
        fuzzy_match(label, query) == Some((25 * query.len() - 15, run(0, query.len()))),
{
    assert forall|i: int| 0 <= i < query.len() implies lower(label[0 + i]) == lower(
        #[trigger] query[i],
    ) by {
        assert(lowered(query)[i] == lowered(label).subrange(0, query.len() as int)[i]);
        assert(lowered(label)[i] == lower(label[i]));
    }
    lemma_adjacent_match_score(label, query, 0);
}

/// No match scores more than 25 for each character of the query, less 15,
/// and only a label that begins with the query, letter case aside, scores
/// that much.
pub proof fn lemma_top_score_needs_prefix(label: Seq<char>, query: Seq<char>)
    requires
        query.len() > 0,
    ensures
        fuzzy_match(label, query) matches Some((score, positions)) ==> {
            &&& score <= 25 * query.len() - 15
            &&& score == 25 * query.len() - 15 ==> lowered(query).is_prefix_of(lowered(label))
        },
{
    lemma_match_positions(label, query);
    match fuzzy_match(label, query) {
        Some((score, positions)) => {
            lemma_adjacent_pairs_bound(positions);
            if score == 25 * query.len() - 15 {
                assert(positions[0] == 0);
                assert(positions == run(0, positions.len()));
                assert(positions[query.len() - 1] == query.len() - 1);
                assert forall|i: int| 0 <= i < query.len() implies lowered(query)[i] == lowered(
                    label,
                ).subrange(0, query.len() as int)[i] by {
                    assert(positions[i] == i);
                    assert(lower(label[positions[i]]) == lower(query[i]));
                }
                assert(lowered(query) =~= lowered(label).subrange(0, query.len() as int));
            }
        },
        None => {},
    }
}

/// A label that begins with the query, letter case aside, scores higher
/// than any label that matches the query without beginning with it.
pub proof fn lemma_prefix_outscores(first: Seq<char>, other: Seq<char>, query: Seq<char>)
    requires
        query.len() > 0,
        lowered(query).is_prefix_of(lowered(first)),
        !lowered(query).is_prefix_of(lowered(other)),
        fuzzy_match(other, query) is Some,
    ensures
        fuzzy_match(first, query) matches Some(top) && fuzzy_match(other, query) matches Some(less)
            && score_of(top.1) > score_of(less.1),
{
    lemma_match_positions(first, query);
    lemma_match_positions(other, query);
    lemma_prefix_match_score(first, query);
    lemma_top_score_needs_prefix(other, query);
}

/// Along the rows of a ranking the score never rises.
pub proof fn lemma_ranking_scores_fall(
    labels: Seq<Seq<char>>,
    query: Seq<char>,
    out: Seq<VisibleItem>,
)
    requires
        is_ranking(labels, query, out),
    ensures
        forall|j: int, k: int|
            0 <= j < k < out.len() ==> (#[trigger] out[j]).score >= (#[trigger] out[k]).score,
{
    assert forall|j: int, k: int| 0 <= j < k < out.len() implies (#[trigger] out[j]).score >= (
    #[trigger] out[k]).score by {
        assert(ranks_before(labels, out[j], out[k]));
    }
}

/// In a ranking a row with a higher score stands before a row with a lower
/// one.
pub proof fn lemma_higher_score_ranks_first(
    labels: Seq<Seq<char>>,
    query: Seq<char>,
    out: Seq<VisibleItem>,
    higher: int,
    lower_row: int,
)
    requires
        is_ranking(labels, query, out),
        0 <= higher < out.len(),
        0 <= lower_row < out.len(),
        out[higher].score > out[lower_row].score,
    ensures
        higher < lower_row,
{
    if lower_row < higher {
        assert(ranks_before(labels, out[lower_row], out[higher]));
    }
}

/// With as many matched characters and as many of them adjacent, the match
/// that begins earlier scores higher.
pub proof fn lemma_earlier_match_scores_higher(a: Seq<int>, b: Seq<int>)
    requires
        a.len() == b.len(),
        a.len() > 0,
        adjacent_pairs(a) == adjacent_pairs(b),
        a[0] < b[0],
    ensures
        score_of(a) > score_of(b),
{
}

/// The part of the picker that takes the keys.
#[derive(Debug, Clone, Copy, PartialEq, Eq, Structural)]
pub enum Focus {
    Search,
    Table,
}

/// One entry of the directory that the picker shows.
#[derive(Debug, Clone)]
pub struct PickerItem {
    pub path: String,
    pub label: String,
    pub is_dir: bool,
    pub size: Option<u64>,
}

/// The labels of the items, in their order.
pub open spec fn item_labels(items: Seq<PickerItem>) -> Seq<Seq<char>> {
    Seq::new(items.len(), |i: int| items[i].label@)
}

/// Whether every label is short enough for its score to fit.
pub open spec fn labels_fit(items: Seq<PickerItem>) -> bool {
    forall|i: int| 0 <= i < items.len() ==> 26 * (#[trigger] items[i]).label@.len() <= i64::MAX
}

/// Whether every label of `items` is short enough for its score to fit.
pub fn labels_all_fit(items: &Vec<PickerItem>) -> (r: bool)
    ensures
        r == labels_fit(items@),
{
    let mut i: usize = 0;
    while i < items.len()
        invariant
            i <= items.len(),
            forall|k: int| 0 <= k < i ==> 26 * (#[trigger] items@[k]).label@.len() <= i64::MAX,
        decreases items.len() - i,
    {
        let length = items[i].label.as_str().unicode_len();
        if length as u64 > 0x04ec_4ec4_ec4e_c4ec {
            return false;
        }
        i += 1;
    }
    true
}

/// The index that `delta` steps from `current` lead to among `len` rows.
pub open spec fn moved(current: Option<usize>, len: usize, delta: i32) -> Option<usize> {
    if len == 0 {
        None
    } else {
        let from = match current {
            Some(i) => i as int,
            None => 0,
        };
        let to = from + delta;
        Some((if to < 0 { 0 } else if to > len - 1 { len - 1 } else { to }) as usize)
    }
}

/// The paths of the items that the rows show, in the order of the rows.
pub open spec fn shown_paths(items: Seq<PickerItem>, visible: Seq<VisibleItem>) -> Seq<String> {
    Seq::new(visible.len(), |k: int| items[visible[k].item_idx as int].path)
}

/// The state of the file picker: the directory shown, the query that
/// filters it, the rows that result, the highlighted row and the selection.
pub struct FilePicker {
    open: bool,
    focus: Focus,
    cwd: String,
    items: Vec<PickerItem>,
    visible: Vec<VisibleItem>,
    highlighted: Option<usize>,
    selection: MultiSelectState,
    query: String,
}

impl FilePicker {
    #[verifier::type_invariant]
    spec fn well_formed(self) -> bool {
        &&& labels_fit(self.items@)
        &&& is_ranking(item_labels(self.items@), trimmed_text(self.query@), self.visible@)
    }

    /// Whether the picker is shown.
    pub closed spec fn shown(&self) -> bool {
        self.open
    }

    /// The entries of the directory.
    pub closed spec fn entries(&self) -> Seq<PickerItem> {
        self.items@
    }

    /// The rows: the entries that the query matches, best first.
    pub closed spec fn rows(&self) -> Seq<VisibleItem> {
        self.visible@
    }

    /// The text of the query.
    pub closed spec fn query_text(&self) -> Seq<char> {
        self.query@
    }

    /// The index of the highlighted row.
    pub closed spec fn highlight(&self) -> Option<usize> {
        self.highlighted
    }

    /// The selected paths.
    pub closed spec fn chosen(&self) -> Set<Seq<char>> {
        self.selection@
    }

    /// The anchor of the selection.
    pub closed spec fn anchor(&self) -> Option<usize> {
        self.selection.anchor()
    }

    /// The part that takes the keys.
    pub closed spec fn focused(&self) -> Focus {
        self.focus
    }

    /// The directory shown.
    pub closed spec fn directory(&self) -> Seq<char> {
        self.cwd@
    }

    /// A closed picker on `cwd`, without entries.
    pub fn new(cwd: String) -> (r: Self)
        ensures
            !r.shown(),
            r.focused() == Focus::Search,
            r.directory() == cwd@,
            r.entries().len() == 0,
            r.rows().len() == 0,
            r.highlight() == Some(0usize),
            r.chosen() == Set::<Seq<char>>::empty(),
            r.anchor() is None,
            r.query_text().len() == 0,
    {
        FilePicker {
            open: false,
            focus: Focus::Search,
            cwd,
            items: Vec::new(),
            visible: Vec::new(),
            highlighted: Some(0),
            selection: MultiSelectState::default(),
            query: String::new(),
        }
    }

    /// Whether the picker is shown.
    pub fn is_open(&self) -> (r: bool)
        ensures
            r == self.shown(),
    {
        self.open
    }

    /// The part that takes the keys.
    pub fn focus(&self) -> (r: Focus)
        ensures
            r == self.focused(),
    {
        self.focus
    }

    /// Gives the keys to `focus`.
    pub fn set_focus(&mut self, focus: Focus)
        ensures
            final(self).focused() == focus,
            final(self).shown() == old(self).shown(),
            final(self).directory() == old(self).directory(),
            final(self).entries() == old(self).entries(),
            final(self).rows() == old(self).rows(),
            final(self).highlight() == old(self).highlight(),
            final(self).chosen() == old(self).chosen(),
            final(self).anchor() == old(self).anchor(),
            final(self).query_text() == old(self).query_text(),
    {
        proof {
            use_type_invariant(&*self);
        }
        self.focus = focus;
    }

    /// The directory shown.
    pub fn cwd(&self) -> (r: &str)
        ensures
            r@ == self.directory(),
    {
        self.cwd.as_str()
    }

    /// The query.
    pub fn query(&self) -> (r: &str)
        ensures
            r@ == self.query_text(),
    {
        self.query.as_str()
    }

    /// The entries of the directory.
    pub fn items(&self) -> (r: &Vec<PickerItem>)
        ensures
            r@ == self.entries(),
    {
        &self.items
    }

    /// The rows.
    pub fn visible(&self) -> (r: &Vec<VisibleItem>)
        ensures
            r@ == self.rows(),
            is_ranking(item_labels(self.entries()), trimmed_text(self.query_text()), r@),
    {
        proof {
            use_type_invariant(self);
        }
        &self.visible
    }

    /// The index of the highlighted row.
    pub fn highlighted(&self) -> (r: Option<usize>)
        ensures
            r == self.highlight(),
    {
        self.highlighted
    }

    /// The selection.
    pub fn selection(&self) -> (r: &MultiSelectState)
        ensures
            r@ == self.chosen(),
            r.anchor() == self.anchor(),
    {
        &self.selection
    }

    /// Shows the picker on the directory `cwd` with the entries `entries`:
    /// the search has the keys, the query is empty, nothing is selected, and
    /// the first row, if there is one, is highlighted and the anchor.
    pub fn open(&mut self, cwd: String, entries: Vec<PickerItem>)
        requires
            labels_fit(entries@),
        ensures
            final(self).shown(),
            final(self).focused() == Focus::Search,
            final(self).directory() == cwd@,
            final(self).query_text().len() == 0,
            final(self).entries() == entries@,
            is_ranking(item_labels(entries@), trimmed_text(Seq::empty()), final(self).rows()),
            final(self).chosen() == Set::<Seq<char>>::empty(),
            final(self).highlight() == if final(self).rows().len() == 0 {
                None
            } else {
                Some(0usize)
            },
            final(self).anchor() == final(self).highlight(),
    {
        proof {
            use_type_invariant(&*self);
        }
        let mut selection = MultiSelectState::default();
        let labels = labels_of(&entries);
        let rows = recompute_visible(&labels, "");
        let first = if rows.len() == 0 {
            None
        } else {
            Some(0)
        };
        selection.set_anchor(first);
        let query = String::new();
        proof {
            reveal_strlit("");
            assert(query@ =~= ""@);
        }
        *self = FilePicker {
            open: true,
            focus: Focus::Search,
            cwd,
            items: entries,
            visible: rows,
            highlighted: first,
            selection,
            query,
        };
    }

    /// Hides the picker; the search gets the keys.
    pub fn close(&mut self)
        ensures
            !final(self).shown(),
            final(self).focused() == Focus::Search,
            final(self).directory() == old(self).directory(),
            final(self).entries() == old(self).entries(),
            final(self).rows() == old(self).rows(),
            final(self).highlight() == old(self).highlight(),
            final(self).chosen() == old(self).chosen(),
            final(self).anchor() == old(self).anchor(),
            final(self).query_text() == old(self).query_text(),
    {
        proof {
            use_type_invariant(&*self);
        }
        self.open = false;
        self.focus = Focus::Search;
    }

    /// The number of selected paths.
    pub fn selected_count(&self) -> (r: usize)
        ensures
            r == self.chosen().len(),
    {
        let chosen = self.selection.selected();
        proof {
            crate::selection::lemma_ascending_count(chosen@);
        }
        chosen.len()
    }

    /// The selected paths, in ascending dictionary order.
    pub fn selected_paths(&self) -> (r: Vec<String>)
        ensures
            texts_of(r@).to_set() == self.chosen(),
            ascending(texts_of(r@)),
    {
        let chosen = self.selection.selected();
        let mut paths: Vec<String> = Vec::new();
        let mut i: usize = 0;
        while i < chosen.len()
            invariant
                i <= chosen.len(),
                paths@ == chosen@.take(i as int),
            decreases chosen.len() - i,
        {
            paths.push(chosen[i].clone());
            assert(paths@ =~= chosen@.take(i + 1));
            i += 1;
        }
        assert(chosen@.take(chosen.len() as int) =~= chosen@);
        paths
    }

    /// The entry that the highlighted row shows.
    pub fn current_item(&self) -> (r: Option<&PickerItem>)
        ensures
            match self.highlight() {
                Some(row) => if row < self.rows().len() {
                    r == Some(&self.entries()[self.rows()[row as int].item_idx as int])
                } else {
                    r is None
                },
                None => r is None,
            },
    {
        proof {
            use_type_invariant(self);
        }
        match self.highlighted {
            Some(row) => if row < self.visible.len() {
                let idx = self.visible[row].item_idx;
                Some(&self.items[idx])
            } else {
                None
            },
            None => None,
        }
    }

    /// The path of the entry that the highlighted row shows.
    pub fn current_path(&self) -> (r: Option<String>)
        ensures
            match self.highlight() {
                Some(row) => if row < self.rows().len() {
                    r == Some(self.entries()[self.rows()[row as int].item_idx as int].path)
                } else {
                    r is None
                },
                None => r is None,
            },
    {
        match self.current_item() {
            Some(item) => Some(item.path.clone()),
            None => None,
        }
    }

    /// Replaces the query and ranks the entries under it. A highlight beyond
    /// the last row moves to the last row, or away where there is no row.
    pub fn set_query(&mut self, query: String)
        ensures
            final(self).query_text() == query@,
            final(self).entries() == old(self).entries(),
            is_ranking(item_labels(old(self).entries()), trimmed_text(query@), final(self).rows()),
            final(self).shown() == old(self).shown(),
            final(self).focused() == old(self).focused(),
            final(self).directory() == old(self).directory(),
            final(self).chosen() == old(self).chosen(),
            final(self).anchor() == old(self).anchor(),
            final(self).highlight() == match old(self).highlight() {
                Some(row) => if row < final(self).rows().len() {
                    Some(row)
                } else if final(self).rows().len() == 0 {
                    None
                } else {
                    Some((final(self).rows().len() - 1) as usize)
                },
                None => None,
            },
    {
        proof {
            use_type_invariant(&*self);
        }
        let mut before = FilePicker::new(String::new());
        std::mem::swap(self, &mut before);
        proof {
            use_type_invariant(&before);
        }
        let FilePicker { open, focus, cwd, items, visible: _, highlighted, selection, query: _ } =
            before;
        let labels = labels_of(&items);
        let rows = recompute_visible(&labels, query.as_str());
        let highlighted = match highlighted {
            Some(row) => if row < rows.len() {
                Some(row)
            } else if rows.len() == 0 {
                None
            } else {
                Some(rows.len() - 1)
            },
            None => None,
        };
        *self = FilePicker { open, focus, cwd, items, visible: rows, highlighted, selection, query };
    }

    /// Shows the entries `entries` of the directory `cwd`: the query stays
    /// and ranks them; the first row, if there is one, is highlighted and the
    /// anchor. The selection stays.
    pub fn reload_items(&mut self, cwd: String, entries: Vec<PickerItem>)
        requires
            labels_fit(entries@),
        ensures
            final(self).entries() == entries@,
            final(self).directory() == cwd@,
            final(self).query_text() == old(self).query_text(),
            is_ranking(
                item_labels(entries@),
                trimmed_text(old(self).query_text()),
                final(self).rows(),
            ),
            final(self).shown() == old(self).shown(),
            final(self).focused() == old(self).focused(),
            final(self).chosen() == old(self).chosen(),
            final(self).highlight() == if final(self).rows().len() == 0 {
                None
            } else {
                Some(0usize)
            },
            final(self).anchor() == final(self).highlight(),
    {
        proof {
            use_type_invariant(&*self);
        }
        let mut before = FilePicker::new(String::new());
        std::mem::swap(self, &mut before);
        let FilePicker {
            open,
            focus,
            cwd: _,
            items: _,
            visible: _,
            highlighted: _,
            selection,
            query,
        } = before;
        let labels = labels_of(&entries);
        let rows = recompute_visible(&labels, query.as_str());
        let first = if rows.len() == 0 {
            None
        } else {
            Some(0)
        };
        let mut selection = selection;
        selection.set_anchor(first);
        *self = FilePicker {
            open,
            focus,
            cwd,
            items: entries,
            visible: rows,
            highlighted: first,
            selection,
            query,
        };
    }

    /// Moves the highlight by `delta` rows, as far as the first and the last
    /// row, and the anchor with it. Without rows there is no highlight.
    pub fn move_selection(&mut self, delta: i32)
        ensures
            final(self).highlight() == moved(old(self).highlight(), old(self).rows().len() as usize, delta),
            final(self).rows().len() == 0 ==> final(self).anchor() == old(self).anchor(),
            final(self).rows().len() > 0 ==> final(self).anchor() == final(self).highlight(),
            final(self).chosen() == old(self).chosen(),
            final(self).entries() == old(self).entries(),
            final(self).rows() == old(self).rows(),
            final(self).query_text() == old(self).query_text(),
            final(self).shown() == old(self).shown(),
            final(self).focused() == old(self).focused(),
            final(self).directory() == old(self).directory(),
    {
        proof {
            use_type_invariant(&*self);
        }
        let len = self.visible.len();
        if len == 0 {
            self.highlighted = None;
            return ;
        }
        let from: usize = match self.highlighted {
            Some(row) => row,
            None => 0,
        };
        let next: usize = if delta >= 0 {
            let forward: usize = delta as usize;
            if from >= len - 1 || forward >= len - 1 - from {
                len - 1
            } else {
                from + forward
            }
        } else {
            let back: usize = if delta == i32::MIN {
                0x8000_0000
            } else {
                (-delta) as usize
            };
            if back >= from {
                0
            } else if from - back > len - 1 {
                len - 1
            } else {
                from - back
            }
        };
        self.highlighted = Some(next);
        let mut selection = MultiSelectState::default();
        std::mem::swap(&mut self.selection, &mut selection);
        selection.set_anchor(Some(next));
        std::mem::swap(&mut self.selection, &mut selection);
    }

    /// Highlights the row `row` and anchors the selection there.
    pub fn set_highlight(&mut self, row: Option<usize>)
        ensures
            final(self).highlight() == row,
            final(self).anchor() == row,
            final(self).chosen() == old(self).chosen(),
            final(self).entries() == old(self).entries(),
            final(self).rows() == old(self).rows(),
            final(self).query_text() == old(self).query_text(),
            final(self).shown() == old(self).shown(),
            final(self).focused() == old(self).focused(),
            final(self).directory() == old(self).directory(),
    {
        proof {
            use_type_invariant(&*self);
        }
        self.highlighted = row;
        let mut selection = MultiSelectState::default();
        std::mem::swap(&mut self.selection, &mut selection);
        selection.set_anchor(row);
        std::mem::swap(&mut self.selection, &mut selection);
    }

    /// The paths that the rows show, in the order of the rows.
    fn row_paths(&self) -> (r: Vec<String>)
        ensures
            r@ == shown_paths(self.items@, self.visible@),
    {
        proof {
            use_type_invariant(self);
        }
        let mut paths: Vec<String> = Vec::new();
        let mut k: usize = 0;
        while k < self.visible.len()
            invariant
                k <= self.visible.len(),
                forall|j: int| 0 <= j < self.visible@.len() ==> (#[trigger] self.visible@[j]).item_idx < self.items@.len(),
                paths@ == shown_paths(self.items@, self.visible@).take(k as int),
            decreases self.visible.len() - k,
        {
            let idx = self.visible[k].item_idx;
            paths.push(self.items[idx].path.clone());
            assert(paths@ =~= shown_paths(self.items@, self.visible@).take(k + 1));
            k += 1;
        }
        assert(shown_paths(self.items@, self.visible@).take(self.visible.len() as int)
            =~= shown_paths(self.items@, self.visible@));
        paths
    }

    /// Highlights the row `idx` and extends the selection to it from the
    /// anchor, over the rows as they are shown: see
    /// `MultiSelectState::range_select`.
    pub fn select_range_to(&mut self, idx: usize)
        ensures
            final(self).highlight() == Some(idx),
            final(self).entries() == old(self).entries(),
            final(self).rows() == old(self).rows(),
            final(self).query_text() == old(self).query_text(),
            final(self).shown() == old(self).shown(),
            final(self).focused() == old(self).focused(),
            final(self).directory() == old(self).directory(),
            match old(self).anchor() {
                Some(a) => {
                    &&& final(self).chosen() == old(self).chosen().union(
                        keys_between(
                            shown_paths(old(self).entries(), old(self).rows()),
                            if a <= idx { a as int } else { idx as int },
                            if a <= idx { idx as int } else { a as int },
                        ),
                    )
                    &&& final(self).anchor() == Some(a)
                },
                None => if idx < old(self).rows().len() {
                    &&& final(self).chosen() == Set::<Seq<char>>::empty().insert(
                        shown_paths(old(self).entries(), old(self).rows())[idx as int]@,
                    )
                    &&& final(self).anchor() == Some(idx)
                } else {
                    &&& final(self).chosen() == old(self).chosen()
                    &&& final(self).anchor() is None
                },
            },
    {
        proof {
            use_type_invariant(&*self);
        }
        let keys = self.row_paths();
        self.highlighted = Some(idx);
        let mut selection = MultiSelectState::default();
        std::mem::swap(&mut self.selection, &mut selection);
        selection.range_select(keys.as_slice(), idx);
        std::mem::swap(&mut self.selection, &mut selection);
    }

    /// Selects the path of the highlighted row if it was not selected,
    /// deselects it if it was, and anchors at the row. Without a highlighted
    /// row nothing happens.
    pub fn toggle_selected_current(&mut self)
        ensures
            final(self).highlight() == old(self).highlight(),
            final(self).entries() == old(self).entries(),
            final(self).rows() == old(self).rows(),
            final(self).query_text() == old(self).query_text(),
            final(self).shown() == old(self).shown(),
            final(self).focused() == old(self).focused(),
            final(self).directory() == old(self).directory(),
            match old(self).highlight() {
                Some(row) => if row < old(self).rows().len() {
                    let path = old(self).entries()[old(self).rows()[row as int].item_idx as int].path@;
                    &&& final(self).chosen() == if old(self).chosen().contains(path) {
                        old(self).chosen().remove(path)
                    } else {
                        old(self).chosen().insert(path)
                    }
                    &&& final(self).anchor() == Some(row)
                } else {
                    final(self).chosen() == old(self).chosen() && final(self).anchor() == old(
                        self,
                    ).anchor()
                },
                None => final(self).chosen() == old(self).chosen() && final(self).anchor() == old(
                    self,
                ).anchor(),
            },
    {
        proof {
            use_type_invariant(&*self);
        }
        match self.current_path() {
            Some(path) => {
                let row = match self.highlighted {
                    Some(row) => row,
                    None => 0,
                };
                let mut selection = MultiSelectState::default();
                std::mem::swap(&mut self.selection, &mut selection);
                selection.toggle(path, row);
                std::mem::swap(&mut self.selection, &mut selection);
            },
            None => {},
        }
    }
}

/// The labels of the items, in their order.
fn labels_of(items: &Vec<PickerItem>) -> (r: Vec<String>)
    ensures
        texts_of(r@) == item_labels(items@),
        r@.len() == items@.len(),
        forall|i: int| 0 <= i < r@.len() ==> (#[trigger] r@[i])@ == items@[i].label@,
{
    let mut labels: Vec<String> = Vec::new();
    let mut i: usize = 0;
    while i < items.len()
        invariant
            i <= items.len(),
            labels@.len() == i,
            forall|k: int| 0 <= k < i ==> (#[trigger] labels@[k])@ == items@[k].label@,
        decreases items.len() - i,
    {
        labels.push(items[i].label.clone());
        i += 1;
    }
    assert(texts_of(labels@) =~= item_labels(items@));
    labels
}

} // verus!
