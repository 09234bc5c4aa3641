//! Which items the vault list shows: the folder filter, then the fuzzy
//! search ranked by score.
use vstd::prelude::*;
use crate::model::{opt_view, Folder, Item};
use crate::text::{concat3, str_eq, to_string};

verus! {

/// What `SkimMatcherV2::default().fuzzy_match(choice, pattern)` returns: a
/// score when `pattern` fuzzily matches `choice`, none otherwise.
pub uninterp spec fn skim_v2_score(choice: Seq<char>, pattern: Seq<char>) -> Option<i64>;

/// `SkimMatcherV2::fuzzy_match` of fuzzy_matcher, with the matcher's default
/// settings (smart case); its result is named `skim_v2_score`.
#[verifier::external_body]
fn fuzzy_score(choice: &str, pattern: &str) -> (r: Option<i64>)
    ensures
        r == skim_v2_score(choice@, pattern@),
{
    let matcher = fuzzy_matcher::skim::SkimMatcherV2::default();
    fuzzy_matcher::FuzzyMatcher::fuzzy_match(&matcher, choice, pattern)
}

/// The text the search matches an item against: its name, then a space and
/// the username when it has one.
pub open spec fn haystack_spec(item: Item) -> Seq<char> {
    match item.username_spec() {
        Some(u) => item.name@ + " "@ + u,
        None => item.name@,
    }
}

/// Whether an item shows under the selected folder entry: entry 0 is "All",
/// entry 1 is "No folder", entry `i + 2` is `folders[i]` (a folder without
/// an id matches items whose folder id is empty). An entry past the folders
/// shows everything.
pub open spec fn in_folder(item: Item, folders: Seq<Folder>, folder_index: usize) -> bool {
    if folder_index == 0 {
        true
    } else if folder_index == 1 {
        item.folder_id is None
    } else if folder_index - 2 < folders.len() {
        let fid = match folders[folder_index - 2].id {
            Some(id) => id@,
            None => Seq::empty(),
        };
        opt_view(item.folder_id) == Some(fid)
    } else {
        true
    }
}

/// The indices (in order) of the first `n` items that show under the folder entry.
pub open spec fn candidates_upto(items: Seq<Item>, folders: Seq<Folder>, folder_index: usize, n: int) -> Seq<usize>
    decreases n,
{
    if n <= 0 {
        Seq::empty()
    } else {
        let before = candidates_upto(items, folders, folder_index, n - 1);
        if in_folder(items[n - 1], folders, folder_index) {
            before.push((n - 1) as usize)
        } else {
            before
        }
    }
}

/// The indices of the items that show under the folder entry, in list order.
pub open spec fn candidates(items: Seq<Item>, folders: Seq<Folder>, folder_index: usize) -> Seq<usize> {
    candidates_upto(items, folders, folder_index, items.len() as int)
}

/// The search score of item `i`.
pub open spec fn score_of(items: Seq<Item>, query: Seq<char>, i: usize) -> Option<i64> {
    skim_v2_score(haystack_spec(items[i as int]), query)
}

/// Item `a` ranks before item `b`: a higher score, or the same score and an
/// earlier place in the list.
pub open spec fn ranks_before(items: Seq<Item>, query: Seq<char>, a: usize, b: usize) -> bool {
    let sa = score_of(items, query, a)->0;
    let sb = score_of(items, query, b)->0;
    sa > sb || (sa == sb && a < b)
}

/// `out` holds exactly the candidates that match the query, highest score
/// first and, among equal scores, in list order.
pub open spec fn ranked(out: Seq<usize>, cands: Seq<usize>, items: Seq<Item>, query: Seq<char>) -> bool {
    &&& forall|i: usize| #[trigger] out.contains(i) <==> (cands.contains(i) && score_of(items, query, i) is Some)
    &&& forall|a: int, b: int| 0 <= a < b < out.len() ==> ranks_before(items, query, #[trigger] out[a], #[trigger] out[b])
}

/// What the vault list shows for a folder entry and a query: all candidates
/// in list order when the query is empty, else the matching ones ranked.
pub open spec fn filter_result(out: Seq<usize>, items: Seq<Item>, folders: Seq<Folder>, folder_index: usize, query: Seq<char>) -> bool {
    if query.len() == 0 {
        out == candidates(items, folders, folder_index)
    } else {
        ranked(out, candidates(items, folders, folder_index), items, query)
    }
}

proof fn lemma_candidates_bounds(items: Seq<Item>, folders: Seq<Folder>, folder_index: usize, n: int)
    requires
        0 <= n <= items.len(),
        items.len() <= usize::MAX,
    ensures
        forall|k: int| 0 <= k < candidates_upto(items, folders, folder_index, n).len()
            ==> #[trigger] candidates_upto(items, folders, folder_index, n)[k] < n,
        forall|a: int, b: int| 0 <= a < b < candidates_upto(items, folders, folder_index, n).len()
            ==> #[trigger] candidates_upto(items, folders, folder_index, n)[a]
                < #[trigger] candidates_upto(items, folders, folder_index, n)[b],
    decreases n,
{
    if n > 0 {
        lemma_candidates_bounds(items, folders, folder_index, n - 1);
        let before = candidates_upto(items, folders, folder_index, n - 1);
        let now = candidates_upto(items, folders, folder_index, n);
        if in_folder(items[n - 1], folders, folder_index) {
            assert(now == before.push((n - 1) as usize));
            assert forall|k: int| 0 <= k < now.len() implies #[trigger] now[k] < n by {
                if k < before.len() {
                    assert(now[k] == before[k]);
                }
            }
            assert forall|a: int, b: int| 0 <= a < b < now.len() implies #[trigger] now[a] < #[trigger] now[b] by {
                assert(now[a] == before[a]);
                assert(before[a] < n - 1);
                if b < before.len() {
                    assert(now[b] == before[b]);
                }
            }
        }
    }
}

/// The candidates are exactly the items shown under the folder entry.
pub(crate) proof fn lemma_candidates_members(items: Seq<Item>, folders: Seq<Folder>, folder_index: usize, n: int)
    requires
        0 <= n <= items.len(),
        items.len() <= usize::MAX,
    ensures
        forall|i: usize| #[trigger] candidates_upto(items, folders, folder_index, n).contains(i)
            <==> (i < n && in_folder(items[i as int], folders, folder_index)),
    decreases n,
{
    if n > 0 {
        lemma_candidates_members(items, folders, folder_index, n - 1);
        let before = candidates_upto(items, folders, folder_index, n - 1);
        let now = candidates_upto(items, folders, folder_index, n);
        if in_folder(items[n - 1], folders, folder_index) {
            assert(now == before.push((n - 1) as usize));
            assert forall|i: usize| #[trigger] now.contains(i)
                <==> (i < n && in_folder(items[i as int], folders, folder_index)) by {
                if now.contains(i) && i != n - 1 {
                    let k = choose|k: int| 0 <= k < now.len() && now[k] == i;
                    assert(k < before.len());
                    assert(before[k] == i);
                    assert(before.contains(i));
                }
                if i < n && in_folder(items[i as int], folders, folder_index) {
                    if i == n - 1 {
                        assert(now[now.len() - 1] == i);
                    } else {
                        assert(before.contains(i));
                        let k = choose|k: int| 0 <= k < before.len() && before[k] == i;
                        assert(now[k] == i);
                    }
                }
            }
        } else {
            assert forall|i: usize| #[trigger] now.contains(i)
                <==> (i < n && in_folder(items[i as int], folders, folder_index)) by {
                if i < n && in_folder(items[i as int], folders, folder_index) {
                    assert(i != n - 1);
                }
            }
        }
    } else {
        assert forall|i: usize| #[trigger] candidates_upto(items, folders, folder_index, n).contains(i)
            <==> (i < n && in_folder(items[i as int], folders, folder_index)) by {
        }
    }
}

/// The candidates come in increasing order, so none twice.
pub(crate) proof fn lemma_candidates_increasing(items: Seq<Item>, folders: Seq<Folder>, folder_index: usize)
    requires
        items.len() <= usize::MAX,
    ensures
        forall|a: int, b: int| 0 <= a < b < candidates(items, folders, folder_index).len()
            ==> #[trigger] candidates(items, folders, folder_index)[a]
                < #[trigger] candidates(items, folders, folder_index)[b],
{
    lemma_candidates_bounds(items, folders, folder_index, items.len() as int);
}

fn item_in_folder(item: &Item, folders: &Vec<Folder>, folder_index: usize) -> (r: bool)
    ensures
        r == in_folder(*item, folders@, folder_index),
{
    if folder_index == 0 {
        true
    } else if folder_index == 1 {
        item.folder_id.is_none()
    } else if folder_index - 2 < folders.len() {
        let empty = String::new();
        let fid: &String = match &folders[folder_index - 2].id {
            Some(id) => id,
            None => &empty,
        };
        match &item.folder_id {
            Some(id) => str_eq(id.as_str(), fid.as_str()),
            None => false,
        }
    } else {
        true
    }
}

/// The indices of the items that show under the folder entry, in list order.
pub fn folder_candidates(items: &Vec<Item>, folders: &Vec<Folder>, folder_index: usize) -> (r: Vec<usize>)
    ensures
        r@ == candidates(items@, folders@, folder_index),
        forall|k: int| 0 <= k < r@.len() ==> #[trigger] r@[k] < items@.len(),
        forall|a: int, b: int| 0 <= a < b < r@.len() ==> #[trigger] r@[a] < #[trigger] r@[b],
{
    let mut out: Vec<usize> = Vec::new();
    let mut i: usize = 0;
    while i < items.len()
        invariant
            i <= items@.len(),
            out@ == candidates_upto(items@, folders@, folder_index, i as int),
        decreases items@.len() - i,
    {
        if item_in_folder(&items[i], folders, folder_index) {
            out.push(i);
        }
        i = i + 1;
    }
    proof {
        lemma_candidates_bounds(items@, folders@, folder_index, items@.len() as int);
    }
    out
}

/// The text an item is searched by.
pub fn haystack(item: &Item) -> (r: String)
    ensures
        r@ == haystack_spec(*item),
{
    match item.username() {
        Some(u) => concat3(item.name.as_str(), " ", u),
        None => item.name.clone(),
    }
}

/// The matching candidates, highest score first; ties keep list order.
pub fn rank_candidates(items: &Vec<Item>, cands: &Vec<usize>, query: &str) -> (r: Vec<usize>)
    requires
        forall|k: int| 0 <= k < cands@.len() ==> #[trigger] cands@[k] < items@.len(),
        forall|a: int, b: int| 0 <= a < b < cands@.len() ==> #[trigger] cands@[a] < #[trigger] cands@[b],
    ensures
        ranked(r@, cands@, items@, query@),
        forall|k: int| 0 <= k < r@.len() ==> #[trigger] r@[k] < items@.len(),
{
    let mut scored: Vec<(i64, usize)> = Vec::new();
    let mut c: usize = 0;
    while c < cands.len()
        invariant
            c <= cands@.len(),
            forall|k: int| 0 <= k < cands@.len() ==> #[trigger] cands@[k] < items@.len(),
            forall|a: int, b: int| 0 <= a < b < cands@.len() ==> #[trigger] cands@[a] < #[trigger] cands@[b],
            forall|k: int| 0 <= k < scored@.len() ==>
                score_of(items@, query@, (#[trigger] scored@[k]).1) == Some(scored@[k].0),
            forall|k: int| 0 <= k < scored@.len() ==>
                (#[trigger] scored@[k]).1 < items@.len(),
            forall|i: usize| (exists|k: int| 0 <= k < scored@.len() && #[trigger] scored@[k].1 == i)
                <==> (cands@.subrange(0, c as int).contains(i) && score_of(items@, query@, i) is Some),
            forall|a: int, b: int| 0 <= a < b < scored@.len() ==>
                ranks_before(items@, query@, #[trigger] scored@[a].1, #[trigger] scored@[b].1),
            forall|k: int| 0 <= k < scored@.len() && c < cands@.len() ==> (#[trigger] scored@[k]).1 < cands@[c as int],
        decreases cands@.len() - c,
    {
        let idx = cands[c];
        let hay = haystack(&items[idx]);
        match fuzzy_score(hay.as_str(), query) {
            Some(s) => {
                let mut pos: usize = 0;
                while pos < scored.len() && scored[pos].0 >= s
                    invariant
                        pos <= scored@.len(),
                        forall|k: int| 0 <= k < pos ==> (#[trigger] scored@[k]).0 >= s,
                    decreases scored@.len() - pos,
                {
                    pos = pos + 1;
                }
                let ghost old_scored = scored@;
                scored.insert(pos, (s, idx));
                proof {
                    assert(score_of(items@, query@, idx) == Some(s));
                    assert forall|a: int, b: int| 0 <= a < b < scored@.len() implies
                        ranks_before(items@, query@, #[trigger] scored@[a].1, #[trigger] scored@[b].1) by {
                        if b < pos {
                            assert(scored@[a] == old_scored[a] && scored@[b] == old_scored[b]);
                        } else if b == pos {
                            assert(scored@[a] == old_scored[a]);
                            assert(old_scored[a].0 >= s);
                            assert(old_scored[a].1 < idx);
                        } else if a < pos {
                            assert(scored@[a] == old_scored[a] && scored@[b] == old_scored[b - 1]);
                        } else if a == pos {
                            assert(scored@[b] == old_scored[b - 1]);
                            assert(!(old_scored[pos as int].0 >= s));
                            if b - 1 > pos {
                                assert(ranks_before(items@, query@, old_scored[pos as int].1, old_scored[b - 1].1));
                            }
                        } else {
                            assert(scored@[a] == old_scored[a - 1] && scored@[b] == old_scored[b - 1]);
                        }
                    }
                    assert forall|i: usize| (exists|k: int| 0 <= k < scored@.len() && #[trigger] scored@[k].1 == i)
                        <==> (cands@.subrange(0, c + 1).contains(i) && score_of(items@, query@, i) is Some) by {
                        let prev = cands@.subrange(0, c as int);
                        let next = cands@.subrange(0, c + 1);
                        assert(next =~= prev.push(idx));
                        if exists|k: int| 0 <= k < scored@.len() && #[trigger] scored@[k].1 == i {
                            let k = choose|k: int| 0 <= k < scored@.len() && #[trigger] scored@[k].1 == i;
                            if i == idx {
                                assert(next[c as int] == idx);
                            } else {
                                if k < pos {
                                    assert(old_scored[k].1 == i);
                                    assert(score_of(items@, query@, old_scored[k].1) == Some(old_scored[k].0));
                                } else {
                                    assert(k > pos);
                                    assert(old_scored[k - 1].1 == i);
                                    assert(score_of(items@, query@, old_scored[k - 1].1) == Some(old_scored[k - 1].0));
                                }
                                assert(prev.contains(i));
                                let j = choose|j: int| 0 <= j < prev.len() && prev[j] == i;
                                assert(next[j] == i);
                            }
                        }
                        if next.contains(i) && score_of(items@, query@, i) is Some {
                            if i == idx {
                                assert(scored@[pos as int].1 == i);
                            } else {
                                let j = choose|j: int| 0 <= j < next.len() && next[j] == i;
                                assert(j < c);
                                assert(prev[j] == i);
                                assert(prev.contains(i));
                                let k = choose|k: int| 0 <= k < old_scored.len() && #[trigger] old_scored[k].1 == i;
                                if k < pos {
                                    assert(scored@[k].1 == i);
                                } else {
                                    assert(scored@[k + 1].1 == i);
                                }
                            }
                        }
                    }
                    assert forall|k: int| 0 <= k < scored@.len() implies
                        score_of(items@, query@, (#[trigger] scored@[k]).1) == Some(scored@[k].0) by {
                        if k < pos {
                            assert(scored@[k] == old_scored[k]);
                        } else if k > pos {
                            assert(scored@[k] == old_scored[k - 1]);
                        }
                    }
                    assert forall|k: int| 0 <= k < scored@.len() && c + 1 < cands@.len() implies
                        (#[trigger] scored@[k]).1 < cands@[c + 1] by {
                        assert(cands@[c as int] < cands@[c + 1]);
                        if k < pos {
                            assert(scored@[k] == old_scored[k]);
                        } else if k > pos {
                            assert(scored@[k] == old_scored[k - 1]);
                        }
                    }
                }
            },
            None => {
                proof {
                    let prev = cands@.subrange(0, c as int);
                    let next = cands@.subrange(0, c + 1);
                    assert(next =~= prev.push(idx));
                    assert forall|i: usize| (exists|k: int| 0 <= k < scored@.len() && #[trigger] scored@[k].1 == i)
                        <==> (next.contains(i) && score_of(items@, query@, i) is Some) by {
                        if exists|k: int| 0 <= k < scored@.len() && #[trigger] scored@[k].1 == i {
                            assert(prev.contains(i));
                            let j = choose|j: int| 0 <= j < prev.len() && prev[j] == i;
                            assert(next[j] == i);
                        }
                        if next.contains(i) && score_of(items@, query@, i) is Some {
                            let j = choose|j: int| 0 <= j < next.len() && next[j] == i;
                            if j < c {
                                assert(prev[j] == i);
                                assert(prev.contains(i));
                            }
                        }
                    }
                    assert forall|k: int| 0 <= k < scored@.len() && c + 1 < cands@.len() implies
                        (#[trigger] scored@[k]).1 < cands@[c + 1] by {
                        assert(cands@[c as int] < cands@[c + 1]);
                    }
                }
            },
        }
        c = c + 1;
    }
    assert(cands@.subrange(0, c as int) =~= cands@);
    let mut out: Vec<usize> = Vec::new();
    let mut k: usize = 0;
    while k < scored.len()
        invariant
            k <= scored@.len(),
            out@.len() == k,
            forall|m: int| 0 <= m < k ==> #[trigger] out@[m] == scored@[m].1,
        decreases scored@.len() - k,
    {
        out.push(scored[k].1);
        k = k + 1;
    }
    proof {
        assert forall|i: usize| #[trigger] out@.contains(i) <==> (cands@.contains(i) && score_of(items@, query@, i) is Some) by {
            if out@.contains(i) {
                let m = choose|m: int| 0 <= m < out@.len() && out@[m] == i;
                assert(scored@[m].1 == i);
            }
            if cands@.contains(i) && score_of(items@, query@, i) is Some {
                let m = choose|m: int| 0 <= m < scored@.len() && #[trigger] scored@[m].1 == i;
                assert(out@[m] == i);
            }
        }
        assert forall|a: int, b: int| 0 <= a < b < out@.len() implies
            ranks_before(items@, query@, #[trigger] out@[a], #[trigger] out@[b]) by {
            assert(out@[a] == scored@[a].1 && out@[b] == scored@[b].1);
        }
        assert forall|m: int| 0 <= m < out@.len() implies #[trigger] out@[m] < items@.len() by {
            assert(out@[m] == scored@[m].1);
        }
    }
    out
}

/// The indices of the items the vault list shows.
pub fn filter_items(items: &Vec<Item>, folders: &Vec<Folder>, folder_index: usize, query: &str) -> (r: Vec<usize>)
    ensures
        filter_result(r@, items@, folders@, folder_index, query@),
        forall|k: int| 0 <= k < r@.len() ==> #[trigger] r@[k] < items@.len(),
{
    let cands = folder_candidates(items, folders, folder_index);
    if query.unicode_len() == 0 {
        cands
    } else {
        rank_candidates(items, &cands, query)
    }
}

} // verus!
