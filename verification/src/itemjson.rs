//! The parts of an item's JSON (as `bw get item` prints it) that an edit
//! reads and writes: its top-level keys, and the keys of the objects under
//! them. Any other value is held by the driver and stands here as a number.
use vstd::prelude::*;
use crate::commands::{unexpected_shape, JsonEdit, JsonEditView, edit_view, edits_view};
use crate::model::opt_view;
use crate::text::{str_eq, to_string};

verus! {

/// A value inside a section: a string, or another value kept aside.
pub enum JsonLeaf {
    Text(String),
    Kept(u64),
}

/// A top-level value: `null`, a string, an object, or another value kept aside.
pub enum JsonEntry {
    Null,
    Text(String),
    Kept(u64),
    Object(Vec<(String, JsonLeaf)>),
}

/// The top-level object of an item.
pub struct ItemJson {
    pub entries: Vec<(String, JsonEntry)>,
}

pub enum LeafView {
    Text(Seq<char>),
    Kept(u64),
}

pub enum EntryView {
    Null,
    Text(Seq<char>),
    Kept(u64),
    Object(Seq<(Seq<char>, LeafView)>),
}

pub open spec fn leaf_view(l: JsonLeaf) -> LeafView {
    match l {
        JsonLeaf::Text(s) => LeafView::Text(s@),
        JsonLeaf::Kept(n) => LeafView::Kept(n),
    }
}

pub open spec fn fields_view(v: Seq<(String, JsonLeaf)>) -> Seq<(Seq<char>, LeafView)> {
    v.map_values(|p: (String, JsonLeaf)| (p.0@, leaf_view(p.1)))
}

pub open spec fn entry_view(e: JsonEntry) -> EntryView {
    match e {
        JsonEntry::Null => EntryView::Null,
        JsonEntry::Text(s) => EntryView::Text(s@),
        JsonEntry::Kept(n) => EntryView::Kept(n),
        JsonEntry::Object(f) => EntryView::Object(fields_view(f@)),
    }
}

pub open spec fn entries_view(v: Seq<(String, JsonEntry)>) -> Seq<(Seq<char>, EntryView)> {
    v.map_values(|p: (String, JsonEntry)| (p.0@, entry_view(p.1)))
}

// ---- keyed lists ------------------------------------------------------------------

/// The first position, at `i` or after, whose key is `k`.
pub open spec fn find_from<V>(s: Seq<(Seq<char>, V)>, k: Seq<char>, i: int) -> Option<int>
    decreases s.len() - i,
{
    if i < 0 || i >= s.len() {
        None
    } else if s[i].0 == k {
        Some(i)
    } else {
        find_from(s, k, i + 1)
    }
}

/// The first position whose key is `k`.
pub open spec fn find_key<V>(s: Seq<(Seq<char>, V)>, k: Seq<char>) -> Option<int> {
    find_from(s, k, 0)
}

/// `s` with the value under `k` set to `v`: replaced where the key first
/// occurs, else added at the end. The other entries keep their places.
pub open spec fn set_key<V>(s: Seq<(Seq<char>, V)>, k: Seq<char>, v: V) -> Seq<(Seq<char>, V)> {
    match find_key(s, k) {
        Some(i) => s.update(i, (k, v)),
        None => s.push((k, v)),
    }
}

proof fn lemma_find_from_bounds<V>(s: Seq<(Seq<char>, V)>, k: Seq<char>, i: int)
    ensures
        find_from(s, k, i) matches Some(j) ==> 0 <= i <= j < s.len() && s[j].0 == k,
        find_from(s, k, i) is None ==> forall|j: int| 0 <= i <= j < s.len() ==> #[trigger] s[j].0 != k,
    decreases s.len() - i,
{
    if 0 <= i < s.len() && s[i].0 != k {
        lemma_find_from_bounds(s, k, i + 1);
        if find_from(s, k, i) is None {
            assert forall|j: int| 0 <= i <= j < s.len() implies #[trigger] s[j].0 != k by {
                if j > i {
                    assert(s[j].0 != k);
                }
            }
        }
    }
}

/// The first position of `k` in a list of keyed values, searched from the start.
fn position<V, W>(s: &Vec<(String, V)>, k: &str, Ghost(sv): Ghost<Seq<(Seq<char>, W)>>) -> (r: Option<usize>)
    requires
        sv.len() == s@.len(),
        forall|j: int| 0 <= j < s@.len() ==> #[trigger] sv[j].0 == s@[j].0@,
    ensures
        match r {
            Some(i) => find_key(sv, k@) == Some(i as int) && i < s@.len() && sv[i as int].0 == k@,
            None => find_key(sv, k@) is None,
        },
{
    proof {
        lemma_find_from_bounds(sv, k@, 0);
    }
    let mut i: usize = 0;
    while i < s.len()
        invariant
            i <= s@.len(),
            sv.len() == s@.len(),
            forall|j: int| 0 <= j < s@.len() ==> #[trigger] sv[j].0 == s@[j].0@,
            find_key(sv, k@) == find_from(sv, k@, i as int),
        decreases s@.len() - i,
    {
        if str_eq(s[i].0.as_str(), k) {
            return Some(i);
        }
        i = i + 1;
    }
    None
}

// ---- applying the edits ---------------------------------------------------------

/// One edit applied to the top-level entries, or the error it meets: a
/// section that is there but is no object.
pub open spec fn apply_edit_spec(s: Seq<(Seq<char>, EntryView)>, e: JsonEditView) -> Result<Seq<(Seq<char>, EntryView)>, Seq<char>> {
    match e {
        JsonEditView::SetTop { key, value } => Ok(set_key(s, key, match value {
            Some(v) => EntryView::Text(v),
            None => EntryView::Null,
        })),
        JsonEditView::Section { section } => match find_key(s, section) {
            None => Ok(s.push((section, EntryView::Object(Seq::empty())))),
            Some(i) => if s[i].1 is Object { Ok(s) } else { Err("unexpected "@ + section + " shape from bw"@) },
        },
        JsonEditView::SetInSection { section, key, value } => match find_key(s, section) {
            Some(i) => match s[i].1 {
                EntryView::Object(fields) => Ok(s.update(i, (section, EntryView::Object(set_key(fields, key, LeafView::Text(value)))))),
                _ => Err("unexpected "@ + section + " shape from bw"@),
            },
            None => Err("unexpected "@ + section + " shape from bw"@),
        },
    }
}

/// The first `n` edits applied in order; the first error stops them.
pub open spec fn apply_edits_upto(s: Seq<(Seq<char>, EntryView)>, edits: Seq<JsonEditView>, n: int) -> Result<Seq<(Seq<char>, EntryView)>, Seq<char>>
    decreases n,
{
    if n <= 0 {
        Ok(s)
    } else {
        match apply_edits_upto(s, edits, n - 1) {
            Ok(t) => apply_edit_spec(t, edits[n - 1]),
            Err(e) => Err(e),
        }
    }
}

/// All the edits applied to an item's JSON; an item whose JSON is no
/// object (`None`) cannot be edited.
pub open spec fn apply_edits_spec(item: Option<Seq<(Seq<char>, EntryView)>>, edits: Seq<JsonEditView>) -> Result<Seq<(Seq<char>, EntryView)>, Seq<char>> {
    match item {
        None => Err("unexpected item shape from bw"@),
        Some(s) => apply_edits_upto(s, edits, edits.len() as int),
    }
}

fn replace_at<T>(v: &mut Vec<T>, i: usize, x: T) -> (old_value: T)
    requires
        i < old(v)@.len(),
    ensures
        old_value == old(v)@[i as int],
        final(v)@ == old(v)@.update(i as int, x),
{
    let old_value = v.remove(i);
    v.insert(i, x);
    assert(v@ =~= old(v)@.update(i as int, x));
    old_value
}

fn set_field(fields: &mut Vec<(String, JsonLeaf)>, key: String, value: String)
    ensures
        fields_view(final(fields)@) == set_key(fields_view(old(fields)@), key@, LeafView::Text(value@)),
{
    let ghost fv = fields_view(fields@);
    let ghost kv = key@;
    let ghost vv = value@;
    let pos = position::<JsonLeaf, LeafView>(fields, key.as_str(), Ghost(fv));
    match pos {
        Some(i) => {
            let _ = replace_at(fields, i, (key, JsonLeaf::Text(value)));
            assert(fields_view(fields@) =~= fv.update(i as int, (kv, LeafView::Text(vv))));
        },
        None => {
            fields.push((key, JsonLeaf::Text(value)));
            assert(fields_view(fields@) =~= fv.push((kv, LeafView::Text(vv))));
        },
    }
}

fn set_entry(entries: &mut Vec<(String, JsonEntry)>, key: String, value: JsonEntry)
    ensures
        entries_view(final(entries)@) == set_key(entries_view(old(entries)@), key@, entry_view(value)),
{
    let ghost ev = entries_view(entries@);
    let ghost kv = key@;
    let ghost vv = entry_view(value);
    let pos = position::<JsonEntry, EntryView>(entries, key.as_str(), Ghost(ev));
    match pos {
        Some(i) => {
            let _ = replace_at(entries, i, (key, value));
            assert(entries_view(entries@) =~= ev.update(i as int, (kv, vv)));
        },
        None => {
            entries.push((key, value));
            assert(entries_view(entries@) =~= ev.push((kv, vv)));
        },
    }
}

fn apply_edit(entries: &mut Vec<(String, JsonEntry)>, edit: JsonEdit) -> (r: Result<(), String>)
    ensures
        match r {
            Ok(()) => apply_edit_spec(entries_view(old(entries)@), edit_view(edit)) == Ok::<Seq<(Seq<char>, EntryView)>, Seq<char>>(entries_view(final(entries)@)),
            Err(e) => apply_edit_spec(entries_view(old(entries)@), edit_view(edit)) == Err::<Seq<(Seq<char>, EntryView)>, Seq<char>>(e@),
        },
{
    let ghost ev = entries_view(entries@);
    match edit {
        JsonEdit::SetTop { key, value } => {
            let v = match value {
                Some(t) => JsonEntry::Text(t),
                None => JsonEntry::Null,
            };
            set_entry(entries, key, v);
            Ok(())
        },
        JsonEdit::Section { section } => {
            match position::<JsonEntry, EntryView>(entries, section.as_str(), Ghost(ev)) {
                None => {
                    let ghost sv = section@;
                    let empty: Vec<(String, JsonLeaf)> = Vec::new();
                    assert(fields_view(empty@) =~= Seq::empty());
                    entries.push((section, JsonEntry::Object(empty)));
                    assert(entries_view(entries@) =~= ev.push((sv, EntryView::Object(Seq::empty()))));
                    Ok(())
                },
                Some(i) => {
                    let is_object = match &entries[i].1 {
                        JsonEntry::Object(_) => true,
                        _ => false,
                    };
                    if is_object {
                        Ok(())
                    } else {
                        Err(unexpected_shape(section.as_str()))
                    }
                },
            }
        },
        JsonEdit::SetInSection { section, key, value } => {
            match position::<JsonEntry, EntryView>(entries, section.as_str(), Ghost(ev)) {
                None => Err(unexpected_shape(section.as_str())),
                Some(i) => {
                    let is_object = match &entries[i].1 {
                        JsonEntry::Object(_) => true,
                        _ => false,
                    };
                    if !is_object {
                        return Err(unexpected_shape(section.as_str()));
                    }
                    let ghost sv = section@;
                    let taken = replace_at(entries, i, (section, JsonEntry::Null));
                    let (name, entry) = taken;
                    match entry {
                        JsonEntry::Object(mut fields) => {
                            let ghost before = fields_view(fields@);
                            set_field(&mut fields, key, value);
                            let ghost after_fields = fields_view(fields@);
                            let _ = replace_at(entries, i, (name, JsonEntry::Object(fields)));
                            assert(entries_view(entries@) =~= ev.update(i as int, (sv, EntryView::Object(after_fields))));
                            Ok(())
                        },
                        _ => Err(unexpected_shape(name.as_str())),
                    }
                },
            }
        },
    }
}

/// The view of an item's JSON, if it is an object.
pub open spec fn item_view(item: Option<ItemJson>) -> Option<Seq<(Seq<char>, EntryView)>> {
    match item {
        Some(i) => Some(entries_view(i.entries@)),
        None => None,
    }
}

/// Applies the edits in order to an item's JSON (`None` when it is no
/// object); the first edit that meets a section of the wrong shape stops
/// with the error.
pub fn apply_edits(item: Option<ItemJson>, edits: Vec<JsonEdit>) -> (r: Result<ItemJson, String>)
    ensures
        match r {
            Ok(j) => apply_edits_spec(item_view(item), edits_view(edits@))
                == Ok::<Seq<(Seq<char>, EntryView)>, Seq<char>>(entries_view(j.entries@)),
            Err(e) => apply_edits_spec(item_view(item), edits_view(edits@))
                == Err::<Seq<(Seq<char>, EntryView)>, Seq<char>>(e@),
        },
{
    let ghost given = item_view(item);
    let mut json = match item {
        Some(j) => j,
        None => return Err(to_string("unexpected item shape from bw")),
    };
    let ghost start = entries_view(json.entries@);
    assert(given == Some(start));
    let ghost ev = edits_view(edits@);
    let mut pending: Vec<JsonEdit> = Vec::new();
    let mut src = edits;
    pending.append(&mut src);
    assert(edits_view(pending@) == ev);
    let n = pending.len();
    let mut k: usize = 0;
    assert(ev.subrange(0, n as int) =~= ev);
    while k < n
        invariant
            k <= n,
            n == ev.len(),
            edits_view(pending@) == ev.subrange(k as int, n as int),
            given == Some(start),
            given == item_view(item),
            ev == edits_view(edits@),
            apply_edits_upto(start, ev, k as int) == Ok::<Seq<(Seq<char>, EntryView)>, Seq<char>>(entries_view(json.entries@)),
        decreases n - k,
    {
        let ghost before = pending@;
        assert(edits_view(before).len() == before.len());
        assert(ev.subrange(k as int, n as int)[0] == ev[k as int]);
        let e = pending.remove(0);
        assert(edits_view(before)[0] == edit_view(before[0]));
        assert(edit_view(e) == ev[k as int]);
        assert(edits_view(pending@) =~= ev.subrange(k + 1, n as int)) by {
            assert(pending@ =~= before.subrange(1, before.len() as int));
            assert forall|m: int| 0 <= m < pending@.len() implies #[trigger] edits_view(pending@)[m] == ev.subrange(k + 1, n as int)[m] by {
                assert(edits_view(pending@)[m] == edit_view(before[m + 1]));
                assert(edits_view(before)[m + 1] == ev.subrange(k as int, n as int)[m + 1]);
            }
        }
        let step = apply_edit(&mut json.entries, e);
        match step {
            Ok(()) => {},
            Err(msg) => {
                proof {
                    assert(apply_edits_upto(start, ev, k as int + 1) == Err::<Seq<(Seq<char>, EntryView)>, Seq<char>>(msg@));
                    lemma_upto_stops(start, ev, k as int + 1, n as int);
                    assert(apply_edits_upto(start, ev, n as int) == Err::<Seq<(Seq<char>, EntryView)>, Seq<char>>(msg@));
                    assert(apply_edits_spec(given, ev) == Err::<Seq<(Seq<char>, EntryView)>, Seq<char>>(msg@));
                }
                return Err(msg);
            },
        }
        k = k + 1;
    }
    Ok(json)
}

proof fn lemma_upto_stops(s: Seq<(Seq<char>, EntryView)>, edits: Seq<JsonEditView>, k: int, n: int)
    requires
        1 <= k <= n,
        apply_edits_upto(s, edits, k) is Err,
    ensures
        apply_edits_upto(s, edits, n) == apply_edits_upto(s, edits, k),
    decreases n - k,
{
    if n > k {
        lemma_upto_stops(s, edits, k, n - 1);
    }
}

} // verus!
