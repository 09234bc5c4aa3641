//! Properties that relate several operations: what one step undoes, what a
//! repeated step leaves alone, and what the vault list is determined by.
use vstd::prelude::*;
use vstd::arithmetic::div_mod::{
    lemma_fundamental_div_mod, lemma_mod_bound, lemma_mod_multiples_vanish, lemma_small_mod,
};
use crate::app::{App, Screen, Tab, TwoFactorMethod, VaultMode};
use crate::display::{detail_lines_spec, Tone};
use crate::model::{opt_view, type_label_spec, ItemPatch};
use crate::commands::{patch_edits, section_sets, JsonEditView};
use crate::clipboard::{
    cleared_message, phase_rank, ActionView, AutoclearEvent, AutoclearPhase, AutoclearView,
};
use crate::effects::{BwJob, Effect};
use crate::keys::{KeyCode, KeyEvent};
use crate::form::{ItemForm, ItemFormField, ItemKind};
use crate::model::Item;
use crate::search::{
    candidates, filter_result, in_folder, lemma_candidates_increasing, lemma_candidates_members, ranked,
    ranks_before, score_of,
};

verus! {

// ---- the order the search ranks by ------------------------------------------

/// `out` lists its entries in strictly increasing rank.
pub open spec fn rank_sorted(out: Seq<usize>, items: Seq<Item>, query: Seq<char>) -> bool {
    forall|a: int, b: int| 0 <= a < b < out.len() ==> ranks_before(items, query, #[trigger] out[a], #[trigger] out[b])
}

proof fn lemma_ranks_before_strict(items: Seq<Item>, query: Seq<char>, a: usize, b: usize)
    ensures
        !ranks_before(items, query, a, a),
        ranks_before(items, query, a, b) ==> !ranks_before(items, query, b, a),
        a != b ==> ranks_before(items, query, a, b) || ranks_before(items, query, b, a),
{
}

proof fn lemma_rank_sorted_unique(o1: Seq<usize>, o2: Seq<usize>, items: Seq<Item>, query: Seq<char>)
    requires
        rank_sorted(o1, items, query),
        rank_sorted(o2, items, query),
        forall|i: usize| o1.contains(i) <==> o2.contains(i),
    ensures
        o1 == o2,
    decreases o1.len(),
{
    if o1.len() == 0 {
        if o2.len() > 0 {
            assert(o2.contains(o2[0]));
        }
        assert(o1 =~= o2);
    } else {
        let x = o1[0];
        assert(o1.contains(x));
        assert(o2.contains(x));
        let y = o2[0];
        if x != y {
            assert(o2.contains(y));
            assert(o1.contains(y));
            let j = choose|j: int| 0 <= j < o1.len() && o1[j] == y;
            let k = choose|k: int| 0 <= k < o2.len() && o2[k] == x;
            assert(ranks_before(items, query, o1[0], o1[j]));
            assert(ranks_before(items, query, o2[0], o2[k]));
            lemma_ranks_before_strict(items, query, x, y);
        }
        let r1 = o1.drop_first();
        let r2 = o2.drop_first();
        assert forall|i: usize| r1.contains(i) implies r2.contains(i) by {
            let j = choose|j: int| 0 <= j < r1.len() && r1[j] == i;
            assert(o1[j + 1] == i);
            assert(ranks_before(items, query, o1[0], o1[j + 1]));
            lemma_ranks_before_strict(items, query, x, i);
            assert(o1.contains(i));
            assert(o2.contains(i));
            let m = choose|m: int| 0 <= m < o2.len() && o2[m] == i;
            assert(m != 0);
            assert(r2[m - 1] == i);
        }
        assert forall|i: usize| r2.contains(i) implies r1.contains(i) by {
            let j = choose|j: int| 0 <= j < r2.len() && r2[j] == i;
            assert(o2[j + 1] == i);
            assert(ranks_before(items, query, o2[0], o2[j + 1]));
            lemma_ranks_before_strict(items, query, y, i);
            assert(o2.contains(i));
            assert(o1.contains(i));
            let m = choose|m: int| 0 <= m < o1.len() && o1[m] == i;
            assert(m != 0);
            assert(r1[m - 1] == i);
        }
        assert forall|a: int, b: int| 0 <= a < b < r1.len() implies
            ranks_before(items, query, #[trigger] r1[a], #[trigger] r1[b]) by {
            assert(r1[a] == o1[a + 1] && r1[b] == o1[b + 1]);
        }
        assert forall|a: int, b: int| 0 <= a < b < r2.len() implies
            ranks_before(items, query, #[trigger] r2[a], #[trigger] r2[b]) by {
            assert(r2[a] == o2[a + 1] && r2[b] == o2[b + 1]);
        }
        lemma_rank_sorted_unique(r1, r2, items, query);
        assert(o1 =~= seq![x] + r1);
        assert(o2 =~= seq![y] + r2);
    }
}

/// The vault list is a function of what it is computed from: two lists
/// that both show the same items, folders, folder entry and query are the
/// same list, entry for entry.
pub proof fn lemma_filter_result_unique(
    o1: Seq<usize>,
    o2: Seq<usize>,
    items: Seq<Item>,
    folders: Seq<crate::model::Folder>,
    folder_index: usize,
    query: Seq<char>,
)
    requires
        filter_result(o1, items, folders, folder_index, query),
        filter_result(o2, items, folders, folder_index, query),
    ensures
        o1 == o2,
{
    if query.len() > 0 {
        let cands = crate::search::candidates(items, folders, folder_index);
        assert(ranked(o1, cands, items, query));
        assert(ranked(o2, cands, items, query));
        assert forall|i: usize| o1.contains(i) <==> o2.contains(i) by {
            assert(o1.contains(i) <==> (cands.contains(i) && crate::search::score_of(items, query, i) is Some));
            assert(o2.contains(i) <==> (cands.contains(i) && crate::search::score_of(items, query, i) is Some));
        }
        lemma_rank_sorted_unique(o1, o2, items, query);
    }
}

/// The vault list holds exactly the items shown under the chosen folder
/// entry that the query matches (every one of them when the query is
/// empty), each once.
pub proof fn lemma_list_holds_the_matching_items(
    out: Seq<usize>,
    items: Seq<Item>,
    folders: Seq<crate::model::Folder>,
    folder_index: usize,
    query: Seq<char>,
)
    requires
        filter_result(out, items, folders, folder_index, query),
        items.len() <= usize::MAX,
    ensures
        forall|i: usize| #[trigger] out.contains(i) <==> (
            i < items.len()
            && in_folder(items[i as int], folders, folder_index)
            && (query.len() > 0 ==> score_of(items, query, i) is Some)
        ),
        out.no_duplicates(),
{
    lemma_candidates_members(items, folders, folder_index, items.len() as int);
    let cands = candidates(items, folders, folder_index);
    if query.len() == 0 {
        lemma_candidates_increasing(items, folders, folder_index);
        assert forall|a: int, b: int| 0 <= a < out.len() && 0 <= b < out.len() && a != b implies out[a] != out[b] by {
            if a < b {
                assert(out[a] < out[b]);
            } else {
                assert(out[b] < out[a]);
            }
        }
    } else {
        assert forall|i: usize| #[trigger] out.contains(i) <==> (
            i < items.len()
            && in_folder(items[i as int], folders, folder_index)
            && (query.len() > 0 ==> score_of(items, query, i) is Some)
        ) by {
            assert(out.contains(i) <==> (cands.contains(i) && score_of(items, query, i) is Some));
        }
        assert forall|a: int, b: int| 0 <= a < out.len() && 0 <= b < out.len() && a != b implies out[a] != out[b] by {
            if a < b {
                assert(ranks_before(items, query, out[a], out[b]));
                lemma_ranks_before_strict(items, query, out[a], out[b]);
            } else {
                assert(ranks_before(items, query, out[b], out[a]));
                lemma_ranks_before_strict(items, query, out[b], out[a]);
            }
        }
    }
}

/// Rebuilding the vault list twice changes nothing the first rebuild did
/// not: the same entries, the same selection, the rest untouched.
pub proof fn lemma_refilter_idempotent(a: App, b: App, c: App)
    requires
        a.refilter_post(b),
        b.refilter_post(c),
    ensures
        c.filtered@ == b.filtered@,
        c.selected == b.selected,
        c == (App { filtered: c.filtered, ..b }),
{
    lemma_filter_result_unique(c.filtered@, b.filtered@, b.items@, b.folders@, b.folder_index, b.query@);
}

// ---- wrapping cursors --------------------------------------------------------

proof fn lemma_wrap_back(p: int, d: int, n: int)
    requires
        0 <= p < n,
    ensures
        ((p + d) % n + (-d)) % n == p,
{
    let q = (p + d) % n;
    let k = (p + d) / n;
    lemma_fundamental_div_mod(p + d, n);
    assert(q + (-d) == n * (-k) + p) by (nonlinear_arith)
        requires
            p + d == n * k + q,
    ;
    lemma_mod_multiples_vanish(-k, p, n);
    lemma_small_mod(p as nat, n as nat);
}

/// Moving the vault cursor `delta` places and then `back == -delta` places
/// selects the item it started on (`j` then `k`, for instance).
pub proof fn lemma_move_selection_round_trip(a: App, b: App, c: App, delta: i32, back: i32)
    requires
        a.wf(),
        a.filtered@.len() > 0,
        delta + back == 0,
        a.move_selection_post(b, delta),
        b.move_selection_post(c, back),
    ensures
        c.selected == a.selected,
        c == a.with_selection(a.selected),
{
    let n = a.filtered@.len() as int;
    let q = (a.selected + delta) % n;
    lemma_mod_bound(a.selected + delta, n);
    assert(a.filtered.len() == n);
    assert(b.selected as int == q);
    assert(b.filtered@.len() == n);
    lemma_mod_bound(q + back, n);
    lemma_wrap_back(a.selected as int, delta as int, n);
    assert(c.selected as int == (q + back) % n);
}

/// Stepping through the folder entries `delta` places and `back == -delta`
/// places returns to
/// the entry it started on, and the list shown is then the one that entry
/// and the query give.
pub proof fn lemma_cycle_folder_round_trip(a: App, b: App, c: App, delta: i32, back: i32)
    requires
        a.folder_index < a.folders@.len() + 2,
        delta + back == 0,
        a.cycle_folder_post(b, delta),
        b.cycle_folder_post(c, back),
    ensures
        c.folder_index == a.folder_index,
        filter_result(a.filtered@, a.items@, a.folders@, a.folder_index, a.query@) ==> c.filtered@ == a.filtered@,
{
    let n = (a.folders@.len() + 2) as int;
    lemma_wrap_back(a.folder_index as int, delta as int, n);
    if filter_result(a.filtered@, a.items@, a.folders@, a.folder_index, a.query@) {
        lemma_filter_result_unique(a.filtered@, c.filtered@, a.items@, a.folders@, a.folder_index, a.query@);
    }
}

// ---- cycles of enumerations ----------------------------------------------------

/// `Tab` and `Shift+Tab` undo each other, and three tabs come back round.
pub proof fn lemma_tab_cycle(t: Tab)
    ensures
        t.next_spec().prev_spec() == t,
        t.prev_spec().next_spec() == t,
        t.next_spec().next_spec().next_spec() == t,
{
}

/// Switching the two-step method twice gives the method back.
pub proof fn lemma_two_factor_toggle_involution(m: TwoFactorMethod)
    ensures
        m.toggled_spec().toggled_spec() == m,
        m.toggled_spec() != m,
{
}

/// The item kinds form a cycle of four that the next and previous steps
/// walk in opposite directions, and a kind survives the trip through its
/// `bw` type number.
pub proof fn lemma_item_kind_cycle(k: ItemKind)
    ensures
        k.next_spec().prev_spec() == k,
        k.prev_spec().next_spec() == k,
        k.next_spec().next_spec().next_spec().next_spec() == k,
        ItemKind::from_item_type_spec(k.item_type_spec()) == k,
{
}

// ---- the item form ---------------------------------------------------------------

proof fn lemma_fields_distinct(k: ItemKind)
    ensures
        k.fields_spec().no_duplicates(),
        k.fields_spec().len() > 0,
{
    let f = k.fields_spec();
    assert forall|i: int, j: int| 0 <= i < f.len() && 0 <= j < f.len() && i != j implies f[i] != f[j] by {
        match k {
            ItemKind::Login => {},
            ItemKind::Note => {},
            ItemKind::Card => {},
            ItemKind::Identity => {},
        }
    }
}

/// Moving the form's focus `delta` fields and then `back == -delta` fields
/// returns to the field it was on, when that field is one of the form's own.
pub proof fn lemma_cycle_focus_round_trip(form: ItemForm, delta: i32, back: i32)
    requires
        form.kind.fields_spec().contains(form.focus),
        delta + back == 0,
    ensures
        (ItemForm { focus: form.cycled_focus(delta), ..form }).cycled_focus(back) == form.focus,
{
    let fields = form.kind.fields_spec();
    lemma_fields_distinct(form.kind);
    let n = fields.len() as int;
    let p = fields.index_of(form.focus);
    let q = (p + delta as int) % n;
    let moved = ItemForm { focus: form.cycled_focus(delta), ..form };
    assert(moved.focus == fields[q]);
    assert(fields.contains(fields[q]));
    let iq = fields.index_of(fields[q]);
    assert(fields[iq] == fields[q]);
    assert(iq == q);
    lemma_wrap_back(p, delta as int, n);
}

/// Typing a character into a field with room for it and then deleting one
/// gives every field its text back and leaves the rest of the form as it
/// was (an edited password is hidden again).
pub proof fn lemma_type_then_backspace(a: ItemForm, b: ItemForm, c: ItemForm, ch: char)
    requires
        a.type_char_post(b, ch),
        b.backspace_post(c),
        match a.focus.max_len_spec() {
            Some(max) => a.value_spec(a.focus).len() < max,
            None => true,
        },
    ensures
        forall|f: ItemFormField| #[trigger] c.value_spec(f) == a.value_spec(f),
        c.password_revealed == (a.password_revealed && a.focus != ItemFormField::Password),
        c.mode == a.mode,
        c.kind == a.kind,
        c.focus == a.focus,
        c.generator_open == a.generator_open,
        c.error == a.error,
{
    let f0 = a.focus;
    assert(a.value_spec(f0).push(ch).drop_last() =~= a.value_spec(f0));
    assert forall|f: ItemFormField| #[trigger] c.value_spec(f) == a.value_spec(f) by {
        if f != f0 {
            assert((ItemForm { password_revealed: a.password_revealed, ..b }).value_spec(f) == b.value_spec(f));
            assert((ItemForm { password_revealed: b.password_revealed, ..c }).value_spec(f) == c.value_spec(f));
        }
    }
}


// ---- keys that work the same in every state ----------------------------------------

/// Ctrl+C quits from any screen and in any state, and changes nothing else.
pub proof fn lemma_ctrl_c_quits(a: App, b: App, r: Effect, key: KeyEvent)
    requires
        key.ctrl,
        key.code == KeyCode::Char('c'),
        a.handle_key_post(b, r, key),
    ensures
        b == (App { should_quit: true, ..a }),
        r is Nothing,
{
}

/// On the main screen without the item form, Tab moves to the next tab
/// and Shift+Tab to the previous one, changing nothing else; so Tab then
/// Shift+Tab gives the state back.
pub proof fn lemma_tab_keys(a: App, b: App, c: App, r1: Effect, r2: Effect, k1: KeyEvent, k2: KeyEvent)
    requires
        a.screen is Main,
        a.item_form is None,
        k1.code == KeyCode::Tab,
        k2.code == KeyCode::BackTab,
        a.handle_key_post(b, r1, k1),
        b.handle_key_post(c, r2, k2),
    ensures
        b == (App { tab: a.tab.next_spec(), ..a }),
        r1 is Nothing,
        c == a,
        r2 is Nothing,
{
    lemma_tab_cycle(a.tab);
}

/// On the account tab, `o` only asks to confirm the logout; then `y` or `Y`
/// starts it, marking the program busy "Logging out…", and any other key
/// but Tab and Shift+Tab only takes the question back.
pub proof fn lemma_logout_asks_first(a: App, b: App, c: App, r1: Effect, r2: Effect, k1: KeyEvent, k2: KeyEvent)
    requires
        a.screen is Main,
        a.item_form is None,
        a.tab == Tab::Account,
        !a.confirm_logout,
        !a.busy,
        k1.code == KeyCode::Char('o'),
        k2.code != KeyCode::Tab,
        k2.code != KeyCode::BackTab,
        !(k2.ctrl && k2.code == KeyCode::Char('c')),
        a.handle_key_post(b, r1, k1),
        b.handle_key_post(c, r2, k2),
    ensures
        b == (App { confirm_logout: true, ..a }),
        r1 is Nothing,
        (k2.code == KeyCode::Char('y') || k2.code == KeyCode::Char('Y')) ==> {
            &&& c.busy
            &&& c.busy_label matches Some(l) && l@ == "Logging out…"@
            &&& c == (App { confirm_logout: false, busy: true, busy_label: c.busy_label, ..a })
            &&& r2 matches Effect::Run(BwJob::Logout)
        },
        !(k2.code == KeyCode::Char('y') || k2.code == KeyCode::Char('Y')) ==> c == a && r2 is Nothing,
{
}


// ---- clearing a copied secret --------------------------------------------------------

/// The action that goes with each phase of the clearing job, and what each
/// phase implies: the history is only touched, and a notification only
/// sent, off WSL; the history is only looked at before it was purged.
pub open spec fn phase_action_agree(s: AutoclearView, a: ActionView) -> bool {
    &&& (a is PurgeHistory <==> (s.phase == AutoclearPhase::Purging || s.phase == AutoclearPhase::FinalPurge))
    &&& (a is Clear <==> s.phase == AutoclearPhase::Clearing)
    &&& (a is Notify <==> s.phase == AutoclearPhase::Notifying)
    &&& (s.phase == AutoclearPhase::Purging ==> s.purged)
    &&& (s.phase == AutoclearPhase::Checking ==> !s.purged)
    &&& ((s.phase == AutoclearPhase::Checking || s.phase == AutoclearPhase::Purging
        || s.phase == AutoclearPhase::FinalPurge || s.phase == AutoclearPhase::Notifying) ==> !s.wsl)
}

/// A run of the clearing job: its states, the events reported and the
/// actions asked, from a start as `autoclear_start` makes it (a first
/// round, the history not purged yet).
pub open spec fn autoclear_run(states: Seq<AutoclearView>, events: Seq<AutoclearEvent>, actions: Seq<ActionView>) -> bool {
    &&& states.len() == events.len() + 1
    &&& actions.len() == states.len()
    &&& !states[0].purged
    &&& (states[0], actions[0]) == states[0].round()
    &&& forall|i: int| 0 <= i < events.len() ==> #[trigger] states[i].expects(events[i])
        && states[i].next(events[i]) == (states[i + 1], actions[i + 1])
}

/// However it starts (`autoclear_start` starts with `round`), the clearing
/// job's phase and action agree.
pub proof fn lemma_round_agrees(v: AutoclearView)
    ensures
        phase_action_agree(v.round().0, v.round().1),
{
}

proof fn lemma_step_agrees(v: AutoclearView, a: ActionView, e: AutoclearEvent)
    requires
        v.expects(e),
        phase_action_agree(v, a),
    ensures
        phase_action_agree(v.next(e).0, v.next(e).1),
        v.next(e).0.wsl == v.wsl,
        v.next(e).0.secret == v.secret,
        v.next(e).0.label == v.label,
        v.purged ==> v.next(e).0.purged,
        phase_rank(v.next(e).0.phase) >= phase_rank(v.phase),
{
}

proof fn lemma_run_facts(states: Seq<AutoclearView>, events: Seq<AutoclearEvent>, actions: Seq<ActionView>, j: int)
    requires
        autoclear_run(states, events, actions),
        0 <= j < states.len(),
    ensures
        phase_action_agree(states[j], actions[j]),
        forall|i: int| 0 <= i <= j ==> {
            &&& phase_rank(#[trigger] states[i].phase) <= phase_rank(states[j].phase)
            &&& (states[i].purged ==> states[j].purged)
            &&& states[i].wsl == states[j].wsl
            &&& states[i].secret == states[j].secret
            &&& states[i].label == states[j].label
        },
    decreases j,
{
    lemma_round_agrees(states[0]);
    if j > 0 {
        lemma_run_facts(states, events, actions, j - 1);
        assert(states[j - 1].expects(events[j - 1]));
        lemma_step_agrees(states[j - 1], actions[j - 1], events[j - 1]);
    }
}

/// The clipboard history is only purged off WSL, and at most twice: once
/// before the deadline, as soon as the secret shows up in it, and once at
/// the deadline, in that order.
pub proof fn lemma_autoclear_history(states: Seq<AutoclearView>, events: Seq<AutoclearEvent>, actions: Seq<ActionView>)
    requires
        autoclear_run(states, events, actions),
    ensures
        forall|i: int| 0 <= i < actions.len() && #[trigger] actions[i] is PurgeHistory ==> !states[i].wsl,
        forall|i: int, j: int| 0 <= i < j < actions.len() && #[trigger] actions[i] is PurgeHistory
            && #[trigger] actions[j] is PurgeHistory
            ==> states[i].phase == AutoclearPhase::Purging && states[j].phase == AutoclearPhase::FinalPurge,
{
    assert forall|i: int| 0 <= i < actions.len() && #[trigger] actions[i] is PurgeHistory implies !states[i].wsl by {
        lemma_run_facts(states, events, actions, i);
    }
    assert forall|i: int, j: int| 0 <= i < j < actions.len() && #[trigger] actions[i] is PurgeHistory
        && #[trigger] actions[j] is PurgeHistory
        implies states[i].phase == AutoclearPhase::Purging && states[j].phase == AutoclearPhase::FinalPurge by {
        lemma_run_facts(states, events, actions, i);
        lemma_run_facts(states, events, actions, j);
        lemma_run_facts(states, events, actions, i + 1);
        assert(states[i].expects(events[i]));
        if states[i].phase == AutoclearPhase::FinalPurge {
            assert(states[i + 1].phase == AutoclearPhase::Reading);
            assert(phase_rank(states[i + 1].phase) <= phase_rank(states[j].phase));
        }
        if states[j].phase == AutoclearPhase::Purging {
            lemma_run_facts(states, events, actions, j - 1);
            assert(states[j - 1].expects(events[j - 1]));
            assert(states[j - 1].phase == AutoclearPhase::Checking);
            assert(states[i].purged);
        }
    }
}

/// The clipboard is cleared only when it still holds the copied secret.
pub proof fn lemma_autoclear_clears_only_the_secret(states: Seq<AutoclearView>, events: Seq<AutoclearEvent>, actions: Seq<ActionView>)
    requires
        autoclear_run(states, events, actions),
    ensures
        forall|i: int| 0 <= i < events.len() && #[trigger] actions[i + 1] is Clear ==>
            (events[i] matches AutoclearEvent::Clipboard(Some(c)) && c@ == states[0].secret),
        !(actions[0] is Clear),
{
    assert forall|i: int| 0 <= i < events.len() && #[trigger] actions[i + 1] is Clear implies
        (events[i] matches AutoclearEvent::Clipboard(Some(c)) && c@ == states[0].secret) by {
        lemma_run_facts(states, events, actions, i);
        assert(states[i].expects(events[i]));
        assert(states[i].next(events[i]) == (states[i + 1], actions[i + 1]));
        assert(states[i].phase == AutoclearPhase::Reading);
        assert(phase_rank(states[0].phase) <= phase_rank(states[i].phase));
    }
}

/// "Clipboard cleared" is announced only right after the clipboard was
/// cleared, and never on WSL.
pub proof fn lemma_autoclear_notifies_after_clear(states: Seq<AutoclearView>, events: Seq<AutoclearEvent>, actions: Seq<ActionView>)
    requires
        autoclear_run(states, events, actions),
    ensures
        forall|i: int| 0 <= i < actions.len() && #[trigger] actions[i] is Notify ==> {
            &&& i > 0
            &&& actions[i - 1] is Clear
            &&& !states[i].wsl
            &&& actions[i] == ActionView::Notify(cleared_message(states[0].label))
        },
{
    assert forall|i: int| 0 <= i < actions.len() && #[trigger] actions[i] is Notify implies {
        &&& i > 0
        &&& actions[i - 1] is Clear
        &&& !states[i].wsl
        &&& actions[i] == ActionView::Notify(cleared_message(states[0].label))
    } by {
        lemma_run_facts(states, events, actions, i);
        if i == 0 {
            assert(actions[0] == states[0].round().1);
            assert(!(actions[0] is Notify));
        } else {
            lemma_run_facts(states, events, actions, i - 1);
            assert(states[i - 1].expects(events[i - 1]));
            assert(states[i - 1].next(events[i - 1]) == (states[i], actions[i]));
            assert(states[i].phase == AutoclearPhase::Notifying);
            assert(states[i - 1].phase == AutoclearPhase::Clearing);
            assert(phase_rank(states[0].phase) <= phase_rank(states[i - 1].phase));
        }
    }
}


// ---- what single keys and fields stand for -------------------------------------------

/// Each item kind carries the `bw` type number whose label is the kind's
/// own (1 login, 2 note, 3 card, 4 identity), and the number picks the
/// form with that kind's fields: the card number for 3, the username for
/// 1, the first name for 4, the notes alone for 2. Other numbers edit as
/// logins.
pub proof fn lemma_item_kind_type_numbers(k: ItemKind, n: u8)
    ensures
        type_label_spec(k.item_type_spec()) == k.label_spec(),
        1 <= n <= 4 ==> ItemKind::from_item_type_spec(n).label_spec() == type_label_spec(n),
        !(1 <= n <= 4) ==> ItemKind::from_item_type_spec(n) == ItemKind::Login,
        k.fields_spec().contains(ItemFormField::Number) <==> k.item_type_spec() == 3,
        k.fields_spec().contains(ItemFormField::Username) <==> k.item_type_spec() == 1,
        k.fields_spec().contains(ItemFormField::FirstName) <==> k.item_type_spec() == 4,
        k.fields_spec().len() == 2 <==> k.item_type_spec() == 2,
{
    let f = k.fields_spec();
    match k {
        ItemKind::Login => {
            assert(f[1] == ItemFormField::Username);
            assert(!f.contains(ItemFormField::Number));
            assert(!f.contains(ItemFormField::FirstName));
        },
        ItemKind::Note => {
            assert(!f.contains(ItemFormField::Number));
            assert(!f.contains(ItemFormField::Username));
            assert(!f.contains(ItemFormField::FirstName));
        },
        ItemKind::Card => {
            assert(f[3] == ItemFormField::Number);
            assert(!f.contains(ItemFormField::Username));
            assert(!f.contains(ItemFormField::FirstName));
        },
        ItemKind::Identity => {
            assert(f[1] == ItemFormField::FirstName);
            assert(!f.contains(ItemFormField::Number));
            assert(!f.contains(ItemFormField::Username));
        },
    }
}

/// In the vault list (normal mode, no popup or form), Down does exactly
/// what `j` does and Up exactly what `k` does: Down selects the next item
/// and Up the previous one, wrapping around.
pub proof fn lemma_arrow_keys_move_like_j_and_k(a: App, b: App, r: Effect)
    requires
        a.screen is Main,
        a.tab == Tab::Vault,
        a.item_form is None,
        a.vault_mode == VaultMode::Normal,
        !a.detail_open,
    ensures
        a.handle_key_post(b, r, KeyEvent { code: KeyCode::Down, ctrl: false })
            <==> a.handle_key_post(b, r, KeyEvent { code: KeyCode::Char('j'), ctrl: false }),
        a.handle_key_post(b, r, KeyEvent { code: KeyCode::Up, ctrl: false })
            <==> a.handle_key_post(b, r, KeyEvent { code: KeyCode::Char('k'), ctrl: false }),
        a.handle_key_post(b, r, KeyEvent { code: KeyCode::Down, ctrl: false }) && a.filtered@.len() > 0
            ==> b.selected as int == (a.selected + 1) % (a.filtered@.len() as int),
        a.handle_key_post(b, r, KeyEvent { code: KeyCode::Up, ctrl: false }) && a.filtered@.len() > 0
            ==> b.selected as int == (a.selected - 1) % (a.filtered@.len() as int),
{
    if a.filtered@.len() > 0 {
        let n = a.filtered@.len() as int;
        assert(a.filtered.len() == n);
        lemma_mod_bound(a.selected + 1, n);
        lemma_mod_bound(a.selected - 1, n);
    }
}

/// On the generator tab, `u`, `l`, `n` and `s` each turn exactly one
/// character set on or off (upper case, lower case, numbers, special) and
/// leave the length and the other sets; Up and Down change only the
/// length, one step, within 5 to 128.
pub proof fn lemma_generator_keys(a: App, b: App, r: Effect, key: KeyEvent)
    requires
        a.screen is Main,
        a.tab == Tab::Generator,
        !key.ctrl,
        a.handle_key_post(b, r, key),
    ensures
        ({
            let o = a.generator.opts;
            let n = b.generator.opts;
            &&& key.code == KeyCode::Char('u') ==> n.uppercase == !o.uppercase && n.lowercase == o.lowercase
                && n.numbers == o.numbers && n.special == o.special && n.length == o.length
            &&& key.code == KeyCode::Char('l') ==> n.uppercase == o.uppercase && n.lowercase == !o.lowercase
                && n.numbers == o.numbers && n.special == o.special && n.length == o.length
            &&& key.code == KeyCode::Char('n') ==> n.uppercase == o.uppercase && n.lowercase == o.lowercase
                && n.numbers == !o.numbers && n.special == o.special && n.length == o.length
            &&& key.code == KeyCode::Char('s') ==> n.uppercase == o.uppercase && n.lowercase == o.lowercase
                && n.numbers == o.numbers && n.special == !o.special && n.length == o.length
            &&& key.code == KeyCode::Up ==> n.uppercase == o.uppercase && n.lowercase == o.lowercase
                && n.numbers == o.numbers && n.special == o.special
                && n.length == (if o.length >= 128 { 128 } else { o.length + 1 })
            &&& key.code == KeyCode::Down ==> n.uppercase == o.uppercase && n.lowercase == o.lowercase
                && n.numbers == o.numbers && n.special == o.special
                && n.length == (if o.length <= 5 { 5 } else { o.length - 1 })
        }),
{
}

/// A login's detail popup has a "TOTP: " line, and it says "yes (t)"
/// exactly when the login has a TOTP seed, "no" otherwise.
pub proof fn lemma_totp_line(app: App, item: Item)
    requires
        item.item_type == 1,
    ensures
        exists|i: int| 0 <= i < detail_lines_spec(app, item).len() && #[trigger] detail_lines_spec(app, item)[i].0 == "TOTP: "@,
        forall|i: int| 0 <= i < detail_lines_spec(app, item).len() && #[trigger] detail_lines_spec(app, item)[i].0 == "TOTP: "@
            ==> detail_lines_spec(app, item)[i].1 == (if item.login matches Some(l) && l.totp is Some { "yes (t)"@ } else { "no"@ }),
{
    reveal_strlit("TOTP: ");
    reveal_strlit("Type: ");
    reveal_strlit("Username: ");
    reveal_strlit("URL: ");
    let lines = detail_lines_spec(app, item);
    let head = seq![("Type: "@, type_label_spec(item.item_type), Tone::Plain)];
    let ll = crate::display::login_lines_spec(app, item);
    let fl = crate::display::field_lines_spec(item);
    let nl = match item.notes_spec() {
        Some(n) => seq![(Seq::empty(), Seq::empty(), Tone::Plain), (Seq::empty(), "Notes:"@, Tone::Muted), (Seq::empty(), n, Tone::Plain)],
        None => Seq::<(Seq<char>, Seq<char>, Tone)>::empty(),
    };
    assert(lines == head + ll + fl + nl);
    let lh = crate::display::login_head_lines(item);
    let t = lh.len() as int;
    assert(ll[t].0 == "TOTP: "@);
    assert(lines[1 + t] == ll[t]);
    assert forall|i: int| 0 <= i < lines.len() && #[trigger] lines[i].0 == "TOTP: "@
        implies lines[i].1 == (if item.login matches Some(l) && l.totp is Some { "yes (t)"@ } else { "no"@ }) by {
        if i == 0 {
            assert(lines[0].0 == "Type: "@);
            assert("Type: "@[1] != "TOTP: "@[1]);
        } else if i < 1 + ll.len() {
            assert(lines[i] == ll[i - 1]);
            if i - 1 < t {
                assert(ll[i - 1] == lh[i - 1]);
                if i - 1 == 0 {
                    assert(lh[0].0 == "Username: "@);
                } else {
                    assert(lh[1].0 == "URL: "@);
                }
            } else if i - 1 > t {
                assert(ll[i - 1].0 == Seq::<char>::empty());
            } else {
                assert(ll[i - 1] == ll[t]);
                assert(ll[t].1 == (if item.has_totp_spec() { "yes (t)"@ } else { "no"@ }));
            }
        } else if i < 1 + ll.len() + fl.len() {
            assert(lines[i] == fl[i - 1 - ll.len()]);
            assert(fl[i - 1 - ll.len()].0 == Seq::<char>::empty());
        } else {
            assert(lines[i] == nl[i - 1 - ll.len() - fl.len()]);
            assert(nl[i - 1 - ll.len() - fl.len()].0 == Seq::<char>::empty());
        }
    }
}


// ---- the changes an edit makes to an item's JSON ------------------------------------------

/// `edits` set `key` of `section` to `value` when it is present, and never
/// set that key to anything else.
pub open spec fn sets_key(edits: Seq<JsonEditView>, section: Seq<char>, key: Seq<char>, value: Option<Seq<char>>) -> bool {
    &&& (value matches Some(v) ==> edits.contains(JsonEditView::SetInSection { section, key, value: v }))
    &&& forall|i: int| 0 <= i < edits.len() ==> (#[trigger] edits[i] matches JsonEditView::SetInSection { section: s, key: k, value: v }
        ==> (s == section && k == key ==> value == Some(v)))
}

/// `edits` set no key of `section`.
pub open spec fn leaves_section(edits: Seq<JsonEditView>, section: Seq<char>) -> bool {
    forall|i: int| 0 <= i < edits.len() ==> !(#[trigger] edits[i] matches JsonEditView::SetInSection { section: s, .. } && s == section)
}

proof fn lemma_section_sets_members(section: Seq<char>, pairs: Seq<(Seq<char>, Option<Seq<char>>)>)
    ensures
        forall|i: int| 0 <= i < section_sets(section, pairs).len() ==>
            (#[trigger] section_sets(section, pairs)[i] matches JsonEditView::SetInSection { section: s, key: k, value: v }
                && s == section
                && exists|j: int| 0 <= j < pairs.len() && pairs[j].0 == k && pairs[j].1 == Some(v)),
        forall|j: int| 0 <= j < pairs.len() && (#[trigger] pairs[j]).1 is Some ==>
            section_sets(section, pairs).contains(JsonEditView::SetInSection { section, key: pairs[j].0, value: pairs[j].1->0 }),
    decreases pairs.len(),
{
    if pairs.len() > 0 {
        let init = pairs.drop_last();
        lemma_section_sets_members(section, init);
        let rest = section_sets(section, init);
        let all = section_sets(section, pairs);
        assert forall|i: int| 0 <= i < all.len() implies
            (#[trigger] all[i] matches JsonEditView::SetInSection { section: s, key: k, value: v }
                && s == section
                && exists|j: int| 0 <= j < pairs.len() && pairs[j].0 == k && pairs[j].1 == Some(v)) by {
            if i < rest.len() {
                assert(all[i] == rest[i]);
                if let JsonEditView::SetInSection { section: s, key: k, value: v } = rest[i] {
                    let j = choose|j: int| 0 <= j < init.len() && init[j].0 == k && init[j].1 == Some(v);
                    assert(pairs[j] == init[j]);
                }
            } else {
                assert(pairs[pairs.len() - 1] == pairs.last());
            }
        }
        assert forall|j: int| 0 <= j < pairs.len() && (#[trigger] pairs[j]).1 is Some implies
            all.contains(JsonEditView::SetInSection { section, key: pairs[j].0, value: pairs[j].1->0 }) by {
            let e = JsonEditView::SetInSection { section, key: pairs[j].0, value: pairs[j].1->0 };
            if j < init.len() {
                assert(init[j] == pairs[j]);
                assert(rest.contains(e));
                let i = choose|i: int| 0 <= i < rest.len() && rest[i] == e;
                assert(all[i] == e);
            } else {
                assert(pairs.last() == pairs[j]);
                assert(all[all.len() - 1] == e);
            }
        }
    }
}

/// A section's part of the edits (the section made sure of, then its keys)
/// sets each key to the value paired with it, when the keys are distinct.
proof fn lemma_part_sets(section: Seq<char>, pairs: Seq<(Seq<char>, Option<Seq<char>>)>, j: int)
    requires
        0 <= j < pairs.len(),
        forall|a: int, b: int| 0 <= a < b < pairs.len() ==> pairs[a].0 != pairs[b].0,
    ensures
        sets_key(seq![JsonEditView::Section { section }] + section_sets(section, pairs), section, pairs[j].0, pairs[j].1),
{
    lemma_section_sets_members(section, pairs);
    let ss = section_sets(section, pairs);
    let part = seq![JsonEditView::Section { section }] + ss;
    if pairs[j].1 is Some {
        let e = JsonEditView::SetInSection { section, key: pairs[j].0, value: pairs[j].1->0 };
        assert(ss.contains(e));
        let i = choose|i: int| 0 <= i < ss.len() && ss[i] == e;
        assert(part[i + 1] == e);
    }
    assert forall|i: int| 0 <= i < part.len() implies (#[trigger] part[i] matches JsonEditView::SetInSection { section: s, key: k, value: v }
        ==> (s == section && k == pairs[j].0 ==> pairs[j].1 == Some(v))) by {
        if i > 0 {
            assert(part[i] == ss[i - 1]);
            if let JsonEditView::SetInSection { section: s, key: k, value: v } = ss[i - 1] {
                if k == pairs[j].0 {
                    let m = choose|m: int| 0 <= m < pairs.len() && pairs[m].0 == k && pairs[m].1 == Some(v);
                    if m != j {
                        if m < j {
                            assert(pairs[m].0 != pairs[j].0);
                        } else {
                            assert(pairs[j].0 != pairs[m].0);
                        }
                    }
                }
            }
        }
    }
}

/// A section's part of the edits touches no other section.
proof fn lemma_part_leaves(section: Seq<char>, pairs: Seq<(Seq<char>, Option<Seq<char>>)>, other: Seq<char>)
    requires
        section != other,
    ensures
        leaves_section(seq![JsonEditView::Section { section }] + section_sets(section, pairs), other),
{
    lemma_section_sets_members(section, pairs);
    let ss = section_sets(section, pairs);
    let part = seq![JsonEditView::Section { section }] + ss;
    assert forall|i: int| 0 <= i < part.len() implies !(#[trigger] part[i] matches JsonEditView::SetInSection { section: s, .. } && s == other) by {
        if i > 0 {
            assert(part[i] == ss[i - 1]);
        }
    }
}

proof fn lemma_sets_key_in_middle(a: Seq<JsonEditView>, b: Seq<JsonEditView>, c: Seq<JsonEditView>, section: Seq<char>, key: Seq<char>, value: Option<Seq<char>>)
    requires
        leaves_section(a, section),
        sets_key(b, section, key, value),
        leaves_section(c, section),
    ensures
        sets_key(a + b + c, section, key, value),
{
    let all = a + b + c;
    if value is Some {
        let e = JsonEditView::SetInSection { section, key, value: value->0 };
        let i = choose|i: int| 0 <= i < b.len() && b[i] == e;
        assert(all[a.len() + i] == e);
    }
    assert forall|i: int| 0 <= i < all.len() implies (#[trigger] all[i] matches JsonEditView::SetInSection { section: s, key: k, value: v }
        ==> (s == section && k == key ==> value == Some(v))) by {
        if i < a.len() {
            assert(all[i] == a[i]);
        } else if i < a.len() + b.len() {
            assert(all[i] == b[i - a.len()]);
        } else {
            assert(all[i] == c[i - a.len() - b.len()]);
        }
    }
}

/// The part of the edits for one section, or none when the patch has no such part.
pub open spec fn section_part(present: bool, section: Seq<char>, pairs: Seq<(Seq<char>, Option<Seq<char>>)>) -> Seq<JsonEditView> {
    if present { seq![JsonEditView::Section { section }] + section_sets(section, pairs) } else { Seq::empty() }
}

/// Editing an item sets each JSON key from the patch field of the same
/// name: `name`, `notes` and `folderId` at the top (notes and folder
/// cleared when absent); for a login part `username` and `password`; for a
/// card part `cardholderName`, `brand`, `number`, `expMonth`, `expYear` and
/// `code`; for an identity part `firstName`, `lastName`, `email` and
/// `phone`; a present field is written and no key gets another field's
/// value.
pub proof fn lemma_edit_keys_match_fields(p: ItemPatch)
    ensures
        patch_edits(p).contains(JsonEditView::SetTop { key: "name"@, value: Some(p.name@) }),
        patch_edits(p).contains(JsonEditView::SetTop { key: "notes"@, value: opt_view(p.notes) }),
        patch_edits(p).contains(JsonEditView::SetTop { key: "folderId"@, value: opt_view(p.folder_id) }),
        p.login matches Some(l) ==> {
            &&& sets_key(patch_edits(p), "login"@, "username"@, opt_view(l.username))
            &&& sets_key(patch_edits(p), "login"@, "password"@, opt_view(l.password))
        },
        p.card matches Some(c) ==> {
            &&& sets_key(patch_edits(p), "card"@, "cardholderName"@, opt_view(c.cardholder_name))
            &&& sets_key(patch_edits(p), "card"@, "brand"@, opt_view(c.brand))
            &&& sets_key(patch_edits(p), "card"@, "number"@, opt_view(c.number))
            &&& sets_key(patch_edits(p), "card"@, "expMonth"@, opt_view(c.exp_month))
            &&& sets_key(patch_edits(p), "card"@, "expYear"@, opt_view(c.exp_year))
            &&& sets_key(patch_edits(p), "card"@, "code"@, opt_view(c.code))
        },
        p.identity matches Some(i) ==> {
            &&& sets_key(patch_edits(p), "identity"@, "firstName"@, opt_view(i.first_name))
            &&& sets_key(patch_edits(p), "identity"@, "lastName"@, opt_view(i.last_name))
            &&& sets_key(patch_edits(p), "identity"@, "email"@, opt_view(i.email))
            &&& sets_key(patch_edits(p), "identity"@, "phone"@, opt_view(i.phone))
        },
{
    reveal_strlit("login");
    reveal_strlit("card");
    reveal_strlit("identity");
    reveal_strlit("username");
    reveal_strlit("password");
    reveal_strlit("cardholderName");
    reveal_strlit("brand");
    reveal_strlit("number");
    reveal_strlit("expMonth");
    reveal_strlit("expYear");
    reveal_strlit("code");
    reveal_strlit("firstName");
    reveal_strlit("lastName");
    reveal_strlit("email");
    reveal_strlit("phone");
    assert("login"@.len() == 5 && "card"@.len() == 4 && "identity"@.len() == 8);
    assert("login"@ != "card"@ && "login"@ != "identity"@ && "card"@ != "identity"@);
    assert("username"@[0] != "password"@[0]);
    assert("cardholderName"@.len() == 14 && "brand"@.len() == 5 && "number"@.len() == 6
        && "expMonth"@.len() == 8 && "expYear"@.len() == 7 && "code"@.len() == 4);
    assert("firstName"@.len() == 9 && "lastName"@.len() == 8 && "email"@.len() == 5 && "phone"@.len() == 5);
    assert("email"@[0] != "phone"@[0]);
    let head = seq![
        JsonEditView::SetTop { key: "name"@, value: Some(p.name@) },
        JsonEditView::SetTop { key: "notes"@, value: opt_view(p.notes) },
        JsonEditView::SetTop { key: "folderId"@, value: opt_view(p.folder_id) },
    ];
    assert(head[0] == JsonEditView::SetTop { key: "name"@, value: Some(p.name@) });
    assert(head[1] == JsonEditView::SetTop { key: "notes"@, value: opt_view(p.notes) });
    assert(head[2] == JsonEditView::SetTop { key: "folderId"@, value: opt_view(p.folder_id) });
    let lpairs = match p.login {
        Some(l) => seq![("username"@, opt_view(l.username)), ("password"@, opt_view(l.password))],
        None => Seq::empty(),
    };
    let cpairs = match p.card {
        Some(c) => seq![
            ("cardholderName"@, opt_view(c.cardholder_name)),
            ("brand"@, opt_view(c.brand)),
            ("number"@, opt_view(c.number)),
            ("expMonth"@, opt_view(c.exp_month)),
            ("expYear"@, opt_view(c.exp_year)),
            ("code"@, opt_view(c.code)),
        ],
        None => Seq::empty(),
    };
    let ipairs = match p.identity {
        Some(i) => seq![
            ("firstName"@, opt_view(i.first_name)),
            ("lastName"@, opt_view(i.last_name)),
            ("email"@, opt_view(i.email)),
            ("phone"@, opt_view(i.phone)),
        ],
        None => Seq::empty(),
    };
    let lp = section_part(p.login is Some, "login"@, lpairs);
    let cp = section_part(p.card is Some, "card"@, cpairs);
    let ip = section_part(p.identity is Some, "identity"@, ipairs);
    let all = patch_edits(p);
    assert(all =~= head + lp + cp + ip);
    assert(all[0] == head[0] && all[1] == head[1] && all[2] == head[2]);
    assert(leaves_section(head, "login"@));
    assert(leaves_section(head, "card"@));
    assert(leaves_section(head, "identity"@));
    assert(leaves_section(Seq::<JsonEditView>::empty(), "login"@));
    assert(leaves_section(Seq::<JsonEditView>::empty(), "card"@));
    assert(leaves_section(Seq::<JsonEditView>::empty(), "identity"@));
    lemma_part_leaves("login"@, lpairs, "card"@);
    lemma_part_leaves("login"@, lpairs, "identity"@);
    lemma_part_leaves("card"@, cpairs, "login"@);
    lemma_part_leaves("card"@, cpairs, "identity"@);
    lemma_part_leaves("identity"@, ipairs, "login"@);
    lemma_part_leaves("identity"@, ipairs, "card"@);
    lemma_leaves_concat(lp, cp, "identity"@);
    lemma_leaves_concat(head, lp, "card"@);
    lemma_leaves_concat(cp, ip, "login"@);
    if let Some(l) = p.login {
        assert(lpairs[0].0 != lpairs[1].0);
        lemma_part_sets("login"@, lpairs, 0);
        lemma_part_sets("login"@, lpairs, 1);
        assert(all =~= head + lp + (cp + ip));
        lemma_sets_key_in_middle(head, lp, cp + ip, "login"@, "username"@, opt_view(l.username));
        lemma_sets_key_in_middle(head, lp, cp + ip, "login"@, "password"@, opt_view(l.password));
    }
    if let Some(c) = p.card {
        assert(all =~= (head + lp) + cp + ip);
        assert(cpairs.len() == 6);
        assert forall|x: int, y: int| 0 <= x < y < cpairs.len() implies cpairs[x].0 != cpairs[y].0 by {
            assert(cpairs[x].0.len() != cpairs[y].0.len());
        }
        lemma_card_keys(head + lp, cp, ip, cpairs, 0);
        lemma_card_keys(head + lp, cp, ip, cpairs, 1);
        lemma_card_keys(head + lp, cp, ip, cpairs, 2);
        lemma_card_keys(head + lp, cp, ip, cpairs, 3);
        lemma_card_keys(head + lp, cp, ip, cpairs, 4);
        lemma_card_keys(head + lp, cp, ip, cpairs, 5);
        assert(sets_key(all, "card"@, cpairs[0].0, cpairs[0].1));
        assert(sets_key(all, "card"@, cpairs[1].0, cpairs[1].1));
        assert(sets_key(all, "card"@, cpairs[2].0, cpairs[2].1));
        assert(sets_key(all, "card"@, cpairs[3].0, cpairs[3].1));
        assert(sets_key(all, "card"@, cpairs[4].0, cpairs[4].1));
        assert(sets_key(all, "card"@, cpairs[5].0, cpairs[5].1));
    }
    if let Some(i) = p.identity {
        assert(all =~= (head + lp + cp) + ip + Seq::<JsonEditView>::empty());
        lemma_leaves_concat(head + lp, cp, "identity"@);
        assert(ipairs.len() == 4);
        assert forall|x: int, y: int| 0 <= x < y < ipairs.len() implies ipairs[x].0 != ipairs[y].0 by {
            if x == 2 && y == 3 {
                assert(ipairs[x].0[0] != ipairs[y].0[0]);
            } else {
                assert(ipairs[x].0.len() != ipairs[y].0.len());
            }
        }
        lemma_card_keys(head + lp + cp, ip, Seq::<JsonEditView>::empty(), ipairs, 0);
        lemma_card_keys(head + lp + cp, ip, Seq::<JsonEditView>::empty(), ipairs, 1);
        lemma_card_keys(head + lp + cp, ip, Seq::<JsonEditView>::empty(), ipairs, 2);
        lemma_card_keys(head + lp + cp, ip, Seq::<JsonEditView>::empty(), ipairs, 3);
        assert(sets_key(all, "identity"@, ipairs[0].0, ipairs[0].1));
        assert(sets_key(all, "identity"@, ipairs[1].0, ipairs[1].1));
        assert(sets_key(all, "identity"@, ipairs[2].0, ipairs[2].1));
        assert(sets_key(all, "identity"@, ipairs[3].0, ipairs[3].1));
    }
}

proof fn lemma_leaves_concat(a: Seq<JsonEditView>, b: Seq<JsonEditView>, section: Seq<char>)
    requires
        leaves_section(a, section),
        leaves_section(b, section),
    ensures
        leaves_section(a + b, section),
{
    assert forall|i: int| 0 <= i < (a + b).len() implies !(#[trigger] (a + b)[i] matches JsonEditView::SetInSection { section: s, .. } && s == section) by {
        if i < a.len() {
            assert((a + b)[i] == a[i]);
        } else {
            assert((a + b)[i] == b[i - a.len()]);
        }
    }
}


proof fn lemma_card_keys(a: Seq<JsonEditView>, part: Seq<JsonEditView>, c: Seq<JsonEditView>, pairs: Seq<(Seq<char>, Option<Seq<char>>)>, j: int)
    requires
        0 <= j < pairs.len(),
        part.len() > 0,
        part[0] matches JsonEditView::Section { section } && part == seq![JsonEditView::Section { section }] + section_sets(section, pairs)
            && leaves_section(a, section) && leaves_section(c, section),
        forall|x: int, y: int| 0 <= x < y < pairs.len() ==> pairs[x].0 != pairs[y].0,
    ensures
        part[0] matches JsonEditView::Section { section } && sets_key(a + part + c, section, pairs[j].0, pairs[j].1),
{
    if let JsonEditView::Section { section } = part[0] {
        lemma_part_sets(section, pairs, j);
        lemma_sets_key_in_middle(a, part, c, section, pairs[j].0, pairs[j].1);
    }
}

} // verus!
