//! How the state follows the outcome of a background `bw` job.
use vstd::prelude::*;
use crate::app::{clamp_selection, blank_login, is_blank_login, warn_spec, App, LoginField, Screen, TwoFactorMethod};
use crate::actions::{quote, quoted};
use crate::effects::{autoclear_note, BwEvent, CopyJob, Effect};
use crate::model::{Item, ItemsLoad, LoginFlowResult, StartOutcome, SyncLoad};
use crate::text::{concat, concat3, str_eq, to_string};

verus! {

/// `k` is the first position in `filtered` of an item with this id.
pub open spec fn first_position_of(filtered: Seq<usize>, items: Seq<Item>, id: Seq<char>, k: int) -> bool {
    &&& 0 <= k < filtered.len()
    &&& items[filtered[k] as int].id@ == id
    &&& forall|j: int| 0 <= j < k ==> items[#[trigger] filtered[j] as int].id@ != id
}

/// The items after an edit came back: the first item with the same id is
/// replaced, or the item is added when none has it.
pub open spec fn replaced_item(items: Seq<Item>, item: Item, after: Seq<Item>) -> bool {
    if exists|k: int| 0 <= k < items.len() && #[trigger] items[k].id@ == item.id@ {
        exists|k: int| 0 <= k < items.len() && #[trigger] items[k].id@ == item.id@
            && (forall|j: int| 0 <= j < k ==> items[j].id@ != item.id@)
            && after == items.update(k, item)
    } else {
        after == items.push(item)
    }
}

impl App {
    /// The state after a job ended: not busy, no busy label.
    pub open spec fn idle(self) -> App {
        App { busy: false, busy_label: None, ..self }
    }

    /// What a reported clipboard-bound secret does: an empty one shows
    /// `empty_msg`, an error shows the error, else it is copied.
    pub open spec fn secret_copy_post(
        self,
        after: App,
        r: Effect,
        result: Result<String, String>,
        empty_msg: Seq<char>,
        success: Seq<char>,
        notify: Option<Seq<char>>,
        label: Seq<char>,
    ) -> bool {
        let s = self.idle();
        match result {
            Ok(secret) => if secret@.len() > 0 {
                &&& after == s
                &&& r matches Effect::Copy(job)
                    && job.text@ == secret@ && job.success@ == success
                    && (match notify { Some(n) => (job.notify is Some && job.notify->0@ == n), None => job.notify is None })
                    && (job.autoclear is Some && job.autoclear->0@ == label)
            } else {
                after.shows(empty_msg) && after == s.with_status_of(after) && r is Nothing
            },
            Err(e) => after.shows(warn_spec(e@)) && after == s.with_status_of(after) && r is Nothing,
        }
    }

    /// After a list was reloaded: the items and folders are replaced, the
    /// list is rebuilt and `msg` is shown.
    pub open spec fn reloaded(self, after: App, mid: App, msg: Seq<char>) -> bool {
        &&& mid.refilter_post(App { status: mid.status, ..after })
        &&& after.shows(msg)
    }

    /// After an item came back from a create or an edit: the list is
    /// rebuilt around `items`, the item is selected when it is listed, the
    /// form closes and `msg` is shown.
    pub open spec fn item_saved(self, after: App, items: Seq<Item>, id: Seq<char>, msg: Seq<char>) -> bool {
        let mid = App { items: after.items, ..self.idle() };
        &&& after.items@ == items
        &&& after.wf()
        &&& after.item_form is None
        &&& after.shows(msg)
        &&& (exists|k: int| first_position_of(after.filtered@, items, id, k))
            ==> first_position_of(after.filtered@, items, id, after.selected as int)
        &&& mid.refilter_post(App { selected: clamp_selection(mid.selected, after.filtered@.len()), item_form: mid.item_form, status: mid.status, ..after })
    }

    /// Selects the first listed item with this id, if any.
    fn select_item_with_id(&mut self, id: &String)
        requires
            old(self).wf(),
        ensures
            final(self).wf(),
            (exists|k: int| first_position_of(old(self).filtered@, old(self).items@, id@, k)) ==>
                first_position_of(old(self).filtered@, old(self).items@, id@, final(self).selected as int),
            *final(self) == (App { selected: final(self).selected, ..*old(self) }),
    {
        let mut k: usize = 0;
        while k < self.filtered.len()
            invariant
                self.wf(),
                *self == *old(self),
                k <= self.filtered@.len(),
                forall|j: int| 0 <= j < k ==> self.items@[#[trigger] self.filtered@[j] as int].id@ != id@,
            decreases self.filtered@.len() - k,
        {
            let i = self.filtered[k];
            if str_eq(self.items[i].id.as_str(), id.as_str()) {
                self.selected = k;
                return;
            }
            k = k + 1;
        }
        proof {
            assert forall|k2: int| !first_position_of(self.filtered@, self.items@, id@, k2) by {
                if 0 <= k2 < self.filtered@.len() {
                    assert(self.items@[self.filtered@[k2] as int].id@ != id@);
                }
            }
        }
    }

    /// Puts an edited item in place of the item with its id (or adds it).
    fn replace_item(&mut self, item: Item)
        ensures
            replaced_item(old(self).items@, item, final(self).items@),
            *final(self) == (App { items: final(self).items, ..*old(self) }),
    {
        let mut k: usize = 0;
        while k < self.items.len()
            invariant
                k <= self.items@.len(),
                self.items@ == old(self).items@,
                *self == *old(self),
                forall|j: int| 0 <= j < k ==> self.items@[j].id@ != item.id@,
            decreases self.items@.len() - k,
        {
            if str_eq(self.items[k].id.as_str(), item.id.as_str()) {
                let ghost before = self.items@;
                self.items.set(k, item);
                assert(self.items@ == before.update(k as int, item));
                return;
            }
            k = k + 1;
        }
        self.items.push(item);
    }

    /// What a reported event does.
    pub open spec fn bw_event_post(self, after: App, r: Effect, event: BwEvent) -> bool {
        match event {
            BwEvent::Started(outcome) => r is Nothing && self.apply_start_outcome_post(after, outcome),
            BwEvent::ServerConfigured { url, result } => r is Nothing && match result {
                Ok(()) => is_blank_login(after.screen) && after == (App { screen: after.screen, ..self }),
                Err(e) => {
                    &&& after.screen matches Screen::ServerConfig { url: u, error, busy }
                        && u == url && (error is Some && error->0@ == e@) && !busy
                    &&& after == (App { screen: after.screen, ..self })
                },
            },
            BwEvent::LoggedIn(result) => r is Nothing && if !(self.screen is Login) {
                after == self
            } else {
                match result {
                    Ok(LoginFlowResult::LoggedIn(load)) =>
                        self.enter_vault_post(App { status: self.status, ..after }, load.key, load.ts, load.items, load.folders)
                            && after.shows("🔓 Logged in"@),
                    Ok(LoginFlowResult::TwoFactorRequired) => match self.screen {
                        Screen::Login { email, password, focus, awaiting_2fa, code, method, error, busy } => {
                            &&& after.screen matches Screen::Login { email: e2, password: p2, focus: f2, awaiting_2fa: a2, code: c2, method: m2, error: er2, busy: b2 }
                                && e2 == email && p2 == password && f2 == LoginField::Password && a2 && c2@.len() == 0
                                && m2 == method && (er2 is Some && er2->0@ == "Enter the verification code"@) && !b2
                            &&& after == (App { screen: after.screen, ..self })
                        },
                        _ => true,
                    },
                    Err(e) => match self.screen {
                        Screen::Login { email, password, focus, awaiting_2fa, code, method, error, busy } => {
                            &&& after.screen matches Screen::Login { email: e2, password: p2, focus: f2, awaiting_2fa: a2, code: c2, method: m2, error: er2, busy: b2 }
                                && e2 == email && p2@.len() == 0 && f2 == LoginField::Password && !a2 && c2@.len() == 0
                                && m2 == TwoFactorMethod::Authenticator && (er2 is Some && er2->0@ == e@) && !b2
                            &&& after == (App { screen: after.screen, ..self })
                        },
                        _ => true,
                    },
                }
            },
            BwEvent::Unlocked(result) => r is Nothing && if !(self.screen is Unlock) {
                after == self
            } else {
                match result {
                    Ok(load) =>
                        self.enter_vault_post(App { status: self.status, ..after }, load.key, load.ts, load.items, load.folders)
                            && after.shows("🔓 Vault unlocked"@),
                    Err(e) => match self.screen {
                        Screen::Unlock { email, password, error, busy, relock_message } => {
                            &&& after.screen matches Screen::Unlock { email: e2, password: p2, error: er2, busy: b2, relock_message: m2 }
                                && e2 == email && p2@.len() == 0 && (er2 is Some && er2->0@ == e@) && !b2 && m2 == relock_message
                            &&& after == (App { screen: after.screen, ..self })
                        },
                        _ => true,
                    },
                }
            },
            BwEvent::ItemsRefreshed(result) => r is Nothing && match result {
                Ok(load) => self.reloaded(after, App { items: load.items, folders: load.folders, ..self.idle() }, "🔄 List refreshed"@),
                Err(e) => after.shows("⚠️ Could not refresh: "@ + e@) && after == self.idle().with_status_of(after),
            },
            BwEvent::PasswordCopied { item_name, result } => self.secret_copy_post(
                after, r, result,
                "⚠️ This item has no password"@,
                quoted("✅ Password for "@, item_name@, " copied"@) + self.note_spec(),
                Some("✅ Password copied: "@ + item_name@),
                "password"@,
            ),
            BwEvent::TotpCopied { item_name, result } => self.secret_copy_post(
                after, r, result,
                "⚠️ Could not generate the TOTP code"@,
                quoted("✅ TOTP code for "@, item_name@, " copied"@) + self.note_spec(),
                None,
                "TOTP"@,
            ),
            BwEvent::Revealed { item_id, result } => r is Nothing && match result {
                Ok(pw) => after == (App { reveal: Some((item_id, pw)), ..self.idle() }),
                Err(e) => after.shows(warn_spec(e@)) && after == self.idle().with_status_of(after),
            },
            BwEvent::Generated(result) => r is Nothing && match result {
                Ok(pw) => after.generator.result == Some(pw) && after.generator.error is None
                    && after == (App { generator: after.generator, ..self.idle() })
                    && after.generator.opts == self.generator.opts,
                Err(e) => after.generator.error matches Some(m) && m@ == e@
                    && after.generator.result == self.generator.result
                    && after.generator.opts == self.generator.opts
                    && after == (App { generator: after.generator, ..self.idle() }),
            },
            BwEvent::Synced(result) => r is Nothing && match result {
                Ok(load) => self.reloaded(after, App {
                    items: load.items,
                    folders: load.folders,
                    server_status: if load.status is Some { load.status } else { self.server_status },
                    ..self.idle()
                }, "🔄 Synced with server"@),
                Err(e) => after.shows(warn_spec(e@)) && after == self.idle().with_status_of(after),
            },
            BwEvent::LoggedOut(result) => r is Nothing && match result {
                Ok(outcome) => self.idle().apply_start_outcome_post(after, outcome),
                Err(e) => after.shows(warn_spec(e@)) && after == self.idle().with_status_of(after),
            },
            BwEvent::ItemCreated(result) => r is Nothing && match result {
                Ok(item) => self.item_saved(after, self.items@.push(item), item.id@, "✅ Item created"@),
                Err(e) => match self.item_form {
                    Some(f) => after.item_form matches Some(g) && (g.error is Some && g.error->0@ == e@)
                        && g == (crate::form::ItemForm { error: g.error, ..f })
                        && after == (App { item_form: after.item_form, ..self.idle() }),
                    None => after == self.idle(),
                },
            },
            BwEvent::ItemEdited(result) => r is Nothing && match result {
                Ok(item) => exists|items: Seq<Item>| replaced_item(self.items@, item, items)
                    && #[trigger] self.item_saved(after, items, item.id@, "✅ Item saved"@),
                Err(e) => match self.item_form {
                    Some(f) => after.item_form matches Some(g) && (g.error is Some && g.error->0@ == e@)
                        && g == (crate::form::ItemForm { error: g.error, ..f })
                        && after == (App { item_form: after.item_form, ..self.idle() }),
                    None => after == self.idle(),
                },
            },
            BwEvent::ItemFormPasswordRevealed(result) => r is Nothing && match result {
                Ok(pw) => match self.item_form {
                    Some(f) => after == (App {
                        item_form: Some(crate::form::ItemForm { password: pw, password_revealed: true, ..f }),
                        ..self.idle()
                    }),
                    None => after == self.idle(),
                },
                Err(e) => after.shows(warn_spec(e@)) && after == self.idle().with_status_of(after),
            },
        }
    }

    /// Applies the outcome of a background job; a fetched secret comes back
    /// as an `Effect::Copy`.
    pub fn apply_bw_event(&mut self, event: BwEvent) -> (r: Effect)
        requires
            old(self).wf(),
        ensures
            final(self).wf(),
            old(self).bw_event_post(*final(self), r, event),
    {
        match event {
            BwEvent::Started(outcome) => self.on_started(outcome),
            BwEvent::ServerConfigured { url, result } => self.on_server_configured(url, result),
            BwEvent::LoggedIn(result) => {
                self.apply_logged_in(result);
                Effect::Nothing
            },
            BwEvent::Unlocked(result) => {
                self.apply_unlocked(result);
                Effect::Nothing
            },
            BwEvent::ItemsRefreshed(result) => self.on_items_refreshed(result),
            BwEvent::PasswordCopied { item_name, result } => self.on_password_copied(item_name, result),
            BwEvent::TotpCopied { item_name, result } => self.on_totp_copied(item_name, result),
            BwEvent::Revealed { item_id, result } => self.on_revealed(item_id, result),
            BwEvent::Generated(result) => self.on_generated(result),
            BwEvent::Synced(result) => self.on_synced(result),
            BwEvent::LoggedOut(result) => self.on_logged_out(result),
            BwEvent::ItemCreated(result) => self.on_item_created(result),
            BwEvent::ItemEdited(result) => self.on_item_edited(result),
            BwEvent::ItemFormPasswordRevealed(result) => self.on_item_form_password_revealed(result),
        }
    }

    fn on_started(&mut self, outcome: StartOutcome) -> (r: Effect)
        requires
            old(self).wf(),
        ensures
            final(self).wf(),
            old(self).bw_event_post(*final(self), r, BwEvent::Started(outcome)),
    {
        self.apply_start_outcome(outcome);
        Effect::Nothing
    }

    fn on_server_configured(&mut self, url: String, result: Result<(), String>) -> (r: Effect)
        requires
            old(self).wf(),
        ensures
            final(self).wf(),
            old(self).bw_event_post(*final(self), r, BwEvent::ServerConfigured { url, result }),
    {
        match result {
            Ok(()) => {
                self.screen = blank_login();
            },
            Err(e) => {
                self.screen = Screen::ServerConfig { url, error: Some(e), busy: false };
            },
        }
        Effect::Nothing
    }

    fn on_items_refreshed(&mut self, result: Result<ItemsLoad, String>) -> (r: Effect)
        requires
            old(self).wf(),
        ensures
            final(self).wf(),
            old(self).bw_event_post(*final(self), r, BwEvent::ItemsRefreshed(result)),
    {
        self.busy = false;
        self.busy_label = None;
        match result {
            Ok(load) => {
                self.items = load.items;
                self.folders = load.folders;
                self.refilter();
                self.set_status(to_string("🔄 List refreshed"));
            },
            Err(e) => {
                let msg = concat("⚠️ Could not refresh: ", e.as_str());
                self.set_status(msg);
            },
        }
        Effect::Nothing
    }

    fn on_password_copied(&mut self, item_name: String, result: Result<String, String>) -> (r: Effect)
        requires
            old(self).wf(),
        ensures
            final(self).wf(),
            old(self).bw_event_post(*final(self), r, BwEvent::PasswordCopied { item_name, result }),
    {
        self.busy = false;
        self.busy_label = None;
        match result {
            Ok(pw) => {
                if pw.unicode_len() > 0 {
                    let note = autoclear_note(self.autoclear_supported, self.config.clipboard_clear_secs);
                    let head = quote("✅ Password for ", item_name.as_str(), " copied");
                    let success = concat(head.as_str(), note.as_str());
                    let notify = concat("✅ Password copied: ", item_name.as_str());
                    Effect::Copy(CopyJob { text: pw, success, notify: Some(notify), autoclear: Some(to_string("password")) })
                } else {
                    self.set_status(to_string("⚠️ This item has no password"));
                    Effect::Nothing
                }
            },
            Err(e) => {
                self.set_status(concat("⚠️ ", e.as_str()));
                Effect::Nothing
            },
        }
    }

    fn on_totp_copied(&mut self, item_name: String, result: Result<String, String>) -> (r: Effect)
        requires
            old(self).wf(),
        ensures
            final(self).wf(),
            old(self).bw_event_post(*final(self), r, BwEvent::TotpCopied { item_name, result }),
    {
        self.busy = false;
        self.busy_label = None;
        match result {
            Ok(code) => {
                if code.unicode_len() > 0 {
                    let note = autoclear_note(self.autoclear_supported, self.config.clipboard_clear_secs);
                    let head = quote("✅ TOTP code for ", item_name.as_str(), " copied");
                    let success = concat(head.as_str(), note.as_str());
                    Effect::Copy(CopyJob { text: code, success, notify: None, autoclear: Some(to_string("TOTP")) })
                } else {
                    self.set_status(to_string("⚠️ Could not generate the TOTP code"));
                    Effect::Nothing
                }
            },
            Err(e) => {
                self.set_status(concat("⚠️ ", e.as_str()));
                Effect::Nothing
            },
        }
    }

    fn on_revealed(&mut self, item_id: String, result: Result<String, String>) -> (r: Effect)
        requires
            old(self).wf(),
        ensures
            final(self).wf(),
            old(self).bw_event_post(*final(self), r, BwEvent::Revealed { item_id, result }),
    {
        self.busy = false;
        self.busy_label = None;
        match result {
            Ok(pw) => self.reveal = Some((item_id, pw)),
            Err(e) => self.set_status(concat("⚠️ ", e.as_str())),
        }
        Effect::Nothing
    }

    fn on_generated(&mut self, result: Result<String, String>) -> (r: Effect)
        requires
            old(self).wf(),
        ensures
            final(self).wf(),
            old(self).bw_event_post(*final(self), r, BwEvent::Generated(result)),
    {
        self.busy = false;
        self.busy_label = None;
        match result {
            Ok(pw) => {
                self.generator.result = Some(pw);
                self.generator.error = None;
            },
            Err(e) => self.generator.error = Some(e),
        }
        Effect::Nothing
    }

    fn on_synced(&mut self, result: Result<SyncLoad, String>) -> (r: Effect)
        requires
            old(self).wf(),
        ensures
            final(self).wf(),
            old(self).bw_event_post(*final(self), r, BwEvent::Synced(result)),
    {
        self.busy = false;
        self.busy_label = None;
        match result {
            Ok(load) => {
                if load.status.is_some() {
                    self.server_status = load.status;
                }
                self.items = load.items;
                self.folders = load.folders;
                self.refilter();
                self.set_status(to_string("🔄 Synced with server"));
            },
            Err(e) => self.set_status(concat("⚠️ ", e.as_str())),
        }
        Effect::Nothing
    }

    fn on_logged_out(&mut self, result: Result<StartOutcome, String>) -> (r: Effect)
        requires
            old(self).wf(),
        ensures
            final(self).wf(),
            old(self).bw_event_post(*final(self), r, BwEvent::LoggedOut(result)),
    {
        self.busy = false;
        self.busy_label = None;
        match result {
            Ok(outcome) => self.apply_start_outcome(outcome),
            Err(e) => self.set_status(concat("⚠️ ", e.as_str())),
        }
        Effect::Nothing
    }

    fn on_item_created(&mut self, result: Result<Item, String>) -> (r: Effect)
        requires
            old(self).wf(),
        ensures
            final(self).wf(),
            old(self).bw_event_post(*final(self), r, BwEvent::ItemCreated(result)),
    {
        self.busy = false;
        self.busy_label = None;
        match result {
            Ok(item) => {
                let id = item.id.clone();
                self.items.push(item);
                self.finish_save(&id, "✅ Item created");
            },
            Err(e) => self.set_form_error(e),
        }
        Effect::Nothing
    }

    fn on_item_edited(&mut self, result: Result<Item, String>) -> (r: Effect)
        requires
            old(self).wf(),
        ensures
            final(self).wf(),
            old(self).bw_event_post(*final(self), r, BwEvent::ItemEdited(result)),
    {
        self.busy = false;
        self.busy_label = None;
        match result {
            Ok(item) => {
                let id = item.id.clone();
                let ghost edited = item;
                self.replace_item(item);
                let ghost replaced = self.items@;
                self.finish_save(&id, "✅ Item saved");
                proof {
                    assert(old(self).item_saved(*self, replaced, edited.id@, "✅ Item saved"@));
                }
            },
            Err(e) => self.set_form_error(e),
        }
        Effect::Nothing
    }

    fn on_item_form_password_revealed(&mut self, result: Result<String, String>) -> (r: Effect)
        requires
            old(self).wf(),
        ensures
            final(self).wf(),
            old(self).bw_event_post(*final(self), r, BwEvent::ItemFormPasswordRevealed(result)),
    {
        self.busy = false;
        self.busy_label = None;
        match result {
            Ok(pw) => {
                match &mut self.item_form {
                    Some(form) => {
                        form.password = pw;
                        form.password_revealed = true;
                    },
                    None => {},
                }
            },
            Err(e) => self.set_status(concat("⚠️ ", e.as_str())),
        }
        Effect::Nothing
    }

    /// Rebuilds the list after a save, selects the saved item, closes the
    /// form and shows `msg`.
    fn finish_save(&mut self, id: &String, msg: &str)
        ensures
            final(self).wf(),
            final(self).items == old(self).items,
            final(self).item_form is None,
            final(self).shows(msg@),
            (exists|k: int| first_position_of(final(self).filtered@, old(self).items@, id@, k))
                ==> first_position_of(final(self).filtered@, old(self).items@, id@, final(self).selected as int),
            old(self).refilter_post(App { selected: clamp_selection(old(self).selected, final(self).filtered@.len()), item_form: old(self).item_form, status: old(self).status, ..*final(self) }),
    {
        self.refilter();
        let ghost after_refilter = *self;
        self.select_item_with_id(id);
        self.item_form = None;
        self.set_status(to_string(msg));
        proof {
            assert(App { selected: after_refilter.selected, item_form: old(self).item_form, status: old(self).status, ..*self } == after_refilter);
        }
    }

    fn set_form_error(&mut self, e: String)
        ensures
            match old(self).item_form {
                Some(f) => final(self).item_form matches Some(g) && (g.error is Some && g.error->0@ == e@)
                    && g == (crate::form::ItemForm { error: g.error, ..f })
                    && *final(self) == (App { item_form: final(self).item_form, ..*old(self) }),
                None => *final(self) == *old(self),
            },
    {
        match &mut self.item_form {
            Some(form) => form.error = Some(e),
            None => {},
        }
    }

    fn apply_logged_in(&mut self, result: Result<LoginFlowResult, String>)
        requires
            old(self).wf(),
        ensures
            final(self).wf(),
            old(self).bw_event_post(*final(self), Effect::Nothing, BwEvent::LoggedIn(result)),
    {
        if !matches!(self.screen, Screen::Login { .. }) {
            return;
        }
        match result {
            Ok(LoginFlowResult::LoggedIn(load)) => {
                self.enter_vault(load.key, load.ts, load.items, load.folders);
                self.set_status(to_string("🔓 Logged in"));
            },
            Ok(LoginFlowResult::TwoFactorRequired) => {
                match &mut self.screen {
                    Screen::Login { focus, awaiting_2fa, code, error, busy, .. } => {
                        *focus = LoginField::Password;
                        *awaiting_2fa = true;
                        *code = String::new();
                        *error = Some(to_string("Enter the verification code"));
                        *busy = false;
                    },
                    _ => {},
                }
            },
            Err(e) => {
                match &mut self.screen {
                    Screen::Login { password, focus, awaiting_2fa, code, method, error, busy, .. } => {
                        *password = String::new();
                        *focus = LoginField::Password;
                        *awaiting_2fa = false;
                        *code = String::new();
                        *method = TwoFactorMethod::Authenticator;
                        *error = Some(e);
                        *busy = false;
                    },
                    _ => {},
                }
            },
        }
    }

    fn apply_unlocked(&mut self, result: Result<crate::model::VaultLoad, String>)
        requires
            old(self).wf(),
        ensures
            final(self).wf(),
            old(self).bw_event_post(*final(self), Effect::Nothing, BwEvent::Unlocked(result)),
    {
        if !matches!(self.screen, Screen::Unlock { .. }) {
            return;
        }
        match result {
            Ok(load) => {
                self.enter_vault(load.key, load.ts, load.items, load.folders);
                self.set_status(to_string("🔓 Vault unlocked"));
            },
            Err(e) => {
                match &mut self.screen {
                    Screen::Unlock { password, error, busy, .. } => {
                        *password = String::new();
                        *error = Some(e);
                        *busy = false;
                    },
                    _ => {},
                }
            },
        }
    }
}

} // verus!
