//! The user's actions on the vault, generator and account tabs, and the
//! login and unlock steps. Each returns the [`Effect`] the driver performs.
use vstd::prelude::*;
use crate::app::{
    blank_login, is_blank_login, warn_spec, App, Screen,
};
use crate::effects::{autoclear_note, BwJob, CopyJob, Effect};
use crate::model::{clone_opt, opt_view, StartOutcome};
use crate::text::{concat, concat3, to_string, trim, trim_spec};

verus! {

/// `"prefix'name'suffix"`.
pub open spec fn quoted(prefix: Seq<char>, name: Seq<char>, suffix: Seq<char>) -> Seq<char> {
    prefix + "'"@ + name + "'"@ + suffix
}

pub fn quote(prefix: &str, name: &str, suffix: &str) -> (r: String)
    ensures
        r@ == quoted(prefix@, name@, suffix@),
{
    let a = concat(prefix, "'");
    let b = concat3(a.as_str(), name, "'");
    concat(b.as_str(), suffix)
}

impl App {
    /// The state with the busy flag set and a busy label.
    pub open spec fn busy_with(self, label: Seq<char>, after: App) -> bool {
        &&& after.busy
        &&& after.busy_label matches Some(l) && l@ == label
        &&& after == (App { busy: true, busy_label: after.busy_label, ..self })
    }

    /// Copies the selected login's password: fetches it in the background.
    /// What `copy_password` does, from `self` to `after`.
    pub open spec fn copy_password_post(self, after: App, r: Effect) -> bool {
        &&& (({
                let sel = self.selected_spec();
                if self.busy || sel is None {
                    after == self && r is Nothing
                } else if sel->0.item_type != 1 {
                    &&& after.shows("⚠️ This item has no password"@)
                    &&& after == self.with_status_of(after)
                    &&& r is Nothing
                } else if self.session is None {
                    after == self && r is Nothing
                } else {
                    &&& self.busy_with(quoted("Copying password for "@, sel->0.name@, "…"@), after)
                    &&& r matches Effect::Run(BwJob::CopyPassword { id, item_name, session })
                        && id@ == sel->0.id@ && item_name@ == sel->0.name@ && session@ == self.session->0@
                }
            }))
    }

    pub fn copy_password(&mut self) -> (r: Effect)
        requires
            old(self).wf(),
        ensures
            old(self).copy_password_post(*final(self), r),
    {
        if self.busy {
            return Effect::Nothing;
        }
        let (id, name, item_type) = match self.selected_item() {
            Some(item) => (item.id.clone(), item.name.clone(), item.item_type),
            None => return Effect::Nothing,
        };
        if item_type != 1 {
            self.set_status(to_string("⚠️ This item has no password"));
            return Effect::Nothing;
        }
        let session = match &self.session {
            Some(s) => s.clone(),
            None => return Effect::Nothing,
        };
        self.busy = true;
        self.busy_label = Some(quote("Copying password for ", name.as_str(), "…"));
        Effect::Run(BwJob::CopyPassword { id, item_name: name, session })
    }

    /// Copies the selected item's username.
    /// What `copy_username` does, from `self` to `after`.
    pub open spec fn copy_username_post(self, after: App, r: Effect) -> bool {
        &&& (({
                let sel = self.selected_spec();
                if sel is None {
                    after == self && r is Nothing
                } else if sel->0.username_spec() is None {
                    &&& after.shows("⚠️ This item has no username"@)
                    &&& after == self.with_status_of(after)
                    &&& r is Nothing
                } else {
                    &&& after == self
                    &&& r matches Effect::Copy(job)
                        && job.text@ == sel->0.username_spec()->0
                        && job.success@ == quoted("✅ Username for "@, sel->0.name@, " copied"@)
                        && job.notify is None && job.autoclear is None
                }
            }))
    }

    pub fn copy_username(&mut self) -> (r: Effect)
        requires
            old(self).wf(),
        ensures
            old(self).copy_username_post(*final(self), r),
    {
        let (username, name) = match self.selected_item() {
            Some(item) => match item.username() {
                Some(u) => (to_string(u), item.name.clone()),
                None => {
                    self.set_status(to_string("⚠️ This item has no username"));
                    return Effect::Nothing;
                },
            },
            None => return Effect::Nothing,
        };
        let success = quote("✅ Username for ", name.as_str(), " copied");
        Effect::Copy(CopyJob { text: username, success, notify: None, autoclear: None })
    }

    /// What `copy_primary_secret` does, from `self` to `after`.
    pub open spec fn copy_primary_secret_post(self, after: App, r: Effect) -> bool {
        let sel = self.selected_spec();
        if sel is None {
            after == self && r is Nothing
        } else if sel->0.item_type == 1 {
            self.copy_password_post(after, r)
        } else if sel->0.item_type == 2 {
            self.copies_notes(after, r)
        } else if sel->0.item_type == 3 {
            self.copies_card_number(after, r)
        } else {
            &&& after.shows("⚠️ Nothing to copy for this item"@)
            &&& after == self.with_status_of(after)
            &&& r is Nothing
        }
    }

    /// Copies the "main" secret of the selected item: a login's password,
    /// a note's text or a card's number.
    pub fn copy_primary_secret(&mut self) -> (r: Effect)
        requires
            old(self).wf(),
        ensures
            old(self).copy_primary_secret_post(*final(self), r),
    {
        let item_type = match self.selected_item() {
            Some(item) => item.item_type,
            None => return Effect::Nothing,
        };
        if item_type == 1 {
            self.copy_password()
        } else if item_type == 2 {
            self.copy_notes()
        } else if item_type == 3 {
            self.copy_card_number()
        } else {
            self.set_status(to_string("⚠️ Nothing to copy for this item"));
            Effect::Nothing
        }
    }

    /// What copying the selected card's number does, from `self` to `after`.
    pub open spec fn copies_card_number(self, after: App, r: Effect) -> bool {
        let sel = self.selected_spec();
        if sel is None {
            after == self && r is Nothing
        } else if sel->0.card_number_spec() is None {
            &&& after.shows("⚠️ This card has no number on file"@)
            &&& after == self.with_status_of(after)
            &&& r is Nothing
        } else {
            &&& after == self
            &&& r matches Effect::Copy(job)
                && job.text@ == sel->0.card_number_spec()->0
                && job.success@ == quoted("✅ Card number for "@, sel->0.name@, " copied"@) + self.note_spec()
                && job.notify is None
                && job.autoclear is Some && job.autoclear->0@ == "card number"@
        }
    }

    /// Copies the selected card's number; the clipboard is cleared later.
    pub fn copy_card_number(&mut self) -> (r: Effect)
        requires
            old(self).wf(),
        ensures
            old(self).copies_card_number(*final(self), r),
    {
        let (number, name) = match self.selected_item() {
            Some(item) => match &item.card {
                Some(c) => match &c.number {
                    Some(n) => (n.clone(), item.name.clone()),
                    None => {
                        self.set_status(to_string("⚠️ This card has no number on file"));
                        return Effect::Nothing;
                    },
                },
                None => {
                    self.set_status(to_string("⚠️ This card has no number on file"));
                    return Effect::Nothing;
                },
            },
            None => return Effect::Nothing,
        };
        let note = autoclear_note(self.autoclear_supported, self.config.clipboard_clear_secs);
        let head = quote("✅ Card number for ", name.as_str(), " copied");
        let success = concat(head.as_str(), note.as_str());
        Effect::Copy(CopyJob { text: number, success, notify: None, autoclear: Some(to_string("card number")) })
    }

    /// What copying the selected item's notes does, from `self` to `after`.
    pub open spec fn copies_notes(self, after: App, r: Effect) -> bool {
        let sel = self.selected_spec();
        if sel is None {
            after == self && r is Nothing
        } else if sel->0.notes_spec() is None {
            &&& after.shows("⚠️ This item has no notes"@)
            &&& after == self.with_status_of(after)
            &&& r is Nothing
        } else {
            &&& after == self
            &&& r matches Effect::Copy(job)
                && job.text@ == sel->0.notes_spec()->0
                && job.success@ == quoted("✅ Notes for "@, sel->0.name@, " copied"@) + self.note_spec()
                && job.notify is None
                && job.autoclear is Some && job.autoclear->0@ == "notes"@
        }
    }

    /// Copies the selected item's notes, when it has any.
    pub fn copy_notes(&mut self) -> (r: Effect)
        requires
            old(self).wf(),
        ensures
            old(self).copies_notes(*final(self), r),
    {
        let (notes, name) = match self.selected_item() {
            Some(item) => match &item.notes {
                Some(n) => if n.unicode_len() > 0 {
                    (n.clone(), item.name.clone())
                } else {
                    self.set_status(to_string("⚠️ This item has no notes"));
                    return Effect::Nothing;
                },
                None => {
                    self.set_status(to_string("⚠️ This item has no notes"));
                    return Effect::Nothing;
                },
            },
            None => return Effect::Nothing,
        };
        let note = autoclear_note(self.autoclear_supported, self.config.clipboard_clear_secs);
        let head = quote("✅ Notes for ", name.as_str(), " copied");
        let success = concat(head.as_str(), note.as_str());
        Effect::Copy(CopyJob { text: notes, success, notify: None, autoclear: Some(to_string("notes")) })
    }

    /// Copies the selected login's TOTP code: fetches it in the background.
    /// What `copy_totp` does, from `self` to `after`.
    pub open spec fn copy_totp_post(self, after: App, r: Effect) -> bool {
        &&& (({
                let sel = self.selected_spec();
                if self.busy || self.session is None || sel is None {
                    after == self && r is Nothing
                } else if !sel->0.has_totp_spec() {
                    &&& after.shows("⚠️ This item has no TOTP"@)
                    &&& after == self.with_status_of(after)
                    &&& r is Nothing
                } else {
                    &&& self.busy_with(quoted("Fetching TOTP for "@, sel->0.name@, "…"@), after)
                    &&& r matches Effect::Run(BwJob::CopyTotp { id, item_name, session })
                        && id@ == sel->0.id@ && item_name@ == sel->0.name@ && session@ == self.session->0@
                }
            }))
    }

    pub fn copy_totp(&mut self) -> (r: Effect)
        requires
            old(self).wf(),
        ensures
            old(self).copy_totp_post(*final(self), r),
    {
        if self.busy {
            return Effect::Nothing;
        }
        let session = match &self.session {
            Some(s) => s.clone(),
            None => return Effect::Nothing,
        };
        let (id, name, has_totp) = match self.selected_item() {
            Some(item) => (item.id.clone(), item.name.clone(), item.has_totp()),
            None => return Effect::Nothing,
        };
        if !has_totp {
            self.set_status(to_string("⚠️ This item has no TOTP"));
            return Effect::Nothing;
        }
        self.busy = true;
        self.busy_label = Some(quote("Fetching TOTP for ", name.as_str(), "…"));
        Effect::Run(BwJob::CopyTotp { id, item_name: name, session })
    }

    /// Whether the secret of the item with this id is shown.
    pub open spec fn reveals(self, id: Seq<char>) -> bool {
        self.reveal matches Some(p) && p.0@ == id
    }

    /// Shows or hides the selected item's secret: a login's password is
    /// fetched in the background; a card's number and code are on hand.
    /// What `toggle_reveal` does, from `self` to `after`.
    pub open spec fn toggle_reveal_post(self, after: App, r: Effect) -> bool {
        &&& (({
                let sel = self.selected_spec();
                if sel is None {
                    after == self && r is Nothing
                } else if self.reveals(sel->0.id@) {
                    after == (App { reveal: None, reveal_cvv: None, ..self }) && r is Nothing
                } else if sel->0.item_type == 1 {
                    if self.busy || self.session is None {
                        after == self && r is Nothing
                    } else {
                        &&& self.busy_with("Revealing password…"@, after)
                        &&& r matches Effect::Run(BwJob::RevealPassword { id, session })
                            && id@ == sel->0.id@ && session@ == self.session->0@
                    }
                } else if sel->0.item_type == 3 {
                    if sel->0.card_number_spec() is None {
                        &&& after.shows("⚠️ This card has no number on file"@)
                        &&& after == self.with_status_of(after)
                        &&& r is Nothing
                    } else {
                        &&& after.reveal matches Some(p)
                            && p.0@ == sel->0.id@ && p.1@ == sel->0.card_number_spec()->0
                        &&& opt_view(after.reveal_cvv) == sel->0.card_code_spec()
                        &&& after == (App { reveal: after.reveal, reveal_cvv: after.reveal_cvv, ..self })
                        &&& r is Nothing
                    }
                } else {
                    &&& after.shows("⚠️ Nothing to reveal for this item"@)
                    &&& after == self.with_status_of(after)
                    &&& r is Nothing
                }
            }))
    }

    pub fn toggle_reveal(&mut self) -> (r: Effect)
        requires
            old(self).wf(),
        ensures
            old(self).toggle_reveal_post(*final(self), r),
    {
        let (id, item_type, number, code) = match self.selected_item() {
            Some(item) => {
                let (number, code) = match &item.card {
                    Some(c) => (clone_opt(&c.number), clone_opt(&c.code)),
                    None => (None, None),
                };
                (item.id.clone(), item.item_type, number, code)
            },
            None => return Effect::Nothing,
        };
        let shown = match &self.reveal {
            Some(p) => p.0 == id,
            None => false,
        };
        if shown {
            self.reveal = None;
            self.reveal_cvv = None;
            return Effect::Nothing;
        }
        if item_type == 1 {
            if self.busy {
                return Effect::Nothing;
            }
            let session = match &self.session {
                Some(s) => s.clone(),
                None => return Effect::Nothing,
            };
            self.busy = true;
            self.busy_label = Some(to_string("Revealing password…"));
            Effect::Run(BwJob::RevealPassword { id, session })
        } else if item_type == 3 {
            match number {
                Some(n) => {
                    self.reveal_cvv = code;
                    self.reveal = Some((id, n));
                    Effect::Nothing
                },
                None => {
                    self.set_status(to_string("⚠️ This card has no number on file"));
                    Effect::Nothing
                },
            }
        } else {
            self.set_status(to_string("⚠️ Nothing to reveal for this item"));
            Effect::Nothing
        }
    }

    /// Runs `bw generate` with the generator's options.
    /// What `generate_password` does, from `self` to `after`.
    pub open spec fn generate_password_post(self, after: App, r: Effect) -> bool {
        &&& (self.busy ==> after == self && r is Nothing)
        &&& (!self.busy ==> self.busy_with("Generating…"@, after)
                && (r matches Effect::Run(BwJob::Generate { opts }) && opts == self.generator.opts))
    }

    pub fn generate_password(&mut self) -> (r: Effect)
        ensures
            old(self).generate_password_post(*final(self), r),
    {
        if self.busy {
            return Effect::Nothing;
        }
        self.busy = true;
        self.busy_label = Some(to_string("Generating…"));
        Effect::Run(BwJob::Generate { opts: self.generator.opts })
    }

    /// Copies the last generated password.
    /// What `copy_generated` does, from `self` to `after`.
    pub open spec fn copy_generated_post(self, after: App, r: Effect) -> bool {
        &&& (after == self)
        &&& (self.generator.result is None ==> r is Nothing)
        &&& (self.generator.result matches Some(pw) ==> (r matches Effect::Copy(job)
                && job.text@ == pw@
                && job.success@ == "✅ Generated password copied"@ + self.note_spec()
                && job.notify is None
                && job.autoclear is Some && job.autoclear->0@ == "generated"@))
    }

    pub fn copy_generated(&mut self) -> (r: Effect)
        ensures
            old(self).copy_generated_post(*final(self), r),
    {
        let pw = match &self.generator.result {
            Some(p) => p.clone(),
            None => return Effect::Nothing,
        };
        let note = autoclear_note(self.autoclear_supported, self.config.clipboard_clear_secs);
        let success = concat("✅ Generated password copied", note.as_str());
        Effect::Copy(CopyJob { text: pw, success, notify: None, autoclear: Some(to_string("generated")) })
    }

    /// Lists the items and folders again in the background.
    /// What `refresh_items` does, from `self` to `after`.
    pub open spec fn refresh_items_post(self, after: App, r: Effect) -> bool {
        &&& (self.busy || self.session is None ==> after == self && r is Nothing)
        &&& (!self.busy && self.session is Some ==> self.busy_with("Refreshing…"@, after)
                && (r matches Effect::Run(BwJob::RefreshItems { session }) && session@ == self.session->0@))
    }

    pub fn refresh_items(&mut self) -> (r: Effect)
        ensures
            old(self).refresh_items_post(*final(self), r),
    {
        if self.busy {
            return Effect::Nothing;
        }
        let session = match &self.session {
            Some(s) => s.clone(),
            None => return Effect::Nothing,
        };
        self.busy = true;
        self.busy_label = Some(to_string("Refreshing…"));
        Effect::Run(BwJob::RefreshItems { session })
    }

    /// Syncs with the server in the background.
    /// What `sync_now` does, from `self` to `after`.
    pub open spec fn sync_now_post(self, after: App, r: Effect) -> bool {
        &&& (self.busy || self.session is None ==> after == self && r is Nothing)
        &&& (!self.busy && self.session is Some ==> self.busy_with("Syncing…"@, after)
                && (r matches Effect::Run(BwJob::Sync { session }) && session@ == self.session->0@))
    }

    pub fn sync_now(&mut self) -> (r: Effect)
        ensures
            old(self).sync_now_post(*final(self), r),
    {
        if self.busy {
            return Effect::Nothing;
        }
        let session = match &self.session {
            Some(s) => s.clone(),
            None => return Effect::Nothing,
        };
        self.busy = true;
        self.busy_label = Some(to_string("Syncing…"));
        Effect::Run(BwJob::Sync { session })
    }

    /// Locks the vault now.
    pub fn lock_now(&mut self) -> (r: Effect)
        ensures
            final(self).locked_from(*old(self), "🔒 Vault locked, enter your master password:"@),
            final(self).wf(),
            r is ClearSession,
    {
        self.relock("🔒 Vault locked, enter your master password:")
    }

    /// Logs out in the background (after the confirmation).
    /// What `logout_now` does, from `self` to `after`.
    pub open spec fn logout_now_post(self, after: App, r: Effect) -> bool {
        &&& (self.busy ==> after == (App { confirm_logout: false, ..self }) && r is Nothing)
        &&& (!self.busy ==> (App { confirm_logout: false, ..self }).busy_with("Logging out…"@, after)
                && (r matches Effect::Run(BwJob::Logout)))
    }

    pub fn logout_now(&mut self) -> (r: Effect)
        ensures
            old(self).logout_now_post(*final(self), r),
    {
        self.confirm_logout = false;
        if self.busy {
            return Effect::Nothing;
        }
        self.busy = true;
        self.busy_label = Some(to_string("Logging out…"));
        Effect::Run(BwJob::Logout)
    }

    // ---- Server config, login and unlock ---------------------------------

    /// Confirms the server URL: an empty URL keeps the default server and
    /// goes to the login screen; any other is configured in the background.
    /// What `confirm_server_config` does, from `self` to `after`.
    pub open spec fn confirm_server_config_post(self, after: App, r: Effect) -> bool {
        &&& (match self.screen {
                Screen::ServerConfig { url, error, busy } => if busy {
                    after == self && r is Nothing
                } else if trim_spec(url@).len() == 0 {
                    is_blank_login(after.screen)
                        && after == (App { screen: after.screen, ..self })
                        && r is Nothing
                } else {
                    &&& after.screen matches Screen::ServerConfig { url: u2, error: e2, busy: b2 }
                        && u2 == url && e2 == error && b2
                    &&& after == (App { screen: after.screen, ..self })
                    &&& r matches Effect::Run(BwJob::ConfigServer { url: u }) && u@ == trim_spec(url@)
                },
                _ => after == self && r is Nothing,
            })
    }

    pub fn confirm_server_config(&mut self) -> (r: Effect)
        ensures
            old(self).confirm_server_config_post(*final(self), r),
    {
        let url = match &self.screen {
            Screen::ServerConfig { url, busy, .. } => {
                if *busy {
                    return Effect::Nothing;
                }
                trim(url.as_str())
            },
            _ => return Effect::Nothing,
        };
        if url.unicode_len() == 0 {
            self.screen = blank_login();
            return Effect::Nothing;
        }
        match &mut self.screen {
            Screen::ServerConfig { busy, .. } => *busy = true,
            _ => {},
        }
        Effect::Run(BwJob::ConfigServer { url })
    }

    /// Submits the login form (with the two-step code when it was asked for).
    /// What `try_login` does, from `self` to `after`.
    pub open spec fn try_login_post(self, after: App, r: Effect) -> bool {
        &&& (match self.screen {
                Screen::Login { email, password, focus, awaiting_2fa, code, method, error, busy } => if busy {
                    after == self && r is Nothing
                } else {
                    &&& after.screen == (Screen::Login { email, password, focus, awaiting_2fa, code, method, error, busy: true })
                    &&& after == (App { screen: after.screen, ..self })
                    &&& r matches Effect::Run(BwJob::Login { email: e, password: p, two_factor })
                        && e@ == email@ && p@ == password@
                        && (awaiting_2fa ==> (two_factor matches Some(tf) && tf.0@ == method.code_spec() && tf.1@ == code@))
                        && (!awaiting_2fa ==> two_factor is None)
                },
                _ => after == self && r is Nothing,
            })
    }

    pub fn try_login(&mut self) -> (r: Effect)
        ensures
            old(self).try_login_post(*final(self), r),
    {
        let (email, password, two_factor) = match &self.screen {
            Screen::Login { email, password, awaiting_2fa, code, method, busy, .. } => {
                if *busy {
                    return Effect::Nothing;
                }
                let tf = if *awaiting_2fa { Some((to_string(method.code()), code.clone())) } else { None };
                (email.clone(), password.clone(), tf)
            },
            _ => return Effect::Nothing,
        };
        match &mut self.screen {
            Screen::Login { busy, .. } => *busy = true,
            _ => {},
        }
        Effect::Run(BwJob::Login { email, password, two_factor })
    }

    /// Submits the master password.
    /// What `try_unlock` does, from `self` to `after`.
    pub open spec fn try_unlock_post(self, after: App, r: Effect) -> bool {
        &&& (match self.screen {
                Screen::Unlock { email, password, error, busy, relock_message } => if busy || password@.len() == 0 {
                    after == self && r is Nothing
                } else {
                    &&& after.screen == (Screen::Unlock { email, password, error, busy: true, relock_message })
                    &&& after == (App { screen: after.screen, ..self })
                    &&& r matches Effect::Run(BwJob::Unlock { password: p }) && p@ == password@
                },
                _ => after == self && r is Nothing,
            })
    }

    pub fn try_unlock(&mut self) -> (r: Effect)
        ensures
            old(self).try_unlock_post(*final(self), r),
    {
        let password = match &self.screen {
            Screen::Unlock { password, busy, .. } => {
                if *busy || password.unicode_len() == 0 {
                    return Effect::Nothing;
                }
                password.clone()
            },
            _ => return Effect::Nothing,
        };
        match &mut self.screen {
            Screen::Unlock { busy, .. } => *busy = true,
            _ => {},
        }
        Effect::Run(BwJob::Unlock { password })
    }

    /// Shows the screen the start decision chose.
    /// What `apply_start_outcome` does, from `self` to `after`.
    pub open spec fn apply_start_outcome_post(self, after: App, outcome: StartOutcome) -> bool {
        &&& (after.wf())
        &&& (match outcome {
                StartOutcome::Vault(load) =>
                    self.enter_vault_post(after, load.key, load.ts, load.items, load.folders),
                StartOutcome::NeedsServerConfig(status) => {
                    &&& after.screen matches Screen::ServerConfig { url, error, busy }
                        && url@ == (match status.server_url { Some(u) => u@, None => Seq::empty() })
                        && error is None && !busy
                    &&& after.session is None
                    &&& after.items@.len() == 0 && after.filtered@.len() == 0 && after.folders@.len() == 0
                    &&& after.server_status == Some(status)
                    &&& after == (App {
                        screen: after.screen,
                        session: None,
                        items: after.items,
                        filtered: after.filtered,
                        folders: after.folders,
                        server_status: Some(status),
                        ..self
                    })
                },
                StartOutcome::NeedsUnlock(status) => {
                    &&& after.screen matches Screen::Unlock { email, password, error, busy, relock_message }
                        && opt_view(email) == opt_view(status.user_email)
                        && password@.len() == 0 && error is None && !busy && relock_message is None
                    &&& after.session is None
                    &&& after.items@.len() == 0 && after.filtered@.len() == 0 && after.folders@.len() == 0
                    &&& after.server_status == Some(status)
                    &&& after == (App {
                        screen: after.screen,
                        session: None,
                        items: after.items,
                        filtered: after.filtered,
                        folders: after.folders,
                        server_status: Some(status),
                        ..self
                    })
                },
                StartOutcome::Error(e) => after.shows(warn_spec(e@))
                    && after == self.with_status_of(after),
            })
    }

    pub fn apply_start_outcome(&mut self, outcome: StartOutcome)
        requires
            old(self).wf(),
        ensures
            old(self).apply_start_outcome_post(*final(self), outcome),
            final(self).wf(),
    {
        match outcome {
            StartOutcome::Vault(load) => {
                self.enter_vault(load.key, load.ts, load.items, load.folders);
            },
            StartOutcome::NeedsServerConfig(status) => {
                self.session = None;
                self.items = Vec::new();
                self.filtered = Vec::new();
                self.folders = Vec::new();
                let url = match &status.server_url {
                    Some(u) => u.clone(),
                    None => String::new(),
                };
                self.screen = Screen::ServerConfig { url, error: None, busy: false };
                self.server_status = Some(status);
            },
            StartOutcome::NeedsUnlock(status) => {
                self.session = None;
                self.items = Vec::new();
                self.filtered = Vec::new();
                self.folders = Vec::new();
                let email = clone_opt(&status.user_email);
                self.screen = Screen::Unlock { email, password: String::new(), error: None, busy: false, relock_message: None };
                self.server_status = Some(status);
            },
            StartOutcome::Error(e) => {
                let msg = concat("⚠️ ", e.as_str());
                self.set_status(msg);
            },
        }
    }
}

} // verus!
