//! What each key does on each screen, tab and mode.
use vstd::prelude::*;
use crate::app::{App, LoginField, Screen, Tab, VaultMode};
use crate::effects::Effect;
use crate::form::ItemForm;
use crate::keys::{KeyCode, KeyEvent};
use crate::text::{pop_char, push_char};

verus! {

/// A text with its last character deleted (unchanged when empty).
pub open spec fn popped(t: Seq<char>) -> Seq<char> {
    if t.len() > 0 { t.drop_last() } else { t }
}

/// Whether a key is the given character without regard to Control.
pub open spec fn is_char(code: KeyCode, c: char) -> bool {
    code == KeyCode::Char(c)
}

impl App {
    /// The state that asks to quit.
    pub open spec fn quitting(self) -> App {
        App { should_quit: true, ..self }
    }

    // ---- server configuration screen -----------------------------------

    /// What a key does on the server configuration screen.
    pub open spec fn server_config_key_post(self, after: App, r: Effect, code: KeyCode) -> bool {
        match self.screen {
            Screen::ServerConfig { url, error, busy } => if busy {
                after == self && r is Nothing
            } else {
                match code {
                    KeyCode::Esc => after == self.quitting() && r is Nothing,
                    KeyCode::Enter => self.confirm_server_config_post(after, r),
                    KeyCode::Backspace => {
                        &&& after.screen matches Screen::ServerConfig { url: u2, error: e2, busy: b2 }
                            && u2@ == popped(url@) && e2 == error && b2 == busy
                        &&& after == (App { screen: after.screen, ..self })
                        &&& r is Nothing
                    },
                    KeyCode::Char(c) => {
                        &&& after.screen matches Screen::ServerConfig { url: u2, error: e2, busy: b2 }
                            && u2@ == url@.push(c) && e2 == error && b2 == busy
                        &&& after == (App { screen: after.screen, ..self })
                        &&& r is Nothing
                    },
                    _ => after == self && r is Nothing,
                }
            },
            _ => true,
        }
    }

    fn handle_server_config_key(&mut self, code: KeyCode) -> (r: Effect)
        requires
            old(self).screen is ServerConfig,
        ensures
            old(self).server_config_key_post(*final(self), r, code),
            old(self).wf() ==> final(self).wf(),
    {
        let busy = match &self.screen {
            Screen::ServerConfig { busy, .. } => *busy,
            _ => true,
        };
        if busy {
            return Effect::Nothing;
        }
        match code {
            KeyCode::Esc => {
                self.should_quit = true;
                Effect::Nothing
            },
            KeyCode::Enter => self.confirm_server_config(),
            KeyCode::Backspace => {
                match &mut self.screen {
                    Screen::ServerConfig { url, .. } => {
                        let _ = pop_char(url);
                    },
                    _ => {},
                }
                Effect::Nothing
            },
            KeyCode::Char(c) => {
                match &mut self.screen {
                    Screen::ServerConfig { url, .. } => push_char(url, c),
                    _ => {},
                }
                Effect::Nothing
            },
            _ => Effect::Nothing,
        }
    }

    // ---- login screen ----------------------------------------------------

    /// The login screen with its error cleared.
    pub open spec fn login_error_cleared(self) -> App {
        match self.screen {
            Screen::Login { email, password, focus, awaiting_2fa, code, method, error, busy } =>
                App { screen: Screen::Login { email, password, focus, awaiting_2fa, code, method, error: None, busy }, ..self },
            _ => self,
        }
    }

    /// What a key does on the login screen: with a two-step code pending it
    /// edits the code (Tab switches the method); otherwise it edits the
    /// focused field, Tab switches fields and Enter moves from the email to
    /// the password, then submits.
    pub open spec fn login_key_post(self, after: App, r: Effect, key_code: KeyCode) -> bool {
        match self.screen {
            Screen::Login { email, password, focus, awaiting_2fa, code, method, error, busy } => if busy {
                after == self && r is Nothing
            } else if awaiting_2fa {
                match key_code {
                    KeyCode::Esc => after == self.quitting() && r is Nothing,
                    KeyCode::Tab => after == (App {
                        screen: Screen::Login { email, password, focus, awaiting_2fa, code, method: method.toggled_spec(), error, busy },
                        ..self
                    }) && r is Nothing,
                    KeyCode::Enter => self.login_error_cleared().try_login_post(after, r),
                    KeyCode::Backspace => {
                        &&& after.screen matches Screen::Login { email: e2, password: p2, focus: f2, awaiting_2fa: a2, code: c2, method: m2, error: er2, busy: b2 }
                            && e2 == email && p2 == password && f2 == focus && a2 == awaiting_2fa && c2@ == popped(code@)
                            && m2 == method && er2 == error && b2 == busy
                        &&& after == (App { screen: after.screen, ..self })
                        &&& r is Nothing
                    },
                    KeyCode::Char(ch) => {
                        &&& after.screen matches Screen::Login { email: e2, password: p2, focus: f2, awaiting_2fa: a2, code: c2, method: m2, error: er2, busy: b2 }
                            && e2 == email && p2 == password && f2 == focus && a2 == awaiting_2fa && c2@ == code@.push(ch)
                            && m2 == method && er2 == error && b2 == busy
                        &&& after == (App { screen: after.screen, ..self })
                        &&& r is Nothing
                    },
                    _ => after == self && r is Nothing,
                }
            } else {
                match key_code {
                    KeyCode::Esc => after == self.quitting() && r is Nothing,
                    KeyCode::Tab => after == (App {
                        screen: Screen::Login {
                            email, password,
                            focus: if focus == LoginField::Email { LoginField::Password } else { LoginField::Email },
                            awaiting_2fa, code, method, error, busy,
                        },
                        ..self
                    }) && r is Nothing,
                    KeyCode::Enter => if focus == LoginField::Email {
                        after == (App {
                            screen: Screen::Login { email, password, focus: LoginField::Password, awaiting_2fa, code, method, error, busy },
                            ..self
                        }) && r is Nothing
                    } else {
                        self.login_error_cleared().try_login_post(after, r)
                    },
                    KeyCode::Backspace => {
                        &&& after.screen matches Screen::Login { email: e2, password: p2, focus: f2, awaiting_2fa: a2, code: c2, method: m2, error: er2, busy: b2 }
                            && (if focus == LoginField::Email { e2@ == popped(email@) && p2 == password } else { e2 == email && p2@ == popped(password@) })
                            && f2 == focus && a2 == awaiting_2fa && c2 == code && m2 == method && er2 == error && b2 == busy
                        &&& after == (App { screen: after.screen, ..self })
                        &&& r is Nothing
                    },
                    KeyCode::Char(ch) => {
                        &&& after.screen matches Screen::Login { email: e2, password: p2, focus: f2, awaiting_2fa: a2, code: c2, method: m2, error: er2, busy: b2 }
                            && (if focus == LoginField::Email { e2@ == email@.push(ch) && p2 == password } else { e2 == email && p2@ == password@.push(ch) })
                            && f2 == focus && a2 == awaiting_2fa && c2 == code && m2 == method && er2 == error && b2 == busy
                        &&& after == (App { screen: after.screen, ..self })
                        &&& r is Nothing
                    },
                    _ => after == self && r is Nothing,
                }
            },
            _ => true,
        }
    }

    fn handle_login_key(&mut self, key_code: KeyCode) -> (r: Effect)
        requires
            old(self).screen is Login,
        ensures
            old(self).login_key_post(*final(self), r, key_code),
            old(self).wf() ==> final(self).wf(),
    {
        let (busy, awaiting_2fa, focus) = match &self.screen {
            Screen::Login { busy, awaiting_2fa, focus, .. } => (*busy, *awaiting_2fa, *focus),
            _ => (true, false, LoginField::Email),
        };
        if busy {
            return Effect::Nothing;
        }
        if awaiting_2fa {
            match key_code {
                KeyCode::Esc => {
                    self.should_quit = true;
                },
                KeyCode::Tab => {
                    match &mut self.screen {
                        Screen::Login { method, .. } => *method = method.toggled(),
                        _ => {},
                    }
                },
                KeyCode::Enter => {
                    match &mut self.screen {
                        Screen::Login { error, .. } => *error = None,
                        _ => {},
                    }
                    return self.try_login();
                },
                KeyCode::Backspace => {
                    match &mut self.screen {
                        Screen::Login { code, .. } => {
                            let _ = pop_char(code);
                        },
                        _ => {},
                    }
                },
                KeyCode::Char(ch) => {
                    match &mut self.screen {
                        Screen::Login { code, .. } => push_char(code, ch),
                        _ => {},
                    }
                },
                _ => {},
            }
            return Effect::Nothing;
        }
        match key_code {
            KeyCode::Esc => {
                self.should_quit = true;
            },
            KeyCode::Tab => {
                match &mut self.screen {
                    Screen::Login { focus, .. } => {
                        *focus = match *focus {
                            LoginField::Email => LoginField::Password,
                            LoginField::Password => LoginField::Email,
                        };
                    },
                    _ => {},
                }
            },
            KeyCode::Enter => {
                if focus == LoginField::Email {
                    match &mut self.screen {
                        Screen::Login { focus, .. } => *focus = LoginField::Password,
                        _ => {},
                    }
                } else {
                    match &mut self.screen {
                        Screen::Login { error, .. } => *error = None,
                        _ => {},
                    }
                    return self.try_login();
                }
            },
            KeyCode::Backspace => {
                match &mut self.screen {
                    Screen::Login { email, password, focus, .. } => {
                        if *focus == LoginField::Email {
                            let _ = pop_char(email);
                        } else {
                            let _ = pop_char(password);
                        }
                    },
                    _ => {},
                }
            },
            KeyCode::Char(ch) => {
                match &mut self.screen {
                    Screen::Login { email, password, focus, .. } => {
                        if *focus == LoginField::Email {
                            push_char(email, ch);
                        } else {
                            push_char(password, ch);
                        }
                    },
                    _ => {},
                }
            },
            _ => {},
        }
        Effect::Nothing
    }

    // ---- unlock screen ---------------------------------------------------

    /// The unlock screen with its error cleared.
    pub open spec fn unlock_error_cleared(self) -> App {
        match self.screen {
            Screen::Unlock { email, password, error, busy, relock_message } =>
                App { screen: Screen::Unlock { email, password, error: None, busy, relock_message }, ..self },
            _ => self,
        }
    }

    /// What a key does on the unlock screen.
    pub open spec fn unlock_key_post(self, after: App, r: Effect, code: KeyCode) -> bool {
        match self.screen {
            Screen::Unlock { email, password, error, busy, relock_message } => if busy {
                after == self && r is Nothing
            } else {
                match code {
                    KeyCode::Esc => after == self.quitting() && r is Nothing,
                    KeyCode::Enter => self.unlock_error_cleared().try_unlock_post(after, r),
                    KeyCode::Backspace => {
                        &&& after.screen matches Screen::Unlock { email: e2, password: p2, error: er2, busy: b2, relock_message: m2 }
                            && e2 == email && p2@ == popped(password@) && er2 == error && b2 == busy && m2 == relock_message
                        &&& after == (App { screen: after.screen, ..self })
                        &&& r is Nothing
                    },
                    KeyCode::Char(ch) => {
                        &&& after.screen matches Screen::Unlock { email: e2, password: p2, error: er2, busy: b2, relock_message: m2 }
                            && e2 == email && p2@ == password@.push(ch) && er2 == error && b2 == busy && m2 == relock_message
                        &&& after == (App { screen: after.screen, ..self })
                        &&& r is Nothing
                    },
                    _ => after == self && r is Nothing,
                }
            },
            _ => true,
        }
    }

    fn handle_unlock_key(&mut self, code: KeyCode) -> (r: Effect)
        requires
            old(self).screen is Unlock,
        ensures
            old(self).unlock_key_post(*final(self), r, code),
            old(self).wf() ==> final(self).wf(),
    {
        let busy = match &self.screen {
            Screen::Unlock { busy, .. } => *busy,
            _ => true,
        };
        if busy {
            return Effect::Nothing;
        }
        match code {
            KeyCode::Esc => {
                self.should_quit = true;
                Effect::Nothing
            },
            KeyCode::Enter => {
                match &mut self.screen {
                    Screen::Unlock { error, .. } => *error = None,
                    _ => {},
                }
                self.try_unlock()
            },
            KeyCode::Backspace => {
                match &mut self.screen {
                    Screen::Unlock { password, .. } => {
                        let _ = pop_char(password);
                    },
                    _ => {},
                }
                Effect::Nothing
            },
            KeyCode::Char(ch) => {
                match &mut self.screen {
                    Screen::Unlock { password, .. } => push_char(password, ch),
                    _ => {},
                }
                Effect::Nothing
            },
            _ => Effect::Nothing,
        }
    }

    // ---- vault tab -------------------------------------------------------

    /// What a key does while typing a search: Esc clears the query and
    /// leaves search mode, Enter keeps the query and leaves it, other keys
    /// edit the query; the list follows the query.
    pub open spec fn search_key_post(self, after: App, r: Effect, code: KeyCode) -> bool {
        &&& r is Nothing
        &&& match code {
            KeyCode::Esc => {
                &&& after.query@.len() == 0
                &&& after.vault_mode == VaultMode::Normal
                &&& (App { query: after.query, ..self }).refilter_post(App { vault_mode: self.vault_mode, ..after })
            },
            KeyCode::Enter => after == (App { vault_mode: VaultMode::Normal, ..self }),
            KeyCode::Backspace => {
                &&& after.query@ == popped(self.query@)
                &&& (App { query: after.query, ..self }).refilter_post(after)
            },
            KeyCode::Char(c) => {
                &&& after.query@ == self.query@.push(c)
                &&& (App { query: after.query, ..self }).refilter_post(after)
            },
            _ => after == self,
        }
    }

    fn handle_search_key(&mut self, code: KeyCode) -> (r: Effect)
        ensures
            old(self).search_key_post(*final(self), r, code),
            old(self).wf() ==> final(self).wf(),
    {
        match code {
            KeyCode::Esc => {
                self.query = String::new();
                self.refilter();
                self.vault_mode = VaultMode::Normal;
            },
            KeyCode::Enter => {
                self.vault_mode = VaultMode::Normal;
            },
            KeyCode::Backspace => {
                let _ = pop_char(&mut self.query);
                self.refilter();
            },
            KeyCode::Char(c) => {
                push_char(&mut self.query, c);
                self.refilter();
            },
            _ => {},
        }
        Effect::Nothing
    }

    /// The state with the item form replaced by `f`.
    pub open spec fn with_form(self, f: ItemForm) -> App {
        App { item_form: Some(f), ..self }
    }

    /// What a key does in the item form: in its password generator, Esc
    /// closes it, `g` generates, Enter takes the password and the other keys
    /// set the options; otherwise Ctrl+G opens the generator, Ctrl+R fetches
    /// the current password, Ctrl+T changes the kind, Esc drops the form,
    /// Enter submits it, Tab/BackTab move the focus and the rest edits the
    /// focused field.
    pub open spec fn form_key_post(self, after: App, r: Effect, key: KeyEvent) -> bool {
        match self.item_form {
            Some(f) => if f.generator_open {
                match key.code {
                    KeyCode::Esc => self.close_item_form_password_picker_post(after) && r is Nothing,
                    KeyCode::Enter => self.confirm_item_form_password_picker_post(after, r),
                    KeyCode::Char(c) => if c == 'g' {
                        self.generate_password_post(after, r)
                    } else {
                        self.apply_generator_option_key_post(after, key.code) && r is Nothing
                    },
                    _ => self.apply_generator_option_key_post(after, key.code) && r is Nothing,
                }
            } else if key.is_ctrl_char('g') {
                self.open_item_form_password_picker_post(after) && r is Nothing
            } else if key.is_ctrl_char('r') {
                self.reveal_current_password_in_item_form_post(after, r)
            } else if key.is_ctrl_char('t') {
                self.cycle_item_kind_post(after, 1) && r is Nothing
            } else {
                match key.code {
                    KeyCode::Esc => after == (App { item_form: None, ..self }) && r is Nothing,
                    KeyCode::Enter => self.submit_item_form_post(after, r),
                    KeyCode::Tab => after == self.with_form(ItemForm { focus: f.cycled_focus(1), ..f }) && r is Nothing,
                    KeyCode::BackTab => after == self.with_form(ItemForm { focus: f.cycled_focus(-1i32), ..f }) && r is Nothing,
                    KeyCode::Backspace => {
                        &&& after.item_form matches Some(g) && f.backspace_post(g)
                        &&& after == (App { item_form: after.item_form, ..self })
                        &&& r is Nothing
                    },
                    KeyCode::Char(c) => {
                        &&& after.item_form matches Some(g) && f.type_char_post(g, c)
                        &&& after == (App { item_form: after.item_form, ..self })
                        &&& r is Nothing
                    },
                    _ => after == self && r is Nothing,
                }
            },
            None => true,
        }
    }

    fn handle_form_key(&mut self, key: KeyEvent) -> (r: Effect)
        requires
            old(self).item_form is Some,
        ensures
            old(self).form_key_post(*final(self), r, key),
            old(self).wf() ==> final(self).wf(),
    {
        let generator_open = match &self.item_form {
            Some(f) => f.generator_open,
            None => false,
        };
        if generator_open {
            match key.code {
                KeyCode::Esc => {
                    self.close_item_form_password_picker();
                    return Effect::Nothing;
                },
                KeyCode::Enter => return self.confirm_item_form_password_picker(),
                KeyCode::Char(c) => {
                    if c == 'g' {
                        return self.generate_password();
                    }
                    self.apply_generator_option_key(key.code);
                    return Effect::Nothing;
                },
                _ => {
                    self.apply_generator_option_key(key.code);
                    return Effect::Nothing;
                },
            }
        }
        if key.ctrl && key.code == KeyCode::Char('g') {
            self.open_item_form_password_picker();
            return Effect::Nothing;
        }
        if key.ctrl && key.code == KeyCode::Char('r') {
            return self.reveal_current_password_in_item_form();
        }
        if key.ctrl && key.code == KeyCode::Char('t') {
            self.cycle_item_kind(1);
            return Effect::Nothing;
        }
        match key.code {
            KeyCode::Esc => {
                self.item_form = None;
                Effect::Nothing
            },
            KeyCode::Enter => self.submit_item_form(),
            KeyCode::Tab => {
                match &mut self.item_form {
                    Some(f) => f.cycle_focus(1),
                    None => {},
                }
                Effect::Nothing
            },
            KeyCode::BackTab => {
                match &mut self.item_form {
                    Some(f) => f.cycle_focus(-1),
                    None => {},
                }
                Effect::Nothing
            },
            KeyCode::Backspace => {
                match &mut self.item_form {
                    Some(f) => f.backspace(),
                    None => {},
                }
                Effect::Nothing
            },
            KeyCode::Char(c) => {
                match &mut self.item_form {
                    Some(f) => f.type_char(c),
                    None => {},
                }
                Effect::Nothing
            },
            _ => Effect::Nothing,
        }
    }

    /// What a key does in the item detail popup: Esc closes it, `q` quits,
    /// Enter closes it and copies the main secret, `u` the username, `t`
    /// the TOTP code, `n` the notes, `r` reveals and `e` edits.
    pub open spec fn detail_key_post(self, after: App, r: Effect, code: KeyCode) -> bool {
        match code {
            KeyCode::Esc => after == (App { detail_open: false, ..self }) && r is Nothing,
            KeyCode::Enter => (App { detail_open: false, ..self }).copy_primary_secret_post(after, r),
            KeyCode::Char(c) => if c == 'q' {
                after == self.quitting() && r is Nothing
            } else if c == 'u' {
                self.copy_username_post(after, r)
            } else if c == 't' {
                self.copy_totp_post(after, r)
            } else if c == 'r' {
                self.toggle_reveal_post(after, r)
            } else if c == 'n' {
                self.copies_notes(after, r)
            } else if c == 'e' {
                self.open_edit_form_post(after) && r is Nothing
            } else {
                after == self && r is Nothing
            },
            _ => after == self && r is Nothing,
        }
    }

    fn handle_detail_key(&mut self, code: KeyCode) -> (r: Effect)
        requires
            old(self).wf(),
        ensures
            old(self).detail_key_post(*final(self), r, code),
            old(self).wf() ==> final(self).wf(),
    {
        match code {
            KeyCode::Esc => {
                self.detail_open = false;
                Effect::Nothing
            },
            KeyCode::Enter => {
                self.detail_open = false;
                self.copy_primary_secret()
            },
            KeyCode::Char(c) => {
                if c == 'q' {
                    self.should_quit = true;
                    Effect::Nothing
                } else if c == 'u' {
                    self.copy_username()
                } else if c == 't' {
                    self.copy_totp()
                } else if c == 'r' {
                    self.toggle_reveal()
                } else if c == 'n' {
                    self.copy_notes()
                } else if c == 'e' {
                    self.open_edit_form();
                    Effect::Nothing
                } else {
                    Effect::Nothing
                }
            },
            _ => Effect::Nothing,
        }
    }

    /// What a key does in the vault list (vim style). Any key but `g`
    /// cancels a pending `g`.
    pub open spec fn vault_normal_key_post(self, after: App, r: Effect, code: KeyCode) -> bool {
        let s = App { pending_g: if is_char(code, 'g') { self.pending_g } else { false }, ..self };
        match code {
            KeyCode::Esc => if self.query@.len() > 0 {
                &&& after.query@.len() == 0
                &&& (App { query: after.query, ..s }).refilter_post(after)
                &&& r is Nothing
            } else {
                after == s.quitting() && r is Nothing
            },
            KeyCode::Down => s.move_selection_post(after, 1) && r is Nothing,
            KeyCode::Up => s.move_selection_post(after, -1i32) && r is Nothing,
            KeyCode::Left => s.cycle_folder_post(after, -1i32) && r is Nothing,
            KeyCode::Right => s.cycle_folder_post(after, 1) && r is Nothing,
            KeyCode::Enter => if s.selected_spec() is Some {
                after == (App { detail_open: true, ..s }) && r is Nothing
            } else {
                after == s && r is Nothing
            },
            KeyCode::F(n) => if n == 5 { s.refresh_items_post(after, r) } else { after == s && r is Nothing },
            KeyCode::Char(c) => s.vault_char_post(after, r, c),
            _ => after == s && r is Nothing,
        }
    }

    /// What a character key does in the vault list.
    pub open spec fn vault_char_post(self, after: App, r: Effect, c: char) -> bool {
        if c == 'q' {
            after == self.quitting() && r is Nothing
        } else if c == '/' {
            after == (App { vault_mode: VaultMode::Search, ..self }) && r is Nothing
        } else if c == 'j' {
            self.move_selection_post(after, 1) && r is Nothing
        } else if c == 'k' {
            self.move_selection_post(after, -1i32) && r is Nothing
        } else if c == 'g' {
            if self.pending_g {
                after == (App { pending_g: false, selected: 0, reveal: None, reveal_cvv: None, ..self }) && r is Nothing
            } else {
                after == (App { pending_g: true, ..self }) && r is Nothing
            }
        } else if c == 'G' {
            after == (App {
                selected: if self.filtered@.len() == 0 { 0 } else { (self.filtered@.len() - 1) as usize },
                reveal: None,
                reveal_cvv: None,
                ..self
            }) && r is Nothing
        } else if c == 'h' {
            self.cycle_folder_post(after, -1i32) && r is Nothing
        } else if c == 'l' {
            self.cycle_folder_post(after, 1) && r is Nothing
        } else if c == 'n' {
            self.open_create_form_post(after) && r is Nothing
        } else if c == 'f' {
            self.toggle_folder_bar_post(after) && r is Nothing
        } else if c == 'R' {
            self.refresh_items_post(after, r)
        } else {
            after == self && r is Nothing
        }
    }

    fn handle_vault_char(&mut self, c: char) -> (r: Effect)
        requires
            old(self).wf(),
            old(self).folders@.len() + 2 <= usize::MAX,
        ensures
            old(self).vault_char_post(*final(self), r, c),
            old(self).wf() ==> final(self).wf(),
    {
        if c == 'q' {
            self.should_quit = true;
            Effect::Nothing
        } else if c == '/' {
            self.vault_mode = VaultMode::Search;
            Effect::Nothing
        } else if c == 'j' {
            self.move_selection(1);
            Effect::Nothing
        } else if c == 'k' {
            self.move_selection(-1);
            Effect::Nothing
        } else if c == 'g' {
            if self.pending_g {
                self.pending_g = false;
                self.selected = 0;
                self.reveal = None;
                self.reveal_cvv = None;
            } else {
                self.pending_g = true;
            }
            Effect::Nothing
        } else if c == 'G' {
            self.selected = self.filtered.len().saturating_sub(1);
            self.reveal = None;
            self.reveal_cvv = None;
            Effect::Nothing
        } else if c == 'h' {
            self.cycle_folder(-1);
            Effect::Nothing
        } else if c == 'l' {
            self.cycle_folder(1);
            Effect::Nothing
        } else if c == 'n' {
            self.open_create_form();
            Effect::Nothing
        } else if c == 'f' {
            self.toggle_folder_bar();
            Effect::Nothing
        } else if c == 'R' {
            self.refresh_items()
        } else {
            Effect::Nothing
        }
    }

    fn handle_vault_normal_key(&mut self, code: KeyCode) -> (r: Effect)
        requires
            old(self).wf(),
            old(self).folders@.len() + 2 <= usize::MAX,
        ensures
            old(self).vault_normal_key_post(*final(self), r, code),
            old(self).wf() ==> final(self).wf(),
    {
        if code != KeyCode::Char('g') {
            self.pending_g = false;
        }
        match code {
            KeyCode::Esc => {
                if self.query.unicode_len() > 0 {
                    self.query = String::new();
                    self.refilter();
                } else {
                    self.should_quit = true;
                }
                Effect::Nothing
            },
            KeyCode::Down => {
                self.move_selection(1);
                Effect::Nothing
            },
            KeyCode::Up => {
                self.move_selection(-1);
                Effect::Nothing
            },
            KeyCode::Left => {
                self.cycle_folder(-1);
                Effect::Nothing
            },
            KeyCode::Right => {
                self.cycle_folder(1);
                Effect::Nothing
            },
            KeyCode::Enter => {
                if self.selected_item().is_some() {
                    self.detail_open = true;
                }
                Effect::Nothing
            },
            KeyCode::F(n) => {
                if n == 5 {
                    self.refresh_items()
                } else {
                    Effect::Nothing
                }
            },
            KeyCode::Char(c) => self.handle_vault_char(c),
            _ => Effect::Nothing,
        }
    }

    // ---- generator and account tabs ---------------------------------------

    /// What a key does on the generator tab.
    pub open spec fn generator_key_post(self, after: App, r: Effect, code: KeyCode) -> bool {
        match code {
            KeyCode::Esc => after == self.quitting() && r is Nothing,
            KeyCode::Enter => self.generate_password_post(after, r),
            KeyCode::Char(c) => if c == 'c' {
                self.copy_generated_post(after, r)
            } else {
                self.apply_generator_option_key_post(after, code) && r is Nothing
            },
            _ => self.apply_generator_option_key_post(after, code) && r is Nothing,
        }
    }

    fn handle_generator_key(&mut self, code: KeyCode) -> (r: Effect)
        ensures
            old(self).generator_key_post(*final(self), r, code),
            old(self).wf() ==> final(self).wf(),
    {
        match code {
            KeyCode::Esc => {
                self.should_quit = true;
                Effect::Nothing
            },
            KeyCode::Enter => self.generate_password(),
            KeyCode::Char(c) => {
                if c == 'c' {
                    self.copy_generated()
                } else {
                    self.apply_generator_option_key(code);
                    Effect::Nothing
                }
            },
            _ => {
                self.apply_generator_option_key(code);
                Effect::Nothing
            },
        }
    }

    /// What a key does on the account tab: while a logout waits for its
    /// confirmation, `y` logs out and any other key cancels; otherwise `s`
    /// syncs, `l` locks and `o` asks to log out.
    pub open spec fn account_key_post(self, after: App, r: Effect, code: KeyCode) -> bool {
        if self.confirm_logout {
            if is_char(code, 'y') || is_char(code, 'Y') {
                self.logout_now_post(after, r)
            } else {
                after == (App { confirm_logout: false, ..self }) && r is Nothing
            }
        } else {
            match code {
                KeyCode::Esc => after == self.quitting() && r is Nothing,
                KeyCode::Char(c) => if c == 's' {
                    self.sync_now_post(after, r)
                } else if c == 'l' {
                    after.locked_from(self, "🔒 Vault locked, enter your master password:"@) && r is ClearSession
                } else if c == 'o' {
                    after == (App { confirm_logout: true, ..self }) && r is Nothing
                } else {
                    after == self && r is Nothing
                },
                _ => after == self && r is Nothing,
            }
        }
    }

    fn handle_account_key(&mut self, code: KeyCode) -> (r: Effect)
        ensures
            old(self).account_key_post(*final(self), r, code),
            old(self).wf() ==> final(self).wf(),
    {
        if self.confirm_logout {
            if code == KeyCode::Char('y') || code == KeyCode::Char('Y') {
                return self.logout_now();
            }
            self.confirm_logout = false;
            return Effect::Nothing;
        }
        match code {
            KeyCode::Esc => {
                self.should_quit = true;
                Effect::Nothing
            },
            KeyCode::Char(c) => {
                if c == 's' {
                    self.sync_now()
                } else if c == 'l' {
                    self.lock_now()
                } else if c == 'o' {
                    self.confirm_logout = true;
                    Effect::Nothing
                } else {
                    Effect::Nothing
                }
            },
            _ => Effect::Nothing,
        }
    }

    // ---- dispatch ----------------------------------------------------------

    /// What a key does on the main screen: without an open form, Tab and
    /// BackTab switch tabs; otherwise the key goes to the tab, and on the
    /// vault tab to the search, the form, the detail popup or the list.
    pub open spec fn main_key_post(self, after: App, r: Effect, key: KeyEvent) -> bool {
        if self.item_form is None && key.code == KeyCode::Tab {
            after == (App { tab: self.tab.next_spec(), ..self }) && r is Nothing
        } else if self.item_form is None && key.code == KeyCode::BackTab {
            after == (App { tab: self.tab.prev_spec(), ..self }) && r is Nothing
        } else {
            match self.tab {
                Tab::Vault => if self.vault_mode == VaultMode::Search {
                    self.search_key_post(after, r, key.code)
                } else if self.item_form is Some {
                    self.form_key_post(after, r, key)
                } else if self.detail_open {
                    self.detail_key_post(after, r, key.code)
                } else {
                    self.vault_normal_key_post(after, r, key.code)
                },
                Tab::Generator => self.generator_key_post(after, r, key.code),
                Tab::Account => self.account_key_post(after, r, key.code),
            }
        }
    }

    fn handle_main_key(&mut self, key: KeyEvent) -> (r: Effect)
        requires
            old(self).wf(),
            old(self).folders@.len() + 2 <= usize::MAX,
        ensures
            old(self).main_key_post(*final(self), r, key),
            old(self).wf() ==> final(self).wf(),
    {
        if self.item_form.is_none() {
            if key.code == KeyCode::Tab {
                self.tab = self.tab.next();
                return Effect::Nothing;
            }
            if key.code == KeyCode::BackTab {
                self.tab = self.tab.prev();
                return Effect::Nothing;
            }
        }
        match self.tab {
            Tab::Vault => {
                if self.vault_mode == VaultMode::Search {
                    self.handle_search_key(key.code)
                } else if self.item_form.is_some() {
                    self.handle_form_key(key)
                } else if self.detail_open {
                    self.handle_detail_key(key.code)
                } else {
                    self.handle_vault_normal_key(key.code)
                }
            },
            Tab::Generator => self.handle_generator_key(key.code),
            Tab::Account => self.handle_account_key(key.code),
        }
    }

    /// What a key does: Ctrl+C quits anywhere; otherwise the key goes to the
    /// screen on show (the loading screen ignores keys).
    pub open spec fn handle_key_post(self, after: App, r: Effect, key: KeyEvent) -> bool {
        if key.is_ctrl_char('c') {
            after == self.quitting() && r is Nothing
        } else {
            match self.screen {
                Screen::ServerConfig { .. } => self.server_config_key_post(after, r, key.code),
                Screen::Login { .. } => self.login_key_post(after, r, key.code),
                Screen::Unlock { .. } => self.unlock_key_post(after, r, key.code),
                Screen::Loading => after == self && r is Nothing,
                Screen::Main => self.main_key_post(after, r, key),
            }
        }
    }

    /// Handles one key press and returns what the driver must do next.
    pub fn handle_key(&mut self, key: KeyEvent) -> (r: Effect)
        requires
            old(self).wf(),
            old(self).folders@.len() + 2 <= usize::MAX,
        ensures
            old(self).handle_key_post(*final(self), r, key),
            final(self).wf(),
    {
        if key.ctrl && key.code == KeyCode::Char('c') {
            self.should_quit = true;
            return Effect::Nothing;
        }
        match &self.screen {
            Screen::ServerConfig { .. } => self.handle_server_config_key(key.code),
            Screen::Login { .. } => self.handle_login_key(key.code),
            Screen::Unlock { .. } => self.handle_unlock_key(key.code),
            Screen::Loading => Effect::Nothing,
            Screen::Main => self.handle_main_key(key),
        }
    }
}

} // verus!
