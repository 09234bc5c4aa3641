//! Creating and editing items, and the generator options.
use vstd::prelude::*;
use crate::app::App;
use crate::effects::{BwJob, Effect};
use crate::form::{ItemForm, ItemFormMode, ItemKind};
use crate::keys::KeyCode;
use crate::model::{
    opt_view, GenerateOptions, ItemPatch, NewCard, NewIdentity, NewItem, NewLogin, SecureNoteData,
};
use crate::text::{to_string, trim, trim_spec};

verus! {

/// A form text as an optional payload value: absent when empty.
pub open spec fn opt_text(s: Seq<char>) -> Option<Seq<char>> {
    if s.len() == 0 { None } else { Some(s) }
}

fn opt_string(s: &String) -> (r: Option<String>)
    ensures
        opt_view(r) == opt_text(s@),
{
    if s.unicode_len() == 0 { None } else { Some(s.clone()) }
}

/// The login part sent for a form: present for logins only.
pub open spec fn login_part(l: Option<NewLogin>, f: ItemForm) -> bool {
    if f.kind == ItemKind::Login {
        l matches Some(x) && opt_view(x.username) == opt_text(f.username@)
            && opt_view(x.password) == opt_text(f.password@)
    } else {
        l is None
    }
}

/// The card part sent for a form: present for cards only.
pub open spec fn card_part(c: Option<NewCard>, f: ItemForm) -> bool {
    if f.kind == ItemKind::Card {
        c matches Some(x)
            && opt_view(x.cardholder_name) == opt_text(f.cardholder_name@)
            && opt_view(x.brand) == opt_text(f.brand@)
            && opt_view(x.number) == opt_text(f.number@)
            && opt_view(x.exp_month) == opt_text(f.exp_month@)
            && opt_view(x.exp_year) == opt_text(f.exp_year@)
            && opt_view(x.code) == opt_text(f.code@)
    } else {
        c is None
    }
}

/// The identity part sent for a form: present for identities only.
pub open spec fn identity_part(i: Option<NewIdentity>, f: ItemForm) -> bool {
    if f.kind == ItemKind::Identity {
        i matches Some(x)
            && opt_view(x.first_name) == opt_text(f.first_name@)
            && opt_view(x.last_name) == opt_text(f.last_name@)
            && opt_view(x.email) == opt_text(f.email@)
            && opt_view(x.phone) == opt_text(f.phone@)
    } else {
        i is None
    }
}

/// The new item a create form submits.
pub open spec fn new_item_from(n: NewItem, f: ItemForm) -> bool {
    &&& n.folder_id is None
    &&& n.item_type == f.kind.item_type_spec()
    &&& n.name@ == trim_spec(f.name@)
    &&& opt_view(n.notes) == opt_text(f.notes@)
    &&& login_part(n.login, f)
    &&& card_part(n.card, f)
    &&& identity_part(n.identity, f)
    &&& (if f.kind == ItemKind::Note { n.secure_note matches Some(sn) && sn.note_type == 0 } else { n.secure_note is None })
}

/// The patch an edit form submits.
pub open spec fn patch_from(p: ItemPatch, f: ItemForm) -> bool {
    &&& p.name@ == trim_spec(f.name@)
    &&& opt_view(p.notes) == opt_text(f.notes@)
    &&& p.folder_id is None
    &&& login_part(p.login, f)
    &&& card_part(p.card, f)
    &&& identity_part(p.identity, f)
}

fn login_of(f: &ItemForm) -> (r: Option<NewLogin>)
    ensures
        login_part(r, *f),
{
    if f.kind == ItemKind::Login {
        Some(NewLogin { username: opt_string(&f.username), password: opt_string(&f.password) })
    } else {
        None
    }
}

fn card_of(f: &ItemForm) -> (r: Option<NewCard>)
    ensures
        card_part(r, *f),
{
    if f.kind == ItemKind::Card {
        Some(NewCard {
            cardholder_name: opt_string(&f.cardholder_name),
            brand: opt_string(&f.brand),
            number: opt_string(&f.number),
            exp_month: opt_string(&f.exp_month),
            exp_year: opt_string(&f.exp_year),
            code: opt_string(&f.code),
        })
    } else {
        None
    }
}

fn identity_of(f: &ItemForm) -> (r: Option<NewIdentity>)
    ensures
        identity_part(r, *f),
{
    if f.kind == ItemKind::Identity {
        Some(NewIdentity {
            first_name: opt_string(&f.first_name),
            last_name: opt_string(&f.last_name),
            email: opt_string(&f.email),
            phone: opt_string(&f.phone),
        })
    } else {
        None
    }
}

impl App {
    /// Opens an empty form for a new login.
    /// What `open_create_form` does, from `self` to `after`.
    pub open spec fn open_create_form_post(self, after: App) -> bool {
        &&& (after.item_form matches Some(f) && f.is_blank())
        &&& (after == (App { item_form: after.item_form, ..self }))
    }

    pub fn open_create_form(&mut self)
        ensures
            old(self).open_create_form_post(*final(self)),
    {
        self.item_form = Some(ItemForm::new());
    }

    /// Opens the form that edits the selected item.
    /// What `open_edit_form` does, from `self` to `after`.
    pub open spec fn open_edit_form_post(self, after: App) -> bool {
        &&& (({
                let sel = self.selected_spec();
                if sel is None {
                    after == self
                } else if !(1 <= sel->0.item_type <= 4) {
                    &&& after.shows("\u{f071} Editing is not supported for this item type"@)
                    &&& after == self.with_status_of(after)
                } else {
                    &&& after.item_form matches Some(f) && f.edits(sel->0)
                    &&& after == (App { item_form: after.item_form, ..self })
                }
            }))
    }

    pub fn open_edit_form(&mut self)
        requires
            old(self).wf(),
        ensures
            old(self).open_edit_form_post(*final(self)),
    {
        let form = match self.selected_item() {
            Some(item) => {
                if !(1 <= item.item_type && item.item_type <= 4) {
                    self.set_status(to_string("\u{f071} Editing is not supported for this item type"));
                    return;
                }
                ItemForm::for_editing(item)
            },
            None => return,
        };
        self.item_form = Some(form);
    }

    /// Switches a create form to the next (`delta > 0`) or previous kind,
    /// keeping the focus when the new kind has that field.
    /// What `cycle_item_kind` does, from `self` to `after`.
    pub open spec fn cycle_item_kind_post(self, after: App, delta: i32) -> bool {
        &&& (match self.item_form {
                Some(f) => if f.mode is Create {
                    let kind = if delta > 0 { f.kind.next_spec() } else { f.kind.prev_spec() };
                    let focus = if kind.fields_spec().contains(f.focus) { f.focus } else { kind.fields_spec()[0] };
                    after == (App { item_form: Some(ItemForm { kind, focus, ..f }), ..self })
                } else {
                    after == self
                },
                None => after == self,
            })
    }

    pub fn cycle_item_kind(&mut self, delta: i32)
        ensures
            old(self).cycle_item_kind_post(*final(self), delta),
    {
        match &mut self.item_form {
            Some(form) => {
                let is_create = match form.mode {
                    ItemFormMode::Create => true,
                    ItemFormMode::Edit { .. } => false,
                };
                if !is_create {
                    return;
                }
                form.kind = if delta > 0 { form.kind.next() } else { form.kind.prev() };
                let fields = form.kind.fields();
                let mut k: usize = 0;
                let mut found = false;
                while k < fields.len()
                    invariant
                        k <= fields@.len(),
                        found <==> exists|m: int| 0 <= m < k && fields@[m] == form.focus,
                    decreases fields@.len() - k,
                {
                    if fields[k] == form.focus {
                        found = true;
                    }
                    k = k + 1;
                }
                if !found {
                    form.focus = fields[0];
                }
            },
            None => {},
        }
    }

    /// Opens the password generator inside the form.
    /// What `open_item_form_password_picker` does, from `self` to `after`.
    pub open spec fn open_item_form_password_picker_post(self, after: App) -> bool {
        &&& (match self.item_form {
                Some(f) => after == (App { item_form: Some(ItemForm { generator_open: true, ..f }), ..self }),
                None => after == self,
            })
    }

    pub fn open_item_form_password_picker(&mut self)
        ensures
            old(self).open_item_form_password_picker_post(*final(self)),
    {
        match &mut self.item_form {
            Some(form) => form.generator_open = true,
            None => {},
        }
    }

    /// Closes the password generator inside the form.
    /// What `close_item_form_password_picker` does, from `self` to `after`.
    pub open spec fn close_item_form_password_picker_post(self, after: App) -> bool {
        &&& (match self.item_form {
                Some(f) => after == (App { item_form: Some(ItemForm { generator_open: false, ..f }), ..self }),
                None => after == self,
            })
    }

    pub fn close_item_form_password_picker(&mut self)
        ensures
            old(self).close_item_form_password_picker_post(*final(self)),
    {
        match &mut self.item_form {
            Some(form) => form.generator_open = false,
            None => {},
        }
    }

    /// Puts the generated password into the form (generating one first if
    /// there is none yet).
    /// What `confirm_item_form_password_picker` does, from `self` to `after`.
    pub open spec fn confirm_item_form_password_picker_post(self, after: App, r: Effect) -> bool {
        &&& (match self.generator.result {
                Some(pw) => r is Nothing && match self.item_form {
                    Some(f) => {
                        &&& after.item_form matches Some(g) && g.password@ == pw@
                            && g == (ItemForm { password: g.password, generator_open: false, ..f })
                        &&& after == (App { item_form: after.item_form, ..self })
                    },
                    None => after == self,
                },
                None => if self.busy {
                    after == self && r is Nothing
                } else {
                    self.busy_with("Generating…"@, after)
                        && (r matches Effect::Run(BwJob::Generate { opts }) && opts == self.generator.opts)
                },
            })
    }

    pub fn confirm_item_form_password_picker(&mut self) -> (r: Effect)
        ensures
            old(self).confirm_item_form_password_picker_post(*final(self), r),
    {
        let pw = match &self.generator.result {
            Some(p) => p.clone(),
            None => return self.generate_password(),
        };
        match &mut self.item_form {
            Some(form) => {
                form.password = pw;
                form.generator_open = false;
            },
            None => {},
        }
        Effect::Nothing
    }

    /// Fetches, in the background, the current password of the login being edited.
    /// What `reveal_current_password_in_item_form` does, from `self` to `after`.
    pub open spec fn reveal_current_password_in_item_form_post(self, after: App, r: Effect) -> bool {
        &&& (({
                let can = !self.busy && self.item_form is Some
                    && self.item_form->0.mode is Edit && self.session is Some;
                if can {
                    &&& self.busy_with("Fetching current password…"@, after)
                    &&& r matches Effect::Run(BwJob::FormPassword { id, session })
                        && id@ == self.item_form->0.mode->id@ && session@ == self.session->0@
                } else {
                    after == self && r is Nothing
                }
            }))
    }

    pub fn reveal_current_password_in_item_form(&mut self) -> (r: Effect)
        ensures
            old(self).reveal_current_password_in_item_form_post(*final(self), r),
    {
        if self.busy {
            return Effect::Nothing;
        }
        let id = match &self.item_form {
            Some(form) => match &form.mode {
                ItemFormMode::Edit { id } => id.clone(),
                ItemFormMode::Create => return Effect::Nothing,
            },
            None => return Effect::Nothing,
        };
        let session = match &self.session {
            Some(s) => s.clone(),
            None => return Effect::Nothing,
        };
        self.busy = true;
        self.busy_label = Some(to_string("Fetching current password…"));
        Effect::Run(BwJob::FormPassword { id, session })
    }

    /// Submits the form: a name is required; a create form sends a new
    /// item, an edit form a patch, in the background.
    /// What `submit_item_form` does, from `self` to `after`.
    pub open spec fn submit_item_form_post(self, after: App, r: Effect) -> bool {
        &&& (({
                if self.busy || self.item_form is None {
                    after == self && r is Nothing
                } else {
                    let f = self.item_form->0;
                    if trim_spec(f.name@).len() == 0 {
                        &&& after.item_form matches Some(g) && g.error matches Some(e) && e@ == "Name is required"@
                            && g == (ItemForm { error: g.error, ..f })
                        &&& after == (App { item_form: after.item_form, ..self })
                        &&& r is Nothing
                    } else if self.session is None {
                        after == self && r is Nothing
                    } else {
                        let cleared = App { item_form: Some(ItemForm { error: None, ..f }), ..self };
                        match f.mode {
                            ItemFormMode::Edit { id } => {
                                &&& cleared.busy_with("Saving item…"@, after)
                                &&& r matches Effect::Run(BwJob::EditItem { id: i2, patch, session })
                                    && i2@ == id@ && patch_from(patch, f) && session@ == self.session->0@
                            },
                            ItemFormMode::Create => {
                                &&& cleared.busy_with("Creating item…"@, after)
                                &&& r matches Effect::Run(BwJob::CreateItem { item, session })
                                    && new_item_from(item, f) && session@ == self.session->0@
                            },
                        }
                    }
                }
            }))
    }

    pub fn submit_item_form(&mut self) -> (r: Effect)
        ensures
            old(self).submit_item_form_post(*final(self), r),
    {
        if self.busy {
            return Effect::Nothing;
        }
        let (kind, name, notes, login, card, identity, editing_id) = match &self.item_form {
            Some(form) => {
                let editing_id = match &form.mode {
                    ItemFormMode::Create => None,
                    ItemFormMode::Edit { id } => Some(id.clone()),
                };
                (form.kind, trim(form.name.as_str()), opt_string(&form.notes), login_of(form), card_of(form),
                    identity_of(form), editing_id)
            },
            None => return Effect::Nothing,
        };
        if name.unicode_len() == 0 {
            match &mut self.item_form {
                Some(form) => form.error = Some(to_string("Name is required")),
                None => {},
            }
            return Effect::Nothing;
        }
        let session = match &self.session {
            Some(s) => s.clone(),
            None => return Effect::Nothing,
        };
        match &mut self.item_form {
            Some(form) => form.error = None,
            None => {},
        }
        self.busy = true;
        match editing_id {
            Some(id) => {
                self.busy_label = Some(to_string("Saving item…"));
                let patch = ItemPatch { name, notes, folder_id: None, login, card, identity };
                Effect::Run(BwJob::EditItem { id, patch, session })
            },
            None => {
                self.busy_label = Some(to_string("Creating item…"));
                let secure_note = if kind == ItemKind::Note { Some(SecureNoteData { note_type: 0 }) } else { None };
                let item = NewItem {
                    folder_id: None,
                    item_type: kind.item_type(),
                    name,
                    notes,
                    login,
                    card,
                    identity,
                    secure_note,
                };
                Effect::Run(BwJob::CreateItem { item, session })
            },
        }
    }

    /// The generator keys: ↑/↓ change the length (between 5 and 128),
    /// `u`, `l`, `n`, `s` toggle the character sets.
    /// What `apply_generator_option_key` does, from `self` to `after`.
    pub open spec fn apply_generator_option_key_post(self, after: App, code: KeyCode) -> bool {
        &&& (({
                let o = self.generator.opts;
                let opts = match code {
                    KeyCode::Up => GenerateOptions { length: if o.length >= 128 { 128 } else { (o.length + 1) as u8 }, ..o },
                    KeyCode::Down => GenerateOptions { length: if o.length <= 5 { 5 } else { (o.length - 1) as u8 }, ..o },
                    KeyCode::Char(c) => if c == 'u' {
                        GenerateOptions { uppercase: !o.uppercase, ..o }
                    } else if c == 'l' {
                        GenerateOptions { lowercase: !o.lowercase, ..o }
                    } else if c == 'n' {
                        GenerateOptions { numbers: !o.numbers, ..o }
                    } else if c == 's' {
                        GenerateOptions { special: !o.special, ..o }
                    } else {
                        o
                    },
                    _ => o,
                };
                &&& after.generator.opts == opts
                &&& after.generator.result == self.generator.result
                &&& after.generator.error == self.generator.error
                &&& after == (App { generator: after.generator, ..self })
            }))
    }

    pub fn apply_generator_option_key(&mut self, code: KeyCode)
        ensures
            old(self).apply_generator_option_key_post(*final(self), code),
    {
        match code {
            KeyCode::Up => {
                self.generator.opts.length = if self.generator.opts.length >= 128 { 128 } else { self.generator.opts.length + 1 };
            },
            KeyCode::Down => {
                self.generator.opts.length = if self.generator.opts.length <= 5 { 5 } else { self.generator.opts.length - 1 };
            },
            KeyCode::Char(c) => {
                if c == 'u' {
                    self.generator.opts.uppercase = !self.generator.opts.uppercase;
                } else if c == 'l' {
                    self.generator.opts.lowercase = !self.generator.opts.lowercase;
                } else if c == 'n' {
                    self.generator.opts.numbers = !self.generator.opts.numbers;
                } else if c == 's' {
                    self.generator.opts.special = !self.generator.opts.special;
                }
            },
            _ => {},
        }
    }
}

} // verus!
