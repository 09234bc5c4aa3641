//! The item create/edit form: which fields each kind of item has, focus
//! movement, and the text of each field.
use vstd::prelude::*;
use crate::arith::wrap_index;
use crate::model::{opt_view, or_empty, Item};
use crate::text::{pop_char, push_char, to_string};

verus! {

/// The kind of item a form creates or edits.
#[derive(Clone, Copy, PartialEq, Eq, Structural, Debug)]
pub enum ItemKind {
    Login,
    Note,
    Card,
    Identity,
}

/// One field of the item form.
#[derive(Clone, Copy, PartialEq, Eq, Structural, Debug)]
pub enum ItemFormField {
    Name,
    Username,
    Password,
    Notes,
    CardholderName,
    Brand,
    Number,
    ExpMonth,
    ExpYear,
    Code,
    FirstName,
    LastName,
    Email,
    Phone,
}

impl ItemKind {
    /// The kind of an item of the given `bw` type; unknown types edit as logins.
    pub open spec fn from_item_type_spec(item_type: u8) -> ItemKind {
        if item_type == 2 {
            ItemKind::Note
        } else if item_type == 3 {
            ItemKind::Card
        } else if item_type == 4 {
            ItemKind::Identity
        } else {
            ItemKind::Login
        }
    }

    /// The `bw` type number of a kind.
    pub open spec fn item_type_spec(self) -> u8 {
        match self {
            ItemKind::Login => 1,
            ItemKind::Note => 2,
            ItemKind::Card => 3,
            ItemKind::Identity => 4,
        }
    }

    /// The kinds in the order Ctrl+T steps through them.
    pub open spec fn next_spec(self) -> ItemKind {
        match self {
            ItemKind::Login => ItemKind::Note,
            ItemKind::Note => ItemKind::Card,
            ItemKind::Card => ItemKind::Identity,
            ItemKind::Identity => ItemKind::Login,
        }
    }

    pub open spec fn prev_spec(self) -> ItemKind {
        match self {
            ItemKind::Login => ItemKind::Identity,
            ItemKind::Note => ItemKind::Login,
            ItemKind::Card => ItemKind::Note,
            ItemKind::Identity => ItemKind::Card,
        }
    }

    /// The fields the form shows for a kind, in focus order.
    pub open spec fn fields_spec(self) -> Seq<ItemFormField> {
        match self {
            ItemKind::Login => seq![
                ItemFormField::Name,
                ItemFormField::Username,
                ItemFormField::Password,
                ItemFormField::Notes,
            ],
            ItemKind::Note => seq![ItemFormField::Name, ItemFormField::Notes],
            ItemKind::Card => seq![
                ItemFormField::Name,
                ItemFormField::CardholderName,
                ItemFormField::Brand,
                ItemFormField::Number,
                ItemFormField::ExpMonth,
                ItemFormField::ExpYear,
                ItemFormField::Code,
                ItemFormField::Notes,
            ],
            ItemKind::Identity => seq![
                ItemFormField::Name,
                ItemFormField::FirstName,
                ItemFormField::LastName,
                ItemFormField::Email,
                ItemFormField::Phone,
                ItemFormField::Notes,
            ],
        }
    }

    pub fn from_item_type(item_type: u8) -> (r: ItemKind)
        ensures
            r == ItemKind::from_item_type_spec(item_type),
    {
        if item_type == 2 {
            ItemKind::Note
        } else if item_type == 3 {
            ItemKind::Card
        } else if item_type == 4 {
            ItemKind::Identity
        } else {
            ItemKind::Login
        }
    }

    pub fn item_type(self) -> (r: u8)
        ensures
            r == self.item_type_spec(),
    {
        match self {
            ItemKind::Login => 1,
            ItemKind::Note => 2,
            ItemKind::Card => 3,
            ItemKind::Identity => 4,
        }
    }

    /// The name of a kind, as the form's title shows it.
    pub open spec fn label_spec(self) -> Seq<char> {
        match self {
            ItemKind::Login => "login"@,
            ItemKind::Note => "note"@,
            ItemKind::Card => "card"@,
            ItemKind::Identity => "identity"@,
        }
    }

    pub fn label(self) -> (r: &'static str)
        ensures
            r@ == self.label_spec(),
    {
        match self {
            ItemKind::Login => "login",
            ItemKind::Note => "note",
            ItemKind::Card => "card",
            ItemKind::Identity => "identity",
        }
    }

    pub fn next(self) -> (r: ItemKind)
        ensures
            r == self.next_spec(),
    {
        match self {
            ItemKind::Login => ItemKind::Note,
            ItemKind::Note => ItemKind::Card,
            ItemKind::Card => ItemKind::Identity,
            ItemKind::Identity => ItemKind::Login,
        }
    }

    pub fn prev(self) -> (r: ItemKind)
        ensures
            r == self.prev_spec(),
    {
        match self {
            ItemKind::Login => ItemKind::Identity,
            ItemKind::Note => ItemKind::Login,
            ItemKind::Card => ItemKind::Note,
            ItemKind::Identity => ItemKind::Card,
        }
    }

    pub fn fields(self) -> (r: Vec<ItemFormField>)
        ensures
            r@ == self.fields_spec(),
    {
        match self {
            ItemKind::Login => vec![
                ItemFormField::Name,
                ItemFormField::Username,
                ItemFormField::Password,
                ItemFormField::Notes,
            ],
            ItemKind::Note => vec![ItemFormField::Name, ItemFormField::Notes],
            ItemKind::Card => vec![
                ItemFormField::Name,
                ItemFormField::CardholderName,
                ItemFormField::Brand,
                ItemFormField::Number,
                ItemFormField::ExpMonth,
                ItemFormField::ExpYear,
                ItemFormField::Code,
                ItemFormField::Notes,
            ],
            ItemKind::Identity => vec![
                ItemFormField::Name,
                ItemFormField::FirstName,
                ItemFormField::LastName,
                ItemFormField::Email,
                ItemFormField::Phone,
                ItemFormField::Notes,
            ],
        }
    }
}

impl ItemFormField {
    /// The most characters a field takes, if it is limited.
    pub open spec fn max_len_spec(self) -> Option<usize> {
        match self {
            ItemFormField::ExpMonth => Some(2),
            ItemFormField::ExpYear => Some(4),
            ItemFormField::Code => Some(3),
            _ => None,
        }
    }

    /// The label the form shows before a field.
    pub open spec fn label_spec(self) -> Seq<char> {
        match self {
            ItemFormField::Name => "Name"@,
            ItemFormField::Username => "Username"@,
            ItemFormField::Password => "Password"@,
            ItemFormField::Notes => "Notes"@,
            ItemFormField::CardholderName => "Cardholder"@,
            ItemFormField::Brand => "Brand"@,
            ItemFormField::Number => "Number"@,
            ItemFormField::ExpMonth => "Exp. month"@,
            ItemFormField::ExpYear => "Exp. year"@,
            ItemFormField::Code => "CVV"@,
            ItemFormField::FirstName => "First name"@,
            ItemFormField::LastName => "Last name"@,
            ItemFormField::Email => "Email"@,
            ItemFormField::Phone => "Phone"@,
        }
    }

    pub fn label(self) -> (r: &'static str)
        ensures
            r@ == self.label_spec(),
    {
        match self {
            ItemFormField::Name => "Name",
            ItemFormField::Username => "Username",
            ItemFormField::Password => "Password",
            ItemFormField::Notes => "Notes",
            ItemFormField::CardholderName => "Cardholder",
            ItemFormField::Brand => "Brand",
            ItemFormField::Number => "Number",
            ItemFormField::ExpMonth => "Exp. month",
            ItemFormField::ExpYear => "Exp. year",
            ItemFormField::Code => "CVV",
            ItemFormField::FirstName => "First name",
            ItemFormField::LastName => "Last name",
            ItemFormField::Email => "Email",
            ItemFormField::Phone => "Phone",
        }
    }

    pub fn max_len(self) -> (r: Option<usize>)
        ensures
            r == self.max_len_spec(),
    {
        match self {
            ItemFormField::ExpMonth => Some(2),
            ItemFormField::ExpYear => Some(4),
            ItemFormField::Code => Some(3),
            _ => None,
        }
    }
}

/// Whether the form creates a new item or edits the item with the given id.
pub enum ItemFormMode {
    Create,
    Edit { id: String },
}

/// The state of the item form.
pub struct ItemForm {
    pub mode: ItemFormMode,
    pub kind: ItemKind,
    pub focus: ItemFormField,
    pub name: String,
    pub username: String,
    pub password: String,
    pub password_revealed: bool,
    pub notes: String,
    pub cardholder_name: String,
    pub brand: String,
    pub number: String,
    pub exp_month: String,
    pub exp_year: String,
    pub code: String,
    pub first_name: String,
    pub last_name: String,
    pub email: String,
    pub phone: String,
    pub generator_open: bool,
    pub error: Option<String>,
}

impl ItemForm {
    /// The text of one field.
    pub open spec fn value_spec(&self, field: ItemFormField) -> Seq<char> {
        match field {
            ItemFormField::Name => self.name@,
            ItemFormField::Username => self.username@,
            ItemFormField::Password => self.password@,
            ItemFormField::Notes => self.notes@,
            ItemFormField::CardholderName => self.cardholder_name@,
            ItemFormField::Brand => self.brand@,
            ItemFormField::Number => self.number@,
            ItemFormField::ExpMonth => self.exp_month@,
            ItemFormField::ExpYear => self.exp_year@,
            ItemFormField::Code => self.code@,
            ItemFormField::FirstName => self.first_name@,
            ItemFormField::LastName => self.last_name@,
            ItemFormField::Email => self.email@,
            ItemFormField::Phone => self.phone@,
        }
    }

    /// `other` holds the same form as `self` but for the text of `field`.
    pub open spec fn same_except_field(&self, other: &ItemForm, field: ItemFormField) -> bool {
        &&& other.mode == self.mode
        &&& other.kind == self.kind
        &&& other.focus == self.focus
        &&& other.password_revealed == self.password_revealed
        &&& other.generator_open == self.generator_open
        &&& other.error == self.error
        &&& forall|f: ItemFormField| f != field ==> #[trigger] other.value_spec(f) == self.value_spec(f)
    }

    /// An empty form for a new login, focused on its name.
    pub open spec fn is_blank(&self) -> bool {
        &&& self.mode is Create
        &&& self.kind == ItemKind::Login
        &&& self.focus == ItemFormField::Name
        &&& !self.password_revealed
        &&& !self.generator_open
        &&& self.error is None
        &&& forall|f: ItemFormField| (#[trigger] self.value_spec(f)).len() == 0
    }

    pub fn new() -> (r: ItemForm)
        ensures
            r.is_blank(),
    {
        ItemForm {
            mode: ItemFormMode::Create,
            kind: ItemKind::Login,
            focus: ItemFormField::Name,
            name: String::new(),
            username: String::new(),
            password: String::new(),
            password_revealed: false,
            notes: String::new(),
            cardholder_name: String::new(),
            brand: String::new(),
            number: String::new(),
            exp_month: String::new(),
            exp_year: String::new(),
            code: String::new(),
            first_name: String::new(),
            last_name: String::new(),
            email: String::new(),
            phone: String::new(),
            generator_open: false,
            error: None,
        }
    }

    /// The form that edits `item`: its texts filled from the item, the
    /// password left empty.
    pub open spec fn edits(&self, item: Item) -> bool {
        &&& self.mode is Edit && self.mode->id@ == item.id@
        &&& self.kind == ItemKind::from_item_type_spec(item.item_type)
        &&& self.focus == ItemFormField::Name
        &&& !self.password_revealed
        &&& !self.generator_open
        &&& self.error is None
        &&& self.name@ == item.name@
        &&& self.username@ == (match item.username_spec() { Some(u) => u, None => Seq::empty() })
        &&& self.password@.len() == 0
        &&& self.notes@ == or_empty(item.notes)
        &&& self.cardholder_name@ == (match item.card { Some(c) => or_empty(c.cardholder_name), None => Seq::empty() })
        &&& self.brand@ == (match item.card { Some(c) => or_empty(c.brand), None => Seq::empty() })
        &&& self.number@ == (match item.card { Some(c) => or_empty(c.number), None => Seq::empty() })
        &&& self.exp_month@ == (match item.card { Some(c) => or_empty(c.exp_month), None => Seq::empty() })
        &&& self.exp_year@ == (match item.card { Some(c) => or_empty(c.exp_year), None => Seq::empty() })
        &&& self.code@ == (match item.card { Some(c) => or_empty(c.code), None => Seq::empty() })
        &&& self.first_name@ == (match item.identity { Some(i) => or_empty(i.first_name), None => Seq::empty() })
        &&& self.last_name@ == (match item.identity { Some(i) => or_empty(i.last_name), None => Seq::empty() })
        &&& self.email@ == (match item.identity { Some(i) => or_empty(i.email), None => Seq::empty() })
        &&& self.phone@ == (match item.identity { Some(i) => or_empty(i.phone), None => Seq::empty() })
    }

    pub fn for_editing(item: &Item) -> (r: ItemForm)
        ensures
            r.edits(*item),
    {
        let (cardholder_name, brand, number, exp_month, exp_year, code) = match &item.card {
            Some(c) => (
                text_or_empty(&c.cardholder_name),
                text_or_empty(&c.brand),
                text_or_empty(&c.number),
                text_or_empty(&c.exp_month),
                text_or_empty(&c.exp_year),
                text_or_empty(&c.code),
            ),
            None => (String::new(), String::new(), String::new(), String::new(), String::new(), String::new()),
        };
        let (first_name, last_name, email, phone) = match &item.identity {
            Some(i) => (
                text_or_empty(&i.first_name),
                text_or_empty(&i.last_name),
                text_or_empty(&i.email),
                text_or_empty(&i.phone),
            ),
            None => (String::new(), String::new(), String::new(), String::new()),
        };
        let username = match item.username() {
            Some(u) => to_string(u),
            None => String::new(),
        };
        ItemForm {
            mode: ItemFormMode::Edit { id: item.id.clone() },
            kind: ItemKind::from_item_type(item.item_type),
            focus: ItemFormField::Name,
            name: item.name.clone(),
            username,
            password: String::new(),
            password_revealed: false,
            notes: text_or_empty(&item.notes),
            cardholder_name,
            brand,
            number,
            exp_month,
            exp_year,
            code,
            first_name,
            last_name,
            email,
            phone,
            generator_open: false,
            error: None,
        }
    }

    /// The focus `delta` places after the current one among the fields of
    /// the form's kind, wrapping around; a focus outside those fields counts
    /// as the first.
    pub open spec fn cycled_focus(self, delta: i32) -> ItemFormField {
        let fields = self.kind.fields_spec();
        let current = if fields.contains(self.focus) { fields.index_of(self.focus) } else { 0 };
        fields[(current + delta as int) % (fields.len() as int)]
    }

    /// Moves the focus `delta` places through the fields of the form's kind.
    pub fn cycle_focus(&mut self, delta: i32)
        ensures
            *final(self) == (ItemForm { focus: old(self).cycled_focus(delta), ..*old(self) }),
    {
        let fields = self.kind.fields();
        let mut current: usize = 0;
        let mut k: usize = 0;
        let mut found = false;
        while k < fields.len()
            invariant
                k <= fields@.len(),
                fields@ == self.kind.fields_spec(),
                !found ==> current == 0 && forall|m: int| 0 <= m < k ==> fields@[m] != self.focus,
                found ==> fields@.contains(self.focus) && current as int == fields@.index_of(self.focus),
            decreases fields@.len() - k,
        {
            if !found && fields[k] == self.focus {
                found = true;
                current = k;
                proof {
                    fields@.index_of_first_ensures(self.focus);
                    assert(fields@.contains(self.focus));
                }
            }
            k = k + 1;
        }
        proof {
            if !found {
                assert(!fields@.contains(self.focus));
            }
        }
        let pos = wrap_index(current, delta, fields.len());
        self.focus = fields[pos];
    }

    /// The text of the focused field, to be edited in place.
    pub fn focused_field_mut(&mut self) -> (r: &mut String)
        ensures
            *r == old(self).field_ref(old(self).focus),
            *final(self) == old(self).with_field(old(self).focus, *final(r)),
    {
        match self.focus {
            ItemFormField::Name => &mut self.name,
            ItemFormField::Username => &mut self.username,
            ItemFormField::Password => &mut self.password,
            ItemFormField::Notes => &mut self.notes,
            ItemFormField::CardholderName => &mut self.cardholder_name,
            ItemFormField::Brand => &mut self.brand,
            ItemFormField::Number => &mut self.number,
            ItemFormField::ExpMonth => &mut self.exp_month,
            ItemFormField::ExpYear => &mut self.exp_year,
            ItemFormField::Code => &mut self.code,
            ItemFormField::FirstName => &mut self.first_name,
            ItemFormField::LastName => &mut self.last_name,
            ItemFormField::Email => &mut self.email,
            ItemFormField::Phone => &mut self.phone,
        }
    }

    /// The string held in one field.
    pub open spec fn field_ref(&self, field: ItemFormField) -> String {
        match field {
            ItemFormField::Name => self.name,
            ItemFormField::Username => self.username,
            ItemFormField::Password => self.password,
            ItemFormField::Notes => self.notes,
            ItemFormField::CardholderName => self.cardholder_name,
            ItemFormField::Brand => self.brand,
            ItemFormField::Number => self.number,
            ItemFormField::ExpMonth => self.exp_month,
            ItemFormField::ExpYear => self.exp_year,
            ItemFormField::Code => self.code,
            ItemFormField::FirstName => self.first_name,
            ItemFormField::LastName => self.last_name,
            ItemFormField::Email => self.email,
            ItemFormField::Phone => self.phone,
        }
    }

    /// The form with one field's string replaced.
    pub open spec fn with_field(self, field: ItemFormField, s: String) -> ItemForm {
        match field {
            ItemFormField::Name => ItemForm { name: s, ..self },
            ItemFormField::Username => ItemForm { username: s, ..self },
            ItemFormField::Password => ItemForm { password: s, ..self },
            ItemFormField::Notes => ItemForm { notes: s, ..self },
            ItemFormField::CardholderName => ItemForm { cardholder_name: s, ..self },
            ItemFormField::Brand => ItemForm { brand: s, ..self },
            ItemFormField::Number => ItemForm { number: s, ..self },
            ItemFormField::ExpMonth => ItemForm { exp_month: s, ..self },
            ItemFormField::ExpYear => ItemForm { exp_year: s, ..self },
            ItemFormField::Code => ItemForm { code: s, ..self },
            ItemFormField::FirstName => ItemForm { first_name: s, ..self },
            ItemFormField::LastName => ItemForm { last_name: s, ..self },
            ItemFormField::Email => ItemForm { email: s, ..self },
            ItemFormField::Phone => ItemForm { phone: s, ..self },
        }
    }

    pub fn field_value(&self, field: ItemFormField) -> (r: &str)
        ensures
            r@ == self.value_spec(field),
    {
        match field {
            ItemFormField::Name => self.name.as_str(),
            ItemFormField::Username => self.username.as_str(),
            ItemFormField::Password => self.password.as_str(),
            ItemFormField::Notes => self.notes.as_str(),
            ItemFormField::CardholderName => self.cardholder_name.as_str(),
            ItemFormField::Brand => self.brand.as_str(),
            ItemFormField::Number => self.number.as_str(),
            ItemFormField::ExpMonth => self.exp_month.as_str(),
            ItemFormField::ExpYear => self.exp_year.as_str(),
            ItemFormField::Code => self.code.as_str(),
            ItemFormField::FirstName => self.first_name.as_str(),
            ItemFormField::LastName => self.last_name.as_str(),
            ItemFormField::Email => self.email.as_str(),
            ItemFormField::Phone => self.phone.as_str(),
        }
    }

    /// Typing `c` into the focused field, unless the field is full; typing
    /// into the password hides it again.
    pub open spec fn type_char_post(self, after: ItemForm, c: char) -> bool {
        let f = self.focus;
        let text = self.value_spec(f);
        let fits = match f.max_len_spec() { Some(max) => text.len() < max, None => true };
        &&& after.value_spec(f) == (if fits { text.push(c) } else { text })
        &&& after.password_revealed == (self.password_revealed && f != ItemFormField::Password)
        &&& (ItemForm { password_revealed: self.password_revealed, ..after }).same_except_field(&self, f)
    }

    /// Types one character into the focused field.
    pub fn type_char(&mut self, c: char)
        ensures
            old(self).type_char_post(*final(self), c),
    {
        if self.focus == ItemFormField::Password {
            self.password_revealed = false;
        }
        let focus = self.focus;
        let ghost before = *self;
        let field = self.focused_field_mut();
        let within_limit = match focus.max_len() {
            Some(max) => field.unicode_len() < max,
            None => true,
        };
        if within_limit {
            push_char(field, c);
        }
        proof {
            assert(self.focus == focus);
            assert forall|f: ItemFormField| f != focus implies #[trigger] self.value_spec(f) == before.value_spec(f) by {}
        }
    }

    /// Deleting the last character of the focused field; editing the
    /// password hides it again.
    pub open spec fn backspace_post(self, after: ItemForm) -> bool {
        let f = self.focus;
        let text = self.value_spec(f);
        &&& after.value_spec(f) == (if text.len() > 0 { text.drop_last() } else { text })
        &&& after.password_revealed == (self.password_revealed && f != ItemFormField::Password)
        &&& (ItemForm { password_revealed: self.password_revealed, ..after }).same_except_field(&self, f)
    }

    /// Deletes the last character of the focused field.
    pub fn backspace(&mut self)
        ensures
            old(self).backspace_post(*final(self)),
    {
        if self.focus == ItemFormField::Password {
            self.password_revealed = false;
        }
        let focus = self.focus;
        let ghost before = *self;
        let field = self.focused_field_mut();
        let _ = pop_char(field);
        proof {
            assert forall|f: ItemFormField| f != focus implies #[trigger] self.value_spec(f) == before.value_spec(f) by {}
        }
    }
}

/// The text of an optional string, or an empty string.
pub fn text_or_empty(o: &Option<String>) -> (r: String)
    ensures
        r@ == or_empty(*o),
{
    match o {
        Some(s) => s.clone(),
        None => String::new(),
    }
}

} // verus!
