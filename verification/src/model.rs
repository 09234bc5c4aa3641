//! The vault's data: items as the `bw` client lists them, the payloads sent
//! to create or edit one, and the results of the chained client operations.
use vstd::prelude::*;
use crate::text::{
    concat, join, join_spec, push_char, to_string, views,
};

verus! {

/// The view of an optional string.
pub open spec fn opt_view(o: Option<String>) -> Option<Seq<char>> {
    match o {
        Some(s) => Some(s@),
        None => None,
    }
}

/// The view of an optional string slice.
pub open spec fn opt_str_view(o: Option<&str>) -> Option<Seq<char>> {
    match o {
        Some(s) => Some(s@),
        None => None,
    }
}

/// An optional string, or the empty string when absent.
pub open spec fn or_empty(o: Option<String>) -> Seq<char> {
    match o {
        Some(s) => s@,
        None => Seq::empty(),
    }
}

/// Copies an optional string slice into an optional `String`.
pub fn opt_to_string(o: Option<&str>) -> (r: Option<String>)
    ensures
        opt_view(r) == opt_str_view(o),
{
    match o {
        Some(s) => Some(to_string(s)),
        None => None,
    }
}

/// Clones an optional string.
pub fn clone_opt(o: &Option<String>) -> (r: Option<String>)
    ensures
        opt_view(r) == opt_view(*o),
{
    match o {
        Some(s) => Some(s.clone()),
        None => None,
    }
}

/// A URI attached to a login.
#[derive(Debug, Clone)]
pub struct UriData {
    pub uri: Option<String>,
}

/// The login part of an item.
#[derive(Debug, Clone)]
pub struct LoginData {
    pub username: Option<String>,
    pub password: Option<String>,
    pub totp: Option<String>,
    pub uris: Option<Vec<UriData>>,
}

/// The card part of an item.
#[derive(Debug, Clone)]
pub struct CardData {
    pub cardholder_name: Option<String>,
    pub brand: Option<String>,
    pub number: Option<String>,
    pub exp_month: Option<String>,
    pub exp_year: Option<String>,
    pub code: Option<String>,
}

/// The identity part of an item.
#[derive(Debug, Clone)]
pub struct IdentityData {
    pub first_name: Option<String>,
    pub last_name: Option<String>,
    pub email: Option<String>,
    pub phone: Option<String>,
}

/// A custom field of an item; type 1 marks a hidden field.
#[derive(Debug, Clone)]
pub struct CustomField {
    pub name: Option<String>,
    pub value: Option<String>,
    pub field_type: u8,
}

/// One vault item. `item_type` is 1 for a login, 2 for a secure note, 3 for
/// a card and 4 for an identity.
#[derive(Debug, Clone)]
pub struct Item {
    pub id: String,
    pub name: String,
    pub item_type: u8,
    pub login: Option<LoginData>,
    pub card: Option<CardData>,
    pub identity: Option<IdentityData>,
    pub fields: Option<Vec<CustomField>>,
    pub notes: Option<String>,
    pub folder_id: Option<String>,
}

/// The label shown for an item type.
pub open spec fn type_label_spec(item_type: u8) -> Seq<char> {
    if item_type == 1 {
        "login"@
    } else if item_type == 2 {
        "note"@
    } else if item_type == 3 {
        "card"@
    } else if item_type == 4 {
        "identity"@
    } else {
        "?"@
    }
}

/// The icon (a Nerd Font glyph) shown for an item type.
pub open spec fn type_icon_spec(item_type: u8) -> Seq<char> {
    if item_type == 1 {
        "\u{f084}"@
    } else if item_type == 2 {
        "\u{f249}"@
    } else if item_type == 3 {
        "\u{f09d}"@
    } else if item_type == 4 {
        "\u{f2bb}"@
    } else {
        "?"@
    }
}

/// What a custom field shows: its name (or "(unnamed)") and its value, with
/// hidden fields masked.
pub open spec fn visible_field_spec(f: CustomField) -> (Seq<char>, Seq<char>) {
    (
        match f.name {
            Some(n) => n@,
            None => "(unnamed)"@,
        },
        if f.field_type == 1 {
            "••••••••"@
        } else {
            or_empty(f.value)
        },
    )
}

/// The parts of an identity summary: the full name when not empty, then the
/// email and the phone when present.
pub open spec fn identity_parts(i: IdentityData) -> Seq<Seq<char>> {
    let names = (if i.first_name is Some { seq![i.first_name->0@] } else { Seq::<Seq<char>>::empty() })
        + (if i.last_name is Some { seq![i.last_name->0@] } else { Seq::<Seq<char>>::empty() });
    let name = join_spec(names, " "@);
    (if name.len() > 0 { seq![name] } else { Seq::<Seq<char>>::empty() })
        + (if i.email is Some { seq![i.email->0@] } else { Seq::<Seq<char>>::empty() })
        + (if i.phone is Some { seq![i.phone->0@] } else { Seq::<Seq<char>>::empty() })
}

impl Item {
    /// The username of a login, if any.
    pub open spec fn username_spec(&self) -> Option<Seq<char>> {
        match self.login {
            Some(l) => opt_view(l.username),
            None => None,
        }
    }

    /// The first URI of a login, if any.
    pub open spec fn first_uri_spec(&self) -> Option<Seq<char>> {
        match self.login {
            Some(l) => match l.uris {
                Some(uris) => if uris@.len() > 0 {
                    opt_view(uris@[0].uri)
                } else {
                    None
                },
                None => None,
            },
            None => None,
        }
    }

    /// Whether the item is a login with a TOTP seed.
    pub open spec fn has_totp_spec(&self) -> bool {
        self.login is Some && self.login->0.totp is Some
    }

    /// The identity summary: the parts joined by " · ", or nothing when the
    /// item has no identity or the identity has no part.
    pub open spec fn identity_summary_spec(&self) -> Option<Seq<char>> {
        match self.identity {
            Some(i) => if identity_parts(i).len() == 0 {
                None
            } else {
                Some(join_spec(identity_parts(i), " · "@))
            },
            None => None,
        }
    }

    /// The notes, when present and not empty.
    pub open spec fn notes_spec(&self) -> Option<Seq<char>> {
        match self.notes {
            Some(n) => if n@.len() > 0 { Some(n@) } else { None },
            None => None,
        }
    }

    /// The card number, when the item has a card with a number.
    pub open spec fn card_number_spec(&self) -> Option<Seq<char>> {
        match self.card {
            Some(c) => opt_view(c.number),
            None => None,
        }
    }

    /// The card code, when the item has a card with a code.
    pub open spec fn card_code_spec(&self) -> Option<Seq<char>> {
        match self.card {
            Some(c) => opt_view(c.code),
            None => None,
        }
    }

    pub fn username(&self) -> (r: Option<&str>)
        ensures
            opt_str_view(r) == self.username_spec(),
    {
        match &self.login {
            Some(l) => match &l.username {
                Some(u) => Some(u.as_str()),
                None => None,
            },
            None => None,
        }
    }

    pub fn has_totp(&self) -> (r: bool)
        ensures
            r == self.has_totp_spec(),
    {
        match &self.login {
            Some(l) => l.totp.is_some(),
            None => false,
        }
    }

    pub fn first_uri(&self) -> (r: Option<&str>)
        ensures
            opt_str_view(r) == self.first_uri_spec(),
    {
        match &self.login {
            Some(l) => match &l.uris {
                Some(uris) => if uris.len() > 0 {
                    match &uris[0].uri {
                        Some(u) => Some(u.as_str()),
                        None => None,
                    }
                } else {
                    None
                },
                None => None,
            },
            None => None,
        }
    }

    pub fn type_label(&self) -> (r: &'static str)
        ensures
            r@ == type_label_spec(self.item_type),
    {
        if self.item_type == 1 {
            "login"
        } else if self.item_type == 2 {
            "note"
        } else if self.item_type == 3 {
            "card"
        } else if self.item_type == 4 {
            "identity"
        } else {
            "?"
        }
    }

    pub fn type_icon(&self) -> (r: &'static str)
        ensures
            r@ == type_icon_spec(self.item_type),
    {
        if self.item_type == 1 {
            "\u{f084}"
        } else if self.item_type == 2 {
            "\u{f249}"
        } else if self.item_type == 3 {
            "\u{f09d}"
        } else if self.item_type == 4 {
            "\u{f2bb}"
        } else {
            "?"
        }
    }

    pub fn identity_summary(&self) -> (r: Option<String>)
        ensures
            opt_view(r) == self.identity_summary_spec(),
    {
        let i = match &self.identity {
            Some(i) => i,
            None => return None,
        };
        let mut names: Vec<String> = Vec::new();
        if let Some(f) = &i.first_name {
            names.push(f.clone());
        }
        if let Some(l) = &i.last_name {
            names.push(l.clone());
        }
        let ghost first_part = if i.first_name is Some { seq![i.first_name->0@] } else { Seq::<Seq<char>>::empty() };
        let ghost last_part = if i.last_name is Some { seq![i.last_name->0@] } else { Seq::<Seq<char>>::empty() };
        assert(views(names@) =~= first_part + last_part);
        let name = join(&names, " ");
        let mut parts: Vec<String> = Vec::new();
        if name.unicode_len() > 0 {
            parts.push(name);
        }
        if let Some(e) = &i.email {
            parts.push(e.clone());
        }
        if let Some(p) = &i.phone {
            parts.push(p.clone());
        }
        assert(views(parts@) =~= identity_parts(*i));
        if parts.len() == 0 {
            None
        } else {
            Some(join(&parts, " · "))
        }
    }

    pub fn visible_fields(&self) -> (r: Vec<(String, String)>)
        ensures
            self.fields is None ==> r@.len() == 0,
            self.fields is Some ==> r@.len() == self.fields->0@.len(),
            self.fields is Some ==> forall|k: int| 0 <= k < r@.len() ==>
                (#[trigger] r@[k]).0@ == visible_field_spec(self.fields->0@[k]).0
                && r@[k].1@ == visible_field_spec(self.fields->0@[k]).1,
    {
        let mut out: Vec<(String, String)> = Vec::new();
        let fields = match &self.fields {
            Some(f) => f,
            None => return out,
        };
        let mut k: usize = 0;
        while k < fields.len()
            invariant
                k <= fields@.len(),
                out@.len() == k,
                forall|m: int| 0 <= m < k ==>
                    (#[trigger] out@[m]).0@ == visible_field_spec(fields@[m]).0
                    && out@[m].1@ == visible_field_spec(fields@[m]).1,
            decreases fields@.len() - k,
        {
            let f = &fields[k];
            let name = match &f.name {
                Some(n) => n.clone(),
                None => to_string("(unnamed)"),
            };
            let value = if f.field_type == 1 {
                to_string("••••••••")
            } else {
                match &f.value {
                    Some(v) => v.clone(),
                    None => String::new(),
                }
            };
            out.push((name, value));
            k = k + 1;
        }
        out
    }
}

// ---- Create/edit payloads -------------------------------------------------

/// The login part of a new or edited item.
#[derive(Debug, Clone, Default)]
pub struct NewLogin {
    pub username: Option<String>,
    pub password: Option<String>,
}

/// The identity part of a new or edited item.
#[derive(Debug, Clone, Default)]
pub struct NewIdentity {
    pub first_name: Option<String>,
    pub last_name: Option<String>,
    pub email: Option<String>,
    pub phone: Option<String>,
}

/// The card part of a new or edited item.
#[derive(Debug, Clone, Default)]
pub struct NewCard {
    pub cardholder_name: Option<String>,
    pub brand: Option<String>,
    pub number: Option<String>,
    pub exp_month: Option<String>,
    pub exp_year: Option<String>,
    pub code: Option<String>,
}

/// The secure-note marker of a new note.
#[derive(Debug, Clone)]
pub struct SecureNoteData {
    pub note_type: u8,
}

/// A new item as `bw create item` takes it.
#[derive(Debug, Clone)]
pub struct NewItem {
    pub folder_id: Option<String>,
    pub item_type: u8,
    pub name: String,
    pub notes: Option<String>,
    pub login: Option<NewLogin>,
    pub card: Option<NewCard>,
    pub identity: Option<NewIdentity>,
    pub secure_note: Option<SecureNoteData>,
}

/// The fields of an existing item that an edit replaces.
#[derive(Debug, Clone)]
pub struct ItemPatch {
    pub name: String,
    pub notes: Option<String>,
    pub folder_id: Option<String>,
    pub login: Option<NewLogin>,
    pub card: Option<NewCard>,
    pub identity: Option<NewIdentity>,
}

/// A folder; the folder without an id stands for "no folder".
#[derive(Debug, Clone)]
pub struct Folder {
    pub id: Option<String>,
    pub name: String,
}

/// What `bw status` reports.
#[derive(Debug, Clone)]
pub struct Status {
    pub server_url: Option<String>,
    pub last_sync: Option<String>,
    pub user_email: Option<String>,
    pub status: String,
}

/// The outcome of `bw login`.
pub enum LoginOutcome {
    Success(String),
    TwoFactorRequired,
}

/// A session key with the items and folders it unlocked.
pub struct VaultLoad {
    pub key: String,
    pub ts: u64,
    pub items: Vec<Item>,
    pub folders: Vec<Folder>,
}

/// Items and folders listed again.
pub struct ItemsLoad {
    pub items: Vec<Item>,
    pub folders: Vec<Folder>,
}

/// The state after a sync: the status, when it could be read, and the
/// items and folders listed again.
pub struct SyncLoad {
    pub status: Option<Status>,
    pub items: Vec<Item>,
    pub folders: Vec<Folder>,
}

/// The outcome of logging in and loading the vault.
pub enum LoginFlowResult {
    LoggedIn(VaultLoad),
    TwoFactorRequired,
}

/// Which screen the program opens on.
pub enum StartOutcome {
    Vault(VaultLoad),
    NeedsServerConfig(Status),
    NeedsUnlock(Status),
    Error(String),
}

/// The options of the password generator.
#[derive(Debug, Clone, Copy, PartialEq, Eq)]
pub struct GenerateOptions {
    pub length: u8,
    pub uppercase: bool,
    pub lowercase: bool,
    pub numbers: bool,
    pub special: bool,
}

impl GenerateOptions {
    /// The options the generator starts with: 20 characters of upper- and
    /// lowercase letters and digits.
    pub open spec fn default_spec() -> GenerateOptions {
        GenerateOptions { length: 20, uppercase: true, lowercase: true, numbers: true, special: false }
    }
}

impl Default for GenerateOptions {
    fn default() -> (r: Self)
        ensures
            r == GenerateOptions::default_spec(),
    {
        GenerateOptions { length: 20, uppercase: true, lowercase: true, numbers: true, special: false }
    }
}

} // verus!
