//! The `bw` client's command lines and how its output is read.
//!
//! The driver runs the commands; the library says which arguments each one
//! takes, and what its exit status and output mean.
use vstd::prelude::*;
use crate::model::{opt_view, GenerateOptions, ItemPatch, LoginOutcome};
use crate::text::{
    chars_of, concat, is_white_space, contains, contains_spec, push_char, string_from_chars, to_lowercase, to_string,
    trim, trim_spec, u64_to_decimal, decimal, unicode_lowercase, unicode_white_space, views,
};

verus! {

// ---- the configured command -------------------------------------------------

/// The words of `s`: its maximal runs of non-whitespace characters, read
/// from position `i` with the word `cur` in progress.
pub open spec fn words_from(s: Seq<char>, i: int, cur: Seq<char>) -> Seq<Seq<char>>
    decreases s.len() - i,
{
    if i >= s.len() {
        if cur.len() > 0 { seq![cur] } else { Seq::empty() }
    } else if unicode_white_space(s[i]) {
        (if cur.len() > 0 { seq![cur] } else { Seq::empty() }) + words_from(s, i + 1, Seq::empty())
    } else {
        words_from(s, i + 1, cur.push(s[i]))
    }
}

/// The words of `s`, as `str::split_whitespace` gives them.
pub open spec fn words(s: Seq<char>) -> Seq<Seq<char>> {
    words_from(s, 0, Seq::empty())
}

/// `str::split_whitespace`, computed character by character.
pub fn split_words(s: &str) -> (r: Vec<String>)
    ensures
        views(r@) == words(s@),
{
    let chars = chars_of(s);
    let mut out: Vec<String> = Vec::new();
    let mut cur = String::new();
    let mut i: usize = 0;
    while i < chars.len()
        invariant
            chars@ == s@,
            i <= chars@.len(),
            views(out@) + words_from(s@, i as int, cur@) == words(s@),
        decreases chars@.len() - i,
    {
        let c = chars[i];
        if is_white_space(c) {
            if cur.unicode_len() > 0 {
                let ghost before = out@;
                out.push(cur);
                assert(views(out@) =~= views(before) + seq![views(out@).last()]);
                cur = String::new();
            }
            proof {
                assert(views(out@) + words_from(s@, i + 1, cur@) == words(s@)) by {
                    assert(cur@ == Seq::<char>::empty());
                }
            }
        } else {
            push_char(&mut cur, c);
        }
        i = i + 1;
    }
    if cur.unicode_len() > 0 {
        let ghost before = out@;
        out.push(cur);
        assert(views(out@) =~= views(before) + seq![views(out@).last()]);
    }
    assert(views(out@) =~= words(s@));
    out
}

/// How to run the client: the configured command's first word (or `bw`
/// when it has none) and its other words as leading arguments.
pub fn bw_command_parts(bw_cmd: &str) -> (r: (String, Vec<String>))
    ensures
        words(bw_cmd@).len() == 0 ==> r.0@ == "bw"@ && r.1@.len() == 0,
        words(bw_cmd@).len() > 0 ==> r.0@ == words(bw_cmd@)[0] && views(r.1@) == words(bw_cmd@).drop_first(),
{
    let mut parts = split_words(bw_cmd);
    if parts.len() == 0 {
        return (to_string("bw"), parts);
    }
    let ghost all = views(parts@);
    let program = parts.remove(0);
    assert(views(parts@) =~= all.drop_first());
    (program, parts)
}

// ---- arguments ------------------------------------------------------------

/// The name of the environment variable that carries the master password.
pub open spec fn password_env_spec() -> Seq<char> {
    "BW_TUI_PASSWORD"@
}

pub fn password_env() -> (r: String)
    ensures
        r@ == password_env_spec(),
{
    to_string("BW_TUI_PASSWORD")
}

fn strs(a: &str, b: &str) -> (r: Vec<String>)
    ensures
        views(r@) == seq![a@, b@],
{
    let r = vec![to_string(a), to_string(b)];
    assert(views(r@) =~= seq![a@, b@]);
    r
}

fn push_str(v: &mut Vec<String>, s: &str)
    ensures
        views(final(v)@) == views(old(v)@).push(s@),
{
    v.push(to_string(s));
    assert(views(v@) =~= views(old(v)@).push(s@));
}

fn push_string(v: &mut Vec<String>, s: String)
    ensures
        views(final(v)@) == views(old(v)@).push(s@),
{
    let ghost sv = s@;
    v.push(s);
    assert(views(v@) =~= views(old(v)@).push(sv));
}

/// `bw unlock --raw --passwordenv BW_TUI_PASSWORD` (the password goes in that variable).
pub fn unlock_args() -> (r: Vec<String>)
    ensures
        views(r@) == seq!["unlock"@, "--raw"@, "--passwordenv"@, password_env_spec()],
{
    let mut v = strs("unlock", "--raw");
    push_str(&mut v, "--passwordenv");
    push_str(&mut v, "BW_TUI_PASSWORD");
    v
}

/// `bw <words...> --session <session>`.
fn with_session(v: &mut Vec<String>, session: &str)
    ensures
        views(final(v)@) == views(old(v)@) + seq!["--session"@, session@],
{
    push_str(v, "--session");
    push_str(v, session);
    assert(views(v@) =~= views(old(v)@) + seq!["--session"@, session@]);
}

/// `bw list items --session <session>`.
pub fn list_items_args(session: &str) -> (r: Vec<String>)
    ensures
        views(r@) == seq!["list"@, "items"@, "--session"@, session@],
{
    let mut v = strs("list", "items");
    with_session(&mut v, session);
    v
}

/// `bw list folders --session <session>`.
pub fn list_folders_args(session: &str) -> (r: Vec<String>)
    ensures
        views(r@) == seq!["list"@, "folders"@, "--session"@, session@],
{
    let mut v = strs("list", "folders");
    with_session(&mut v, session);
    v
}

/// What `base64::engine::general_purpose::STANDARD.encode` returns for the
/// UTF-8 bytes of a text.
pub uninterp spec fn base64_standard(text: Seq<char>) -> Seq<char>;

/// `STANDARD.encode` of base64 (padded standard alphabet), applied to the
/// UTF-8 bytes of `text`; its result is named `base64_standard`.
#[verifier::external_body]
fn base64_encode(text: &str) -> (r: String)
    ensures
        r@ == base64_standard(text@),
{
    base64::Engine::encode(&base64::engine::general_purpose::STANDARD, text)
}

/// `bw create item <base64 of the item's JSON> --session <session>`.
pub fn create_item_args(item_json: &str, session: &str) -> (r: Vec<String>)
    ensures
        views(r@) == seq!["create"@, "item"@, base64_standard(item_json@), "--session"@, session@],
{
    let mut v = strs("create", "item");
    push_string(&mut v, base64_encode(item_json));
    with_session(&mut v, session);
    v
}

/// `bw get item <id> --session <session>`.
pub fn get_item_args(id: &str, session: &str) -> (r: Vec<String>)
    ensures
        views(r@) == seq!["get"@, "item"@, id@, "--session"@, session@],
{
    let mut v = strs("get", "item");
    push_str(&mut v, id);
    with_session(&mut v, session);
    v
}

/// `bw edit item <id> <base64 of the edited JSON> --session <session>`.
pub fn edit_item_args(id: &str, item_json: &str, session: &str) -> (r: Vec<String>)
    ensures
        views(r@) == seq!["edit"@, "item"@, id@, base64_standard(item_json@), "--session"@, session@],
{
    let mut v = strs("edit", "item");
    push_str(&mut v, id);
    push_string(&mut v, base64_encode(item_json));
    with_session(&mut v, session);
    v
}

/// `bw get password <id> --session <session>`.
pub fn get_password_args(id: &str, session: &str) -> (r: Vec<String>)
    ensures
        views(r@) == seq!["get"@, "password"@, id@, "--session"@, session@],
{
    let mut v = strs("get", "password");
    push_str(&mut v, id);
    with_session(&mut v, session);
    v
}

/// `bw get totp <id> --session <session>`.
pub fn get_totp_args(id: &str, session: &str) -> (r: Vec<String>)
    ensures
        views(r@) == seq!["get"@, "totp"@, id@, "--session"@, session@],
{
    let mut v = strs("get", "totp");
    push_str(&mut v, id);
    with_session(&mut v, session);
    v
}

/// `bw config server <url>`.
pub fn config_server_args(url: &str) -> (r: Vec<String>)
    ensures
        views(r@) == seq!["config"@, "server"@, url@],
{
    let mut v = strs("config", "server");
    push_str(&mut v, url);
    v
}

/// `bw sync --session <session>`.
pub fn sync_args(session: &str) -> (r: Vec<String>)
    ensures
        views(r@) == seq!["sync"@, "--session"@, session@],
{
    let mut v: Vec<String> = Vec::new();
    push_str(&mut v, "sync");
    with_session(&mut v, session);
    assert(views(v@) =~= seq!["sync"@, "--session"@, session@]);
    v
}

/// `bw login <email> --raw --passwordenv BW_TUI_PASSWORD`, followed by
/// `--method <m> --code <c>` when a two-step method and code are given.
pub fn login_args(email: &str, two_factor: Option<(&str, &str)>) -> (r: Vec<String>)
    ensures
        two_factor is None ==> views(r@) == seq!["login"@, email@, "--raw"@, "--passwordenv"@, password_env_spec()],
        two_factor matches Some(tf) ==> views(r@) == seq![
            "login"@, email@, "--raw"@, "--passwordenv"@, password_env_spec(),
            "--method"@, tf.0@, "--code"@, tf.1@,
        ],
{
    let mut v = strs("login", email);
    push_str(&mut v, "--raw");
    push_str(&mut v, "--passwordenv");
    push_str(&mut v, "BW_TUI_PASSWORD");
    match two_factor {
        Some((method, code)) => {
            push_str(&mut v, "--method");
            push_str(&mut v, method);
            push_str(&mut v, "--code");
            push_str(&mut v, code);
        },
        None => {},
    }
    v
}

/// The length `bw generate` is asked for: at least 5.
pub open spec fn generate_length(opts: GenerateOptions) -> u8 {
    if opts.length < 5 { 5 } else { opts.length }
}

/// `bw generate --length <n>` with a flag for each character set chosen.
pub fn generate_args(opts: &GenerateOptions) -> (r: Vec<String>)
    ensures
        views(r@) == seq!["generate"@, "--length"@, decimal(generate_length(*opts) as nat)]
            + (if opts.uppercase { seq!["--uppercase"@] } else { Seq::empty() })
            + (if opts.lowercase { seq!["--lowercase"@] } else { Seq::empty() })
            + (if opts.numbers { seq!["--number"@] } else { Seq::empty() })
            + (if opts.special { seq!["--special"@] } else { Seq::empty() }),
{
    let length: u8 = if opts.length < 5 { 5 } else { opts.length };
    let mut v = strs("generate", "--length");
    push_string(&mut v, u64_to_decimal(length as u64));
    let ghost base = views(v@);
    if opts.uppercase {
        push_str(&mut v, "--uppercase");
    }
    let ghost a = views(v@);
    assert(a =~= base + (if opts.uppercase { seq!["--uppercase"@] } else { Seq::empty() }));
    if opts.lowercase {
        push_str(&mut v, "--lowercase");
    }
    let ghost b = views(v@);
    assert(b =~= a + (if opts.lowercase { seq!["--lowercase"@] } else { Seq::empty() }));
    if opts.numbers {
        push_str(&mut v, "--number");
    }
    let ghost c = views(v@);
    assert(c =~= b + (if opts.numbers { seq!["--number"@] } else { Seq::empty() }));
    if opts.special {
        push_str(&mut v, "--special");
    }
    assert(views(v@) =~= c + (if opts.special { seq!["--special"@] } else { Seq::empty() }));
    v
}

// ---- output ---------------------------------------------------------------

/// The error for a failed command: a description and the trimmed error output.
pub open spec fn failure_spec(what: Seq<char>, stderr: Seq<char>) -> Seq<char> {
    what + trim_spec(stderr)
}

/// The error for a failed command, e.g. `"could not sync: " + stderr`.
pub fn failure(what: &str, stderr: &str) -> (r: String)
    ensures
        r@ == failure_spec(what@, stderr@),
{
    let t = trim(stderr);
    concat(what, t.as_str())
}

/// What a command that prints one value (a password, a code, a key)
/// printed: its trimmed output.
pub fn printed_value(stdout: &str) -> (r: String)
    ensures
        r@ == trim_spec(stdout@),
{
    trim(stdout)
}

/// The session key `bw unlock --raw` printed; an empty answer means a
/// wrong master password.
pub fn unlock_key(success: bool, stdout: &str, stderr: &str) -> (r: Result<String, String>)
    ensures
        !success ==> (r matches Err(e) && e@ == failure_spec("bw unlock failed: "@, stderr@)),
        success && trim_spec(stdout@).len() == 0 ==> (r matches Err(e) && e@ == "wrong master password"@),
        success && trim_spec(stdout@).len() > 0 ==> (r matches Ok(k) && k@ == trim_spec(stdout@)),
{
    if !success {
        return Err(failure("bw unlock failed: ", stderr));
    }
    let key = trim(stdout);
    if key.unicode_len() == 0 {
        Err(to_string("wrong master password"))
    } else {
        Ok(key)
    }
}

/// Whether `bw login`'s error output asks for a two-step code.
pub open spec fn asks_for_two_factor(stderr: Seq<char>) -> bool {
    let lower = unicode_lowercase(stderr);
    contains_spec(lower, "two-step"@) || contains_spec(lower, "two factor"@) || contains_spec(lower, "2fa"@)
}

/// What a finished `bw login` means: a session key, a request for a
/// two-step code, or an error.
pub fn login_outcome(success: bool, stdout: &str, stderr: &str) -> (r: Result<LoginOutcome, String>)
    ensures
        !success && asks_for_two_factor(stderr@) ==> (r matches Ok(LoginOutcome::TwoFactorRequired)),
        !success && !asks_for_two_factor(stderr@) ==> (r matches Err(e) && e@ == failure_spec("bw login failed: "@, stderr@)),
        success && trim_spec(stdout@).len() == 0 ==> (r matches Err(e) && e@ == "could not log in"@),
        success && trim_spec(stdout@).len() > 0 ==> (r matches Ok(LoginOutcome::Success(k)) && k@ == trim_spec(stdout@)),
{
    if !success {
        let lower = to_lowercase(stderr);
        if contains(lower.as_str(), "two-step") || contains(lower.as_str(), "two factor") || contains(lower.as_str(), "2fa") {
            return Ok(LoginOutcome::TwoFactorRequired);
        }
        return Err(failure("bw login failed: ", stderr));
    }
    let key = trim(stdout);
    if key.unicode_len() == 0 {
        Err(to_string("could not log in"))
    } else {
        Ok(LoginOutcome::Success(key))
    }
}

/// How many seconds `bw login` may run: its prompts open the terminal
/// directly, so one that waits for an answer would otherwise hang.
pub const LOGIN_TIMEOUT_SECS: u64 = 20;

/// What a `bw login` that did not answer in time means: on the first try
/// it is waiting for a two-step code; with a code it is an error.
pub fn login_timed_out(code_given: bool) -> (r: Result<LoginOutcome, String>)
    ensures
        !code_given ==> (r matches Ok(LoginOutcome::TwoFactorRequired)),
        code_given ==> (r matches Err(e) && e@ == "bw login timed out waiting for a response"@),
{
    if code_given {
        Err(to_string("bw login timed out waiting for a response"))
    } else {
        Ok(LoginOutcome::TwoFactorRequired)
    }
}

// ---- editing an item's JSON -----------------------------------------------

/// One change an edit makes to the item's JSON as `bw get item` returns it.
pub enum JsonEdit {
    /// Set a top-level key to a string, or to `null`.
    SetTop { key: String, value: Option<String> },
    /// Make sure the object under `section` exists (an empty one if missing).
    Section { section: String },
    /// Set a key of the object under `section` to a string.
    SetInSection { section: String, key: String, value: String },
}

/// The view of a JSON change.
pub enum JsonEditView {
    SetTop { key: Seq<char>, value: Option<Seq<char>> },
    Section { section: Seq<char> },
    SetInSection { section: Seq<char>, key: Seq<char>, value: Seq<char> },
}

pub open spec fn edit_view(e: JsonEdit) -> JsonEditView {
    match e {
        JsonEdit::SetTop { key, value } => JsonEditView::SetTop { key: key@, value: opt_view(value) },
        JsonEdit::Section { section } => JsonEditView::Section { section: section@ },
        JsonEdit::SetInSection { section, key, value } => JsonEditView::SetInSection { section: section@, key: key@, value: value@ },
    }
}

pub open spec fn edits_view(v: Seq<JsonEdit>) -> Seq<JsonEditView> {
    v.map_values(|e: JsonEdit| edit_view(e))
}

/// The keys set in a section: each present value, in order.
pub open spec fn section_sets(section: Seq<char>, pairs: Seq<(Seq<char>, Option<Seq<char>>)>) -> Seq<JsonEditView>
    decreases pairs.len(),
{
    if pairs.len() == 0 {
        Seq::empty()
    } else {
        let rest = section_sets(section, pairs.drop_last());
        match pairs.last().1 {
            Some(v) => rest.push(JsonEditView::SetInSection { section, key: pairs.last().0, value: v }),
            None => rest,
        }
    }
}

/// The changes an edit makes: name, notes and folder are always replaced
/// (absent notes or folder become `null`); for each part the patch carries,
/// the section is created when missing and its present values are set.
pub open spec fn patch_edits(p: ItemPatch) -> Seq<JsonEditView> {
    seq![
        JsonEditView::SetTop { key: "name"@, value: Some(p.name@) },
        JsonEditView::SetTop { key: "notes"@, value: opt_view(p.notes) },
        JsonEditView::SetTop { key: "folderId"@, value: opt_view(p.folder_id) },
    ]
    + (match p.login {
        Some(l) => seq![JsonEditView::Section { section: "login"@ }]
            + section_sets("login"@, seq![("username"@, opt_view(l.username)), ("password"@, opt_view(l.password))]),
        None => Seq::empty(),
    })
    + (match p.card {
        Some(c) => seq![JsonEditView::Section { section: "card"@ }]
            + section_sets("card"@, seq![
                ("cardholderName"@, opt_view(c.cardholder_name)),
                ("brand"@, opt_view(c.brand)),
                ("number"@, opt_view(c.number)),
                ("expMonth"@, opt_view(c.exp_month)),
                ("expYear"@, opt_view(c.exp_year)),
                ("code"@, opt_view(c.code)),
            ]),
        None => Seq::empty(),
    })
    + (match p.identity {
        Some(i) => seq![JsonEditView::Section { section: "identity"@ }]
            + section_sets("identity"@, seq![
                ("firstName"@, opt_view(i.first_name)),
                ("lastName"@, opt_view(i.last_name)),
                ("email"@, opt_view(i.email)),
                ("phone"@, opt_view(i.phone)),
            ]),
        None => Seq::empty(),
    })
}

fn push_edit(v: &mut Vec<JsonEdit>, e: JsonEdit)
    ensures
        edits_view(final(v)@) == edits_view(old(v)@).push(edit_view(e)),
{
    let ghost ev = edit_view(e);
    v.push(e);
    assert(edits_view(v@) =~= edits_view(old(v)@).push(ev));
}

fn set_if_present(
    v: &mut Vec<JsonEdit>,
    section: &str,
    key: &str,
    value: &Option<String>,
    Ghost(pairs): Ghost<Seq<(Seq<char>, Option<Seq<char>>)>>,
)
    requires
        edits_view(old(v)@) == section_sets(section@, pairs),
    ensures
        edits_view(final(v)@) == section_sets(section@, pairs.push((key@, opt_view(*value)))),
{
    let ghost next = pairs.push((key@, opt_view(*value)));
    assert(next.drop_last() =~= pairs);
    match value {
        Some(val) => push_edit(v, JsonEdit::SetInSection { section: to_string(section), key: to_string(key), value: val.clone() }),
        None => {},
    }
}

/// The changes that apply a patch to an item's JSON.
pub fn patch_edits_of(p: &ItemPatch) -> (r: Vec<JsonEdit>)
    ensures
        edits_view(r@) == patch_edits(*p),
{
    let mut head: Vec<JsonEdit> = Vec::new();
    push_edit(&mut head, JsonEdit::SetTop { key: to_string("name"), value: Some(p.name.clone()) });
    push_edit(&mut head, JsonEdit::SetTop { key: to_string("notes"), value: crate::model::clone_opt(&p.notes) });
    push_edit(&mut head, JsonEdit::SetTop { key: to_string("folderId"), value: crate::model::clone_opt(&p.folder_id) });
    let ghost h = edits_view(head@);
    let mut login_part: Vec<JsonEdit> = Vec::new();
    if let Some(l) = &p.login {
        let ghost p0: Seq<(Seq<char>, Option<Seq<char>>)> = Seq::empty();
        assert(edits_view(login_part@) =~= section_sets("login"@, p0));
        set_if_present(&mut login_part, "login", "username", &l.username, Ghost(p0));
        let ghost p1 = p0.push(("username"@, opt_view(l.username)));
        set_if_present(&mut login_part, "login", "password", &l.password, Ghost(p1));
        assert(p1.push(("password"@, opt_view(l.password)))
            =~= seq![("username"@, opt_view(l.username)), ("password"@, opt_view(l.password))]);
    }
    let mut card_part: Vec<JsonEdit> = Vec::new();
    if let Some(c) = &p.card {
        let ghost p0: Seq<(Seq<char>, Option<Seq<char>>)> = Seq::empty();
        assert(edits_view(card_part@) =~= section_sets("card"@, p0));
        set_if_present(&mut card_part, "card", "cardholderName", &c.cardholder_name, Ghost(p0));
        let ghost p1 = p0.push(("cardholderName"@, opt_view(c.cardholder_name)));
        set_if_present(&mut card_part, "card", "brand", &c.brand, Ghost(p1));
        let ghost p2 = p1.push(("brand"@, opt_view(c.brand)));
        set_if_present(&mut card_part, "card", "number", &c.number, Ghost(p2));
        let ghost p3 = p2.push(("number"@, opt_view(c.number)));
        set_if_present(&mut card_part, "card", "expMonth", &c.exp_month, Ghost(p3));
        let ghost p4 = p3.push(("expMonth"@, opt_view(c.exp_month)));
        set_if_present(&mut card_part, "card", "expYear", &c.exp_year, Ghost(p4));
        let ghost p5 = p4.push(("expYear"@, opt_view(c.exp_year)));
        set_if_present(&mut card_part, "card", "code", &c.code, Ghost(p5));
        assert(p5.push(("code"@, opt_view(c.code))) =~= seq![
            ("cardholderName"@, opt_view(c.cardholder_name)),
            ("brand"@, opt_view(c.brand)),
            ("number"@, opt_view(c.number)),
            ("expMonth"@, opt_view(c.exp_month)),
            ("expYear"@, opt_view(c.exp_year)),
            ("code"@, opt_view(c.code)),
        ]);
    }
    let mut identity_part: Vec<JsonEdit> = Vec::new();
    if let Some(i) = &p.identity {
        let ghost p0: Seq<(Seq<char>, Option<Seq<char>>)> = Seq::empty();
        assert(edits_view(identity_part@) =~= section_sets("identity"@, p0));
        set_if_present(&mut identity_part, "identity", "firstName", &i.first_name, Ghost(p0));
        let ghost p1 = p0.push(("firstName"@, opt_view(i.first_name)));
        set_if_present(&mut identity_part, "identity", "lastName", &i.last_name, Ghost(p1));
        let ghost p2 = p1.push(("lastName"@, opt_view(i.last_name)));
        set_if_present(&mut identity_part, "identity", "email", &i.email, Ghost(p2));
        let ghost p3 = p2.push(("email"@, opt_view(i.email)));
        set_if_present(&mut identity_part, "identity", "phone", &i.phone, Ghost(p3));
        assert(p3.push(("phone"@, opt_view(i.phone))) =~= seq![
            ("firstName"@, opt_view(i.first_name)),
            ("lastName"@, opt_view(i.last_name)),
            ("email"@, opt_view(i.email)),
            ("phone"@, opt_view(i.phone)),
        ]);
    }
    let mut out = head;
    let ghost lp = edits_view(login_part@);
    if p.login.is_some() {
        push_edit(&mut out, JsonEdit::Section { section: to_string("login") });
    }
    append_edits(&mut out, login_part);
    if p.card.is_some() {
        push_edit(&mut out, JsonEdit::Section { section: to_string("card") });
    }
    append_edits(&mut out, card_part);
    if p.identity.is_some() {
        push_edit(&mut out, JsonEdit::Section { section: to_string("identity") });
    }
    append_edits(&mut out, identity_part);
    assert(edits_view(out@) =~= patch_edits(*p));
    out
}

fn append_edits(v: &mut Vec<JsonEdit>, tail: Vec<JsonEdit>)
    ensures
        edits_view(final(v)@) == edits_view(old(v)@) + edits_view(tail@),
{
    let mut tail = tail;
    let ghost t = edits_view(tail@);
    v.append(&mut tail);
    assert(edits_view(v@) =~= edits_view(old(v)@) + t);
}

/// The message when a section of the item's JSON is not an object.
pub fn unexpected_shape(section: &str) -> (r: String)
    ensures
        r@ == "unexpected "@ + section@ + " shape from bw"@,
{
    let a = concat("unexpected ", section);
    concat(a.as_str(), " shape from bw")
}

} // verus!
