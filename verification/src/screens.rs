//! The texts of the main screen's bars, of the item form, the generator,
//! the account tab and the sign-in screens. The driver lays them out and
//! colours them by [`Tone`].
use vstd::prelude::*;
use crate::app::{spinner_spec, App, Tab, VaultMode};
use crate::form::{ItemForm, ItemFormField, ItemFormMode, ItemKind};
use crate::display::{group_digits_by_four, group_digits_spec};
use crate::model::{opt_view, GenerateOptions};
use crate::display::{bare, line, line_view, lines_view, push_line, DetailLine, Tone};
use crate::text::{
    append, char_count, concat, concat3, decimal, join, join_spec, push_char, to_string, u64_to_decimal, views,
};

verus! {

// ---- the status bar -----------------------------------------------------------

/// A number written with at least two digits.
pub open spec fn two_digits(n: nat) -> Seq<char> {
    if n < 10 { "0"@ + decimal(n) } else { decimal(n) }
}

fn two_digits_text(n: u64) -> (r: String)
    ensures
        r@ == two_digits(n as nat),
{
    let d = u64_to_decimal(n);
    if n < 10 { concat("0", d.as_str()) } else { d }
}

/// Seconds left of the session at `now`, as `App::session_remaining` gives them.
pub open spec fn remaining_spec(app: App, now: u64) -> u64 {
    let age = if now >= app.session_started { now - app.session_started } else { 0 };
    if app.config.session_max_age_secs >= age { (app.config.session_max_age_secs - age) as u64 } else { 0 }
}

/// "Session expires in MM:SS".
pub open spec fn session_text_spec(remaining: u64) -> Seq<char> {
    "Session expires in "@ + two_digits((remaining / 60) as nat) + ":"@ + two_digits((remaining % 60) as nat)
}

/// The message part of the status bar: the busy label with the spinner,
/// else the status message, else nothing.
pub open spec fn status_message_spec(app: App) -> (Seq<char>, Tone) {
    if app.busy {
        (spinner_spec(app.tick_count) + " "@ + match app.busy_label {
            Some(l) => l@,
            None => "Working..."@,
        }, Tone::Warn)
    } else {
        match app.status {
            Some(m) => (m.text@, Tone::Accent),
            None => (Seq::empty(), Tone::Accent),
        }
    }
}

/// The status bar: the message, when there is one, then the session timer.
pub open spec fn status_line_spec(app: App, now: u64) -> (Seq<char>, Tone) {
    let msg = status_message_spec(app);
    let session = session_text_spec(remaining_spec(app, now));
    (if msg.0.len() == 0 { session } else { msg.0 + "   |   "@ + session }, msg.1)
}

/// The status bar's text and tone at `now_secs`.
pub fn status_line(app: &App, now_secs: u64) -> (r: (String, Tone))
    ensures
        (r.0@, r.1) == status_line_spec(*app, now_secs),
{
    let remaining = app.session_remaining(now_secs);
    let mins = two_digits_text(remaining / 60);
    let secs = two_digits_text(remaining % 60);
    let mut session = concat3("Session expires in ", mins.as_str(), ":");
    append(&mut session, secs.as_str());
    let (message, tone) = if app.busy {
        let label = match &app.busy_label {
            Some(l) => l.clone(),
            None => to_string("Working..."),
        };
        (concat3(app.spinner(), " ", label.as_str()), Tone::Warn)
    } else {
        match &app.status {
            Some(m) => (m.text.clone(), Tone::Accent),
            None => (String::new(), Tone::Accent),
        }
    };
    if message.unicode_len() == 0 {
        (session, tone)
    } else {
        let mut text = concat(message.as_str(), "   |   ");
        append(&mut text, session.as_str());
        (text, tone)
    }
}

// ---- the key help -------------------------------------------------------------

/// The key help line of the main screen.
pub open spec fn help_spec(app: App) -> Seq<char> {
    match app.tab {
        Tab::Vault => if app.item_form is Some {
            "Tab: field  Enter: save  Ctrl+G: random password  Esc: cancel"@
        } else if app.detail_open {
            "Enter: copy password  u: username  t: TOTP  r: reveal  Esc: close"@
        } else if app.vault_mode == VaultMode::Search {
            "type to filter  Enter: confirm  Esc: cancel"@
        } else {
            "j/k: move  gg/G: top/bottom  h/l: folder  /: search  Enter: view details  n: new item  R: refresh  Tab: switch view  q: quit"@
        },
        Tab::Generator => "u/l/n/s: toggle  ↑/↓: length  Enter: generate  c: copy  Tab: switch view  Esc: quit"@,
        Tab::Account => "s: sync  l: lock  o: log out  Tab: switch view  Esc: quit"@,
    }
}

pub fn help_text(app: &App) -> (r: &'static str)
    ensures
        r@ == help_spec(*app),
{
    match app.tab {
        Tab::Vault => if app.item_form.is_some() {
            "Tab: field  Enter: save  Ctrl+G: random password  Esc: cancel"
        } else if app.detail_open {
            "Enter: copy password  u: username  t: TOTP  r: reveal  Esc: close"
        } else if app.vault_mode == VaultMode::Search {
            "type to filter  Enter: confirm  Esc: cancel"
        } else {
            "j/k: move  gg/G: top/bottom  h/l: folder  /: search  Enter: view details  n: new item  R: refresh  Tab: switch view  q: quit"
        },
        Tab::Generator => "u/l/n/s: toggle  ↑/↓: length  Enter: generate  c: copy  Tab: switch view  Esc: quit",
        Tab::Account => "s: sync  l: lock  o: log out  Tab: switch view  Esc: quit",
    }
}

// ---- the search bar ------------------------------------------------------------

/// "Items  shown/total", followed by the folder entry in use when the
/// folder bar is hidden and the entry is not "All".
pub open spec fn item_count_spec(app: App) -> Seq<char> {
    "Items  "@ + decimal(app.filtered@.len()) + "/"@ + decimal(app.items@.len())
        + (if !app.show_folders && app.folder_index != 0 {
            "  ·  "@ + crate::app::folder_label_spec(app.folders@, app.folder_index) + "  (f: folders)"@
        } else {
            Seq::empty()
        })
}

pub fn item_count_text(app: &App) -> (r: String)
    ensures
        r@ == item_count_spec(*app),
{
    let shown = u64_to_decimal(app.filtered.len() as u64);
    let total = u64_to_decimal(app.items.len() as u64);
    let mut t = concat3("Items  ", shown.as_str(), "/");
    append(&mut t, total.as_str());
    if !app.show_folders && app.folder_index != 0 {
        let label = app.folder_label(app.folder_index);
        append(&mut t, "  ·  ");
        append(&mut t, label.as_str());
        append(&mut t, "  (f: folders)");
    }
    t
}

/// The search line: the query being typed, a hint, or the active filter.
pub open spec fn search_bar_spec(app: App) -> (Seq<char>, Tone) {
    match app.vault_mode {
        VaultMode::Search => ("/"@ + app.query@, Tone::Accent),
        VaultMode::Normal => if app.query@.len() == 0 {
            ("press / to search"@, Tone::Muted)
        } else {
            ("/"@ + app.query@ + "  (Esc to clear)"@, Tone::Plain)
        },
    }
}

pub fn search_bar_text(app: &App) -> (r: (String, Tone))
    ensures
        (r.0@, r.1) == search_bar_spec(*app),
{
    match app.vault_mode {
        VaultMode::Search => (concat("/", app.query.as_str()), Tone::Accent),
        VaultMode::Normal => if app.query.unicode_len() == 0 {
            (to_string("press / to search"), Tone::Muted)
        } else {
            (concat3("/", app.query.as_str(), "  (Esc to clear)"), Tone::Plain)
        },
    }
}

// ---- the folder bar ------------------------------------------------------------

/// The characters the first `n` folder entries take in the bar: each label
/// padded with a space on both sides, two spaces between entries.
pub open spec fn folder_bar_width_upto(app: App, n: int) -> nat
    decreases n,
{
    if n <= 0 {
        0
    } else {
        folder_bar_width_upto(app, n - 1)
            + crate::app::folder_label_spec(app.folders@, (n - 1) as usize).len() + 2
            + (if n > 1 { 2nat } else { 0nat })
    }
}

/// The characters the whole folder bar takes.
pub open spec fn folder_bar_width(app: App) -> nat {
    folder_bar_width_upto(app, (app.folders@.len() + 2) as int)
}

/// The width of the folder bar in characters (at most `usize::MAX`).
pub fn folder_bar_char_count(app: &App) -> (r: usize)
    requires
        app.folders@.len() + 2 <= usize::MAX,
    ensures
        r == (if folder_bar_width(*app) <= usize::MAX { folder_bar_width(*app) } else { usize::MAX as nat }),
{
    let total = app.folders.len() + 2;
    let mut sum: usize = 0;
    let mut i: usize = 0;
    while i < total
        invariant
            total == app.folders@.len() + 2,
            i <= total,
            sum == (if folder_bar_width_upto(*app, i as int) <= usize::MAX {
                folder_bar_width_upto(*app, i as int)
            } else {
                usize::MAX as nat
            }),
        decreases total - i,
    {
        let label = app.folder_label(i);
        let n = char_count(label.as_str());
        let gap: usize = if i > 0 { 2 } else { 0 };
        sum = sum.saturating_add(n).saturating_add(2).saturating_add(gap);
        i = i + 1;
    }
    sum
}

/// The lines a text of `chars` characters takes when wrapped at `width`
/// columns: at least one.
pub open spec fn wrapped_lines_spec(chars: nat, width: nat) -> nat {
    if width == 0 || chars <= width {
        1
    } else {
        ((chars + width - 1) / (width as int)) as nat
    }
}

pub fn wrapped_line_count(chars: usize, width: u16) -> (r: u16)
    ensures
        r == (if wrapped_lines_spec(chars as nat, width as nat) <= u16::MAX {
            wrapped_lines_spec(chars as nat, width as nat)
        } else {
            u16::MAX as nat
        }),
{
    if width == 0 || chars <= width as usize {
        return 1;
    }
    let w = width as usize;
    let q = chars / w;
    let lines = if chars % w == 0 {
        q
    } else {
        assert(q < usize::MAX) by (nonlinear_arith)
            requires
                w > 0,
                q == chars / w,
                chars % w != 0,
                chars <= usize::MAX,
        {
            assert(w != 1);
            assert(w * q <= chars);
            assert(2 * q <= chars);
        }
        q + 1
    };
    assert(lines == (chars + w - 1) / (w as int)) by (nonlinear_arith)
        requires
            w > 0,
            q == chars / w,
            lines == (if chars % w == 0 { q as int } else { q + 1 }),
    {
        assert(chars == w * (chars / w) + chars % w);
        assert(0 <= chars % w < w);
        assert(chars + w - 1 == w * (chars / w) + (chars % w + w - 1));
        if chars % w == 0 {
            assert((chars + w - 1) / (w as int) == chars / w);
        } else {
            assert(chars + w - 1 == w * (chars / w + 1) + (chars % w - 1));
            assert((chars + w - 1) / (w as int) == chars / w + 1);
        }
    }
    if lines > 65535 { 65535 } else { lines as u16 }
}

/// The rows the folder bar takes at `width` columns: between one and four.
pub open spec fn folder_bar_rows_spec(wrapped: nat) -> nat {
    if wrapped < 1 { 1 } else if wrapped > 4 { 4 } else { wrapped }
}

pub fn folder_bar_rows(app: &App, width: u16) -> (r: u16)
    requires
        app.folders@.len() + 2 <= usize::MAX,
    ensures
        r == folder_bar_rows_spec(wrapped_lines_spec(
            (if folder_bar_width(*app) <= usize::MAX { folder_bar_width(*app) } else { usize::MAX as nat }),
            width as nat,
        )),
{
    let n = folder_bar_char_count(app);
    let w = wrapped_line_count(n, width);
    if w < 1 { 1 } else if w > 4 { 4 } else { w }
}

/// The text of the folder entry `index` in the bar.
pub fn folder_entry_text(app: &App, index: usize) -> (r: String)
    ensures
        r@ == " "@ + crate::app::folder_label_spec(app.folders@, index) + " "@,
{
    let label = app.folder_label(index);
    concat3(" ", label.as_str(), " ")
}

// ---- the item form ---------------------------------------------------------------

/// A secret shown as one `*` per character.
pub open spec fn masked_spec(s: Seq<char>) -> Seq<char> {
    Seq::new(s.len(), |i: int| '*')
}

pub fn masked(s: &str) -> (r: String)
    ensures
        r@ == masked_spec(s@),
{
    let n = char_count(s);
    let mut out = String::new();
    let mut i: usize = 0;
    while i < n
        invariant
            i <= n,
            n == s@.len(),
            out@ == Seq::new(i as nat, |k: int| '*'),
        decreases n - i,
    {
        push_char(&mut out, '*');
        i = i + 1;
        assert(out@ =~= Seq::new(i as nat, |k: int| '*'));
    }
    out
}

/// The line of a form field: its label, then its text; the password is
/// masked unless revealed, the card number grouped by four.
pub open spec fn form_field_text_spec(form: ItemForm, field: ItemFormField) -> Seq<char> {
    field.label_spec() + ": "@ + (if field == ItemFormField::Password {
        if form.password_revealed { form.password@ } else { masked_spec(form.password@) }
    } else if field == ItemFormField::Number {
        group_digits_spec(form.value_spec(field))
    } else {
        form.value_spec(field)
    })
}

pub fn form_field_text(form: &ItemForm, field: ItemFormField) -> (r: String)
    ensures
        r@ == form_field_text_spec(*form, field),
{
    let head = concat(field.label(), ": ");
    let shown = if field == ItemFormField::Password {
        if form.password_revealed { form.password.clone() } else { masked(form.password.as_str()) }
    } else if field == ItemFormField::Number {
        group_digits_by_four(form.field_value(field))
    } else {
        to_string(form.field_value(field))
    };
    concat(head.as_str(), shown.as_str())
}

/// The form's title: " New login item ", " Edit card item " and so on.
pub open spec fn form_title_spec(form: ItemForm) -> Seq<char> {
    " "@ + (match form.mode {
        ItemFormMode::Create => "New"@,
        ItemFormMode::Edit { .. } => "Edit"@,
    }) + " "@ + form.kind.label_spec() + " item "@
}

pub fn form_title(form: &ItemForm) -> (r: String)
    ensures
        r@ == form_title_spec(*form),
{
    let mode = match &form.mode {
        ItemFormMode::Create => "New",
        ItemFormMode::Edit { .. } => "Edit",
    };
    let mut t = concat3(" ", mode, " ");
    append(&mut t, form.kind.label());
    append(&mut t, " item ");
    t
}

/// The Ctrl-key hints of the form: changing the type while creating, and
/// for a login the random password and, while editing, the current one.
pub open spec fn form_ctrl_hints_spec(form: ItemForm) -> Seq<char> {
    let a: Seq<Seq<char>> = if form.mode is Create { seq!["Ctrl+T: change type"@] } else { Seq::empty() };
    let b = if form.kind == ItemKind::Login { a.push("Ctrl+G: random password"@) } else { a };
    let c = if form.kind == ItemKind::Login && form.mode is Edit { b.push("Ctrl+R: view current password"@) } else { b };
    join_spec(c, "  "@)
}

pub fn form_ctrl_hints(form: &ItemForm) -> (r: String)
    ensures
        r@ == form_ctrl_hints_spec(*form),
{
    let mut parts: Vec<String> = Vec::new();
    let creating = match &form.mode {
        ItemFormMode::Create => true,
        ItemFormMode::Edit { .. } => false,
    };
    if creating {
        parts.push(to_string("Ctrl+T: change type"));
    }
    let ghost a = views(parts@);
    assert(a =~= (if form.mode is Create { seq!["Ctrl+T: change type"@] } else { Seq::<Seq<char>>::empty() }));
    if form.kind == ItemKind::Login {
        parts.push(to_string("Ctrl+G: random password"));
        assert(views(parts@) =~= a.push("Ctrl+G: random password"@));
    }
    let ghost b = views(parts@);
    if form.kind == ItemKind::Login && !creating {
        parts.push(to_string("Ctrl+R: view current password"));
        assert(views(parts@) =~= b.push("Ctrl+R: view current password"@));
    }
    join(&parts, "  ")
}

/// The form's error line.
pub fn form_error_text(err: &str) -> (r: String)
    ensures
        r@ == "⚠ "@ + err@,
{
    concat("⚠ ", err)
}

// ---- the generator -------------------------------------------------------------

pub open spec fn yes_no(b: bool) -> Seq<char> {
    if b { "yes"@ } else { "no"@ }
}

pub open spec fn toggle_tone(b: bool) -> Tone {
    if b { Tone::Good } else { Tone::Muted }
}

/// The lines of the generator's options: the length, then each character
/// set with its key and whether it is on.
pub open spec fn generator_option_lines_spec(opts: GenerateOptions) -> Seq<(Seq<char>, Seq<char>, Tone)> {
    seq![
        (Seq::empty(), "Length: "@ + decimal(opts.length as nat) + " (↑/↓)"@, Tone::Plain),
        (Seq::empty(), "[u] Uppercase: "@ + yes_no(opts.uppercase), toggle_tone(opts.uppercase)),
        (Seq::empty(), "[l] Lowercase: "@ + yes_no(opts.lowercase), toggle_tone(opts.lowercase)),
        (Seq::empty(), "[n] Numbers: "@ + yes_no(opts.numbers), toggle_tone(opts.numbers)),
        (Seq::empty(), "[s] Special: "@ + yes_no(opts.special), toggle_tone(opts.special)),
    ]
}

fn option_line(head: &str, on: bool) -> (r: DetailLine)
    ensures
        line_view(r) == (Seq::<char>::empty(), head@ + yes_no(on), toggle_tone(on)),
{
    let text = concat(head, if on { "yes" } else { "no" });
    bare(text, if on { Tone::Good } else { Tone::Muted })
}

pub fn generator_option_lines(opts: &GenerateOptions) -> (r: Vec<DetailLine>)
    ensures
        lines_view(r@) == generator_option_lines_spec(*opts),
{
    let mut out: Vec<DetailLine> = Vec::new();
    let n = u64_to_decimal(opts.length as u64);
    push_line(&mut out, bare(concat3("Length: ", n.as_str(), " (↑/↓)"), Tone::Plain));
    push_line(&mut out, option_line("[u] Uppercase: ", opts.uppercase));
    push_line(&mut out, option_line("[l] Lowercase: ", opts.lowercase));
    push_line(&mut out, option_line("[n] Numbers: ", opts.numbers));
    push_line(&mut out, option_line("[s] Special: ", opts.special));
    assert(lines_view(out@) =~= generator_option_lines_spec(*opts));
    out
}

/// The generator's result line: the busy label, the error, the password
/// (with `hint` after it when not empty), or how to generate one.
pub open spec fn generator_result_spec(app: App, hint: Seq<char>) -> (Seq<char>, Tone) {
    if app.busy {
        (spinner_spec(app.tick_count) + " "@ + match app.busy_label {
            Some(l) => l@,
            None => "Working..."@,
        }, Tone::Warn)
    } else if app.generator.error is Some {
        ("\u{f071} "@ + app.generator.error->0@, Tone::Error)
    } else if app.generator.result is Some {
        (if hint.len() == 0 {
            "> "@ + app.generator.result->0@
        } else {
            "> "@ + app.generator.result->0@ + "  "@ + hint
        }, Tone::Warn)
    } else {
        ("Enter: generate"@, Tone::Muted)
    }
}

pub fn generator_result_line(app: &App, hint: &str) -> (r: (String, Tone))
    ensures
        (r.0@, r.1) == generator_result_spec(*app, hint@),
{
    if app.busy {
        let label = match &app.busy_label {
            Some(l) => l.clone(),
            None => to_string("Working..."),
        };
        (concat3(app.spinner(), " ", label.as_str()), Tone::Warn)
    } else if let Some(err) = &app.generator.error {
        (concat("\u{f071} ", err.as_str()), Tone::Error)
    } else if let Some(pw) = &app.generator.result {
        if hint.unicode_len() == 0 {
            (concat("> ", pw.as_str()), Tone::Warn)
        } else {
            let mut t = concat3("> ", pw.as_str(), "  ");
            append(&mut t, hint);
            (t, Tone::Warn)
        }
    } else {
        (to_string("Enter: generate"), Tone::Muted)
    }
}

// ---- the account tab -------------------------------------------------------------

/// The lines of the account tab: the server, account and last sync when
/// known, the number of cached items, then the actions or the logout question.
pub open spec fn account_lines_spec(app: App) -> Seq<(Seq<char>, Seq<char>, Tone)> {
    let head: Seq<(Seq<char>, Seq<char>, Tone)> = match app.server_status {
        Some(s) => seq![
            ("Server: "@, match opt_view(s.server_url) { Some(u) => u, None => "bitwarden.com"@ }, Tone::Plain),
            ("Account: "@, match opt_view(s.user_email) { Some(e) => e, None => Seq::empty() }, Tone::Plain),
            ("Last sync: "@, match opt_view(s.last_sync) { Some(t) => t, None => "never"@ }, Tone::Plain),
        ],
        None => Seq::empty(),
    };
    let middle = seq![
        (Seq::<char>::empty(), Seq::<char>::empty(), Tone::Plain),
        (Seq::<char>::empty(), "Cached items: "@ + decimal(app.items@.len()), Tone::Plain),
        (Seq::<char>::empty(), Seq::<char>::empty(), Tone::Plain),
    ];
    let tail = if app.confirm_logout {
        seq![(Seq::<char>::empty(), "Really log out? you'll need to log in again (y/n)"@, Tone::Error)]
    } else {
        seq![
            (Seq::<char>::empty(), "[s] Sync now"@, Tone::Plain),
            (Seq::<char>::empty(), "[l] Lock vault"@, Tone::Plain),
            (Seq::<char>::empty(), "[o] Log out"@, Tone::Plain),
        ]
    };
    head + middle + tail
}

pub fn account_lines(app: &App) -> (r: Vec<DetailLine>)
    ensures
        lines_view(r@) == account_lines_spec(*app),
{
    let mut out: Vec<DetailLine> = Vec::new();
    if let Some(s) = &app.server_status {
        let url = match &s.server_url {
            Some(u) => u.clone(),
            None => to_string("bitwarden.com"),
        };
        let email = match &s.user_email {
            Some(e) => e.clone(),
            None => String::new(),
        };
        let sync = match &s.last_sync {
            Some(t) => t.clone(),
            None => to_string("never"),
        };
        push_line(&mut out, line("Server: ", url, Tone::Plain));
        push_line(&mut out, line("Account: ", email, Tone::Plain));
        push_line(&mut out, line("Last sync: ", sync, Tone::Plain));
    }
    let ghost head = lines_view(out@);
    let count = u64_to_decimal(app.items.len() as u64);
    push_line(&mut out, bare(String::new(), Tone::Plain));
    push_line(&mut out, bare(concat("Cached items: ", count.as_str()), Tone::Plain));
    push_line(&mut out, bare(String::new(), Tone::Plain));
    if app.confirm_logout {
        push_line(&mut out, bare(to_string("Really log out? you'll need to log in again (y/n)"), Tone::Error));
    } else {
        push_line(&mut out, bare(to_string("[s] Sync now"), Tone::Plain));
        push_line(&mut out, bare(to_string("[l] Lock vault"), Tone::Plain));
        push_line(&mut out, bare(to_string("[o] Log out"), Tone::Plain));
    }
    assert(lines_view(out@) =~= account_lines_spec(*app));
    out
}

// ---- the sign-in screens ---------------------------------------------------------

/// The prompt of the unlock screen: the relock message, else a request for
/// the master password of the known account.
pub open spec fn unlock_prompt_spec(email: Option<Seq<char>>, relock: Option<Seq<char>>) -> Seq<char> {
    match relock {
        Some(m) => m,
        None => match email {
            Some(e) => "Enter the master password for "@ + e + ":"@,
            None => "Enter your master password:"@,
        },
    }
}

pub fn unlock_prompt(email: &Option<String>, relock: &Option<String>) -> (r: String)
    ensures
        r@ == unlock_prompt_spec(opt_view(*email), opt_view(*relock)),
{
    match relock {
        Some(m) => m.clone(),
        None => match email {
            Some(e) => concat3("Enter the master password for ", e.as_str(), ":"),
            None => to_string("Enter your master password:"),
        },
    }
}

/// The progress or error line of a sign-in screen: the spinner and
/// `busy_text` while busy, else the error, else nothing.
pub open spec fn progress_line_spec(busy: bool, error: Option<Seq<char>>, spinner: Seq<char>, busy_text: Seq<char>) -> Option<(Seq<char>, Tone)> {
    if busy {
        Some((spinner + " "@ + busy_text, Tone::Warn))
    } else {
        match error {
            Some(e) => Some(("\u{f071} "@ + e, Tone::Error)),
            None => None,
        }
    }
}

pub fn progress_line(busy: bool, error: &Option<String>, spinner: &str, busy_text: &str) -> (r: Option<(String, Tone)>)
    ensures
        match r {
            Some((t, tone)) => progress_line_spec(busy, opt_view(*error), spinner@, busy_text@) == Some((t@, tone)),
            None => progress_line_spec(busy, opt_view(*error), spinner@, busy_text@) is None,
        },
{
    if busy {
        Some((concat3(spinner, " ", busy_text), Tone::Warn))
    } else {
        match error {
            Some(e) => Some((concat("\u{f071} ", e.as_str()), Tone::Error)),
            None => None,
        }
    }
}

} // verus!
