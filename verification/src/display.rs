//! The text the screens show, computed from the state. The driver only
//! lays it out and colours it by [`Tone`].
use vstd::prelude::*;
use crate::app::App;
use crate::model::{opt_view, Item};
use crate::text::{
    chars_of, concat, concat3, join, join_spec, push_char, string_from_chars, to_string, views,
};

verus! {

/// How a piece of text is coloured.
#[derive(Clone, Copy, PartialEq, Eq, Structural, Debug)]
pub enum Tone {
    Plain,
    Muted,
    Warn,
    Accent,
    Good,
    Error,
}

/// A line of the detail popup: a muted label, then a text in a tone.
pub struct DetailLine {
    pub label: String,
    pub text: String,
    pub tone: Tone,
}

/// The view of a detail line.
pub open spec fn line_view(l: DetailLine) -> (Seq<char>, Seq<char>, Tone) {
    (l.label@, l.text@, l.tone)
}

pub open spec fn lines_view(v: Seq<DetailLine>) -> Seq<(Seq<char>, Seq<char>, Tone)> {
    v.map_values(|l: DetailLine| line_view(l))
}

// ---- card numbers ---------------------------------------------------------

/// A card number with all but its last four characters hidden.
pub open spec fn mask_card_number_spec(number: Seq<char>) -> Seq<char> {
    let last4 = if number.len() >= 4 { number.subrange(number.len() - 4, number.len() as int) } else { number };
    if last4.len() == 0 {
        "•••• •••• •••• ••••"@
    } else {
        "•••• •••• •••• "@ + last4
    }
}

pub fn mask_card_number(number: &str) -> (r: String)
    ensures
        r@ == mask_card_number_spec(number@),
{
    let chars = chars_of(number);
    let n = chars.len();
    let from = if n >= 4 { n - 4 } else { 0 };
    let last4 = string_from_chars(&chars, from, n);
    proof {
        if n < 4 {
            assert(chars@.subrange(0, n as int) =~= number@);
        }
    }
    if last4.unicode_len() == 0 {
        to_string("•••• •••• •••• ••••")
    } else {
        concat("•••• •••• •••• ", last4.as_str())
    }
}

/// The groups of four characters of a text (the last one may be shorter).
pub open spec fn chunks_of_four(s: Seq<char>) -> Seq<Seq<char>>
    decreases s.len(),
{
    if s.len() <= 4 {
        if s.len() == 0 { Seq::empty() } else { seq![s] }
    } else {
        seq![s.subrange(0, 4)] + chunks_of_four(s.subrange(4, s.len() as int))
    }
}

/// A text written in groups of four characters separated by spaces.
pub open spec fn group_digits_spec(s: Seq<char>) -> Seq<char> {
    join_spec(chunks_of_four(s), " "@)
}

proof fn lemma_chunks_step(s: Seq<char>, i: int)
    requires
        0 <= i < s.len(),
        i % 4 == 0,
    ensures
        chunks_of_four(s.subrange(i, s.len() as int)) == seq![s.subrange(i, if i + 4 <= s.len() { i + 4 } else { s.len() as int })]
            + chunks_of_four(s.subrange(if i + 4 <= s.len() { i + 4 } else { s.len() as int }, s.len() as int)),
{
    let rest = s.subrange(i, s.len() as int);
    if rest.len() <= 4 {
        assert(s.subrange(s.len() as int, s.len() as int) =~= Seq::<char>::empty());
        assert(rest.subrange(0, rest.len() as int) =~= rest);
        assert(seq![rest] + Seq::<Seq<char>>::empty() =~= seq![rest]);
    } else {
        assert(rest.subrange(0, 4) =~= s.subrange(i, i + 4));
        assert(rest.subrange(4, rest.len() as int) =~= s.subrange(i + 4, s.len() as int));
    }
}

/// A card number in groups of four, as the form shows it while typing.
pub fn group_digits_by_four(number: &str) -> (r: String)
    ensures
        r@ == group_digits_spec(number@),
{
    let chars = chars_of(number);
    let n = chars.len();
    let mut groups: Vec<String> = Vec::new();
    let mut i: usize = 0;
    assert(number@.subrange(0, n as int) =~= number@);
    assert(views(groups@) + chunks_of_four(number@) =~= chunks_of_four(number@));
    while i < n
        invariant
            chars@ == number@,
            n == chars@.len(),
            i <= n,
            i % 4 == 0 || i == n,
            views(groups@) + chunks_of_four(number@.subrange(i as int, n as int)) == chunks_of_four(number@),
        decreases n - i,
    {
        let end = if n - i >= 4 { i + 4 } else { n };
        proof {
            lemma_chunks_step(number@, i as int);
        }
        let ghost before = views(groups@);
        groups.push(string_from_chars(&chars, i, end));
        assert(views(groups@) =~= before.push(number@.subrange(i as int, end as int)));
        assert(views(groups@) + chunks_of_four(number@.subrange(end as int, n as int))
            =~= before + (seq![number@.subrange(i as int, end as int)] + chunks_of_four(number@.subrange(end as int, n as int))));
        i = end;
    }
    assert(number@.subrange(n as int, n as int) =~= Seq::<char>::empty());
    assert(views(groups@) =~= chunks_of_four(number@));
    join(&groups, " ")
}

// ---- the detail popup -------------------------------------------------------

/// The key hints under the detail popup of an item.
pub open spec fn detail_footer_spec(item: Item) -> Seq<char> {
    let base: Seq<Seq<char>> = if item.item_type == 1 {
        seq!["Enter: copy password"@, "u: username"@, "t: TOTP"@, "r: reveal"@]
    } else if item.item_type == 3 {
        seq!["Enter: copy number"@, "r: reveal"@]
    } else if item.item_type == 2 {
        seq!["Enter: copy notes"@]
    } else {
        Seq::empty()
    };
    let with_notes = if item.item_type != 2 && item.notes_spec() is Some { base.push("n: notes"@) } else { base };
    let with_edit = if 1 <= item.item_type <= 4 { with_notes.push("e: edit"@) } else { with_notes };
    join_spec(with_edit.push("Esc: close"@), "  "@)
}

fn push_hint(v: &mut Vec<String>, s: &str)
    ensures
        views(final(v)@) == views(old(v)@).push(s@),
{
    v.push(to_string(s));
    assert(views(v@) =~= views(old(v)@).push(s@));
}

pub fn detail_footer(item: &Item) -> (r: String)
    ensures
        r@ == detail_footer_spec(*item),
{
    let mut parts: Vec<String> = Vec::new();
    if item.item_type == 1 {
        push_hint(&mut parts, "Enter: copy password");
        push_hint(&mut parts, "u: username");
        push_hint(&mut parts, "t: TOTP");
        push_hint(&mut parts, "r: reveal");
    } else if item.item_type == 3 {
        push_hint(&mut parts, "Enter: copy number");
        push_hint(&mut parts, "r: reveal");
    } else if item.item_type == 2 {
        push_hint(&mut parts, "Enter: copy notes");
    }
    let ghost base = views(parts@);
    assert(base =~= (if item.item_type == 1 {
        seq!["Enter: copy password"@, "u: username"@, "t: TOTP"@, "r: reveal"@]
    } else if item.item_type == 3 {
        seq!["Enter: copy number"@, "r: reveal"@]
    } else if item.item_type == 2 {
        seq!["Enter: copy notes"@]
    } else {
        Seq::<Seq<char>>::empty()
    }));
    let has_notes = match &item.notes {
        Some(n) => n.unicode_len() > 0,
        None => false,
    };
    if item.item_type != 2 && has_notes {
        push_hint(&mut parts, "n: notes");
    }
    if 1 <= item.item_type && item.item_type <= 4 {
        push_hint(&mut parts, "e: edit");
    }
    push_hint(&mut parts, "Esc: close");
    join(&parts, "  ")
}

pub(crate) fn line(label: &str, text: String, tone: Tone) -> (r: DetailLine)
    ensures
        line_view(r) == (label@, text@, tone),
{
    DetailLine { label: to_string(label), text, tone }
}

pub(crate) fn bare(text: String, tone: Tone) -> (r: DetailLine)
    ensures
        line_view(r) == (Seq::<char>::empty(), text@, tone),
{
    DetailLine { label: String::new(), text, tone }
}

pub(crate) fn push_line(v: &mut Vec<DetailLine>, l: DetailLine)
    ensures
        lines_view(final(v)@) == lines_view(old(v)@).push(line_view(l)),
{
    let ghost lv = line_view(l);
    v.push(l);
    assert(lines_view(v@) =~= lines_view(old(v)@).push(lv));
}

/// The card holder, brand and expiry lines of the detail popup, for those present.
pub open spec fn card_info_lines(item: Item) -> Seq<(Seq<char>, Seq<char>, Tone)> {
    match item.card {
        Some(c) => (if c.cardholder_name is Some { seq![("Cardholder: "@, c.cardholder_name->0@, Tone::Plain)] } else { Seq::empty() })
            + (if c.brand is Some { seq![("Brand: "@, c.brand->0@, Tone::Plain)] } else { Seq::empty() })
            + (if c.exp_month is Some && c.exp_year is Some {
                seq![("Expires: "@, c.exp_month->0@ + "/"@ + c.exp_year->0@, Tone::Plain)]
            } else {
                Seq::empty()
            }),
        None => Seq::empty(),
    }
}

/// The card number line: masked, or shown when revealed.
pub open spec fn card_number_line(app: App, item: Item) -> Seq<char> {
    match item.card_number_spec() {
        None => "Number: not on file"@,
        Some(n) => if app.reveals(item.id@) {
            "Number: "@ + (app.reveal->0).1@
        } else {
            "Number: "@ + mask_card_number_spec(n) + "  (press r to reveal)"@
        },
    }
}

/// The card code line: hidden, or shown when the card is revealed.
pub open spec fn card_code_line(app: App, item: Item) -> Seq<char> {
    match item.card_code_spec() {
        None => "CVV: not on file"@,
        Some(_) => if app.reveals(item.id@) {
            match app.reveal_cvv { Some(c) => "CVV: "@ + c@, None => "CVV: •••"@ }
        } else {
            "CVV: •••  (press r to reveal)"@
        },
    }
}

/// The card lines of the detail popup.
pub open spec fn card_lines_spec(app: App, item: Item) -> Seq<(Seq<char>, Seq<char>, Tone)> {
    card_info_lines(item)
        + seq![
            (Seq::empty(), Seq::empty(), Tone::Plain),
            (Seq::empty(), card_number_line(app, item), Tone::Warn),
            (Seq::empty(), card_code_line(app, item), Tone::Warn),
        ]
}

/// The username and URL lines of a login.
pub open spec fn login_head_lines(item: Item) -> Seq<(Seq<char>, Seq<char>, Tone)> {
    seq![("Username: "@, match item.username_spec() { Some(u) => u, None => "-"@ }, Tone::Plain)]
        + (match item.first_uri_spec() { Some(u) => seq![("URL: "@, u, Tone::Plain)], None => Seq::empty() })
}

/// The password line of a login: hidden, or shown when revealed.
pub open spec fn password_line(app: App, item: Item) -> Seq<char> {
    if app.reveals(item.id@) {
        "Password: "@ + (app.reveal->0).1@
    } else {
        "Password: •••••••• (press r to reveal)"@
    }
}

/// The login lines of the detail popup.
pub open spec fn login_lines_spec(app: App, item: Item) -> Seq<(Seq<char>, Seq<char>, Tone)> {
    login_head_lines(item)
        + seq![
            ("TOTP: "@, if item.has_totp_spec() { "yes (t)"@ } else { "no"@ }, Tone::Plain),
            (Seq::empty(), Seq::empty(), Tone::Plain),
            (Seq::empty(), password_line(app, item), Tone::Warn),
        ]
}

/// The custom-field lines of the detail popup.
pub open spec fn field_lines_spec(item: Item) -> Seq<(Seq<char>, Seq<char>, Tone)> {
    match item.fields {
        Some(fs) => if fs@.len() == 0 {
            Seq::empty()
        } else {
            seq![(Seq::empty(), Seq::empty(), Tone::Plain), (Seq::empty(), "Custom fields:"@, Tone::Muted)]
                + fs@.map_values(|f: crate::model::CustomField|
                    (Seq::<char>::empty(), "  "@ + crate::model::visible_field_spec(f).0 + ": "@ + crate::model::visible_field_spec(f).1, Tone::Plain))
        },
        None => Seq::empty(),
    }
}

/// Everything the detail popup shows of an item: its type, the lines of
/// its kind, its custom fields and its notes.
pub open spec fn detail_lines_spec(app: App, item: Item) -> Seq<(Seq<char>, Seq<char>, Tone)> {
    seq![("Type: "@, crate::model::type_label_spec(item.item_type), Tone::Plain)]
        + (if item.item_type == 3 {
            card_lines_spec(app, item)
        } else if item.item_type == 4 {
            match item.identity_summary_spec() { Some(s) => seq![("Identity: "@, s, Tone::Plain)], None => Seq::empty() }
        } else if item.item_type == 1 {
            login_lines_spec(app, item)
        } else {
            Seq::empty()
        })
        + field_lines_spec(item)
        + (match item.notes_spec() {
            Some(n) => seq![(Seq::empty(), Seq::empty(), Tone::Plain), (Seq::empty(), "Notes:"@, Tone::Muted), (Seq::empty(), n, Tone::Plain)],
            None => Seq::empty(),
        })
}

fn revealed_secret(app: &App, id: &String) -> (r: Option<String>)
    ensures
        app.reveals(id@) ==> (r matches Some(s) && s@ == (app.reveal->0).1@),
        !app.reveals(id@) ==> r is None,
{
    match &app.reveal {
        Some(p) => if p.0 == *id { Some(p.1.clone()) } else { None },
        None => None,
    }
}

fn card_info(item: &Item, out: &mut Vec<DetailLine>)
    ensures
        lines_view(final(out)@) == lines_view(old(out)@) + card_info_lines(*item),
{
    let ghost start = lines_view(out@);
    match &item.card {
        Some(c) => {
            if let Some(h) = &c.cardholder_name {
                push_line(out, line("Cardholder: ", h.clone(), Tone::Plain));
            }
            let ghost a = lines_view(out@);
            assert(a =~= start + (if c.cardholder_name is Some { seq![("Cardholder: "@, c.cardholder_name->0@, Tone::Plain)] } else { Seq::empty() }));
            if let Some(b) = &c.brand {
                push_line(out, line("Brand: ", b.clone(), Tone::Plain));
            }
            let ghost b2 = lines_view(out@);
            assert(b2 =~= a + (if c.brand is Some { seq![("Brand: "@, c.brand->0@, Tone::Plain)] } else { Seq::empty() }));
            match (&c.exp_month, &c.exp_year) {
                (Some(m), Some(y)) => push_line(out, line("Expires: ", concat3(m.as_str(), "/", y.as_str()), Tone::Plain)),
                _ => {},
            }
            assert(lines_view(out@) =~= b2 + (if c.exp_month is Some && c.exp_year is Some {
                seq![("Expires: "@, c.exp_month->0@ + "/"@ + c.exp_year->0@, Tone::Plain)]
            } else {
                Seq::empty()
            }));
        },
        None => {
            assert(lines_view(out@) =~= start + card_info_lines(*item));
        },
    }
}

fn card_lines(app: &App, item: &Item, out: &mut Vec<DetailLine>)
    requires
        item.item_type == 3,
    ensures
        lines_view(final(out)@) == lines_view(old(out)@) + card_lines_spec(*app, *item),
{
    let ghost start = lines_view(out@);
    card_info(item, out);
    let ghost info = lines_view(out@);
    let revealed = revealed_secret(app, &item.id);
    let (number, code) = match &item.card {
        Some(c) => (crate::model::clone_opt(&c.number), crate::model::clone_opt(&c.code)),
        None => (None, None),
    };
    let number_line = match &number {
        None => to_string("Number: not on file"),
        Some(n) => match &revealed {
            Some(sec) => concat("Number: ", sec.as_str()),
            None => {
                let m = mask_card_number(n.as_str());
                concat3("Number: ", m.as_str(), "  (press r to reveal)")
            },
        },
    };
    assert(number_line@ == card_number_line(*app, *item));
    let cvv_line = match &code {
        None => to_string("CVV: not on file"),
        Some(_) => if revealed.is_some() {
            match &app.reveal_cvv {
                Some(c) => concat("CVV: ", c.as_str()),
                None => to_string("CVV: •••"),
            }
        } else {
            to_string("CVV: •••  (press r to reveal)")
        },
    };
    assert(cvv_line@ == card_code_line(*app, *item));
    push_line(out, bare(String::new(), Tone::Plain));
    push_line(out, bare(number_line, Tone::Warn));
    push_line(out, bare(cvv_line, Tone::Warn));
    assert(lines_view(out@) =~= start + card_lines_spec(*app, *item));
}

fn login_lines(app: &App, item: &Item, out: &mut Vec<DetailLine>)
    requires
        item.item_type == 1,
    ensures
        lines_view(final(out)@) == lines_view(old(out)@) + login_lines_spec(*app, *item),
{
    let ghost start = lines_view(out@);
    let username = match item.username() {
        Some(u) => to_string(u),
        None => to_string("-"),
    };
    push_line(out, line("Username: ", username, Tone::Plain));
    match item.first_uri() {
        Some(u) => push_line(out, line("URL: ", to_string(u), Tone::Plain)),
        None => {},
    }
    let ghost head = lines_view(out@);
    assert(head =~= start + login_head_lines(*item));
    let totp = if item.has_totp() { to_string("yes (t)") } else { to_string("no") };
    push_line(out, line("TOTP: ", totp, Tone::Plain));
    let password_line = match revealed_secret(app, &item.id) {
        Some(pw) => concat("Password: ", pw.as_str()),
        None => to_string("Password: •••••••• (press r to reveal)"),
    };
    push_line(out, bare(String::new(), Tone::Plain));
    assert(password_line@ == crate::display::password_line(*app, *item));
    push_line(out, bare(password_line, Tone::Warn));
    assert(lines_view(out@) =~= start + login_lines_spec(*app, *item));
}

fn field_lines(item: &Item, out: &mut Vec<DetailLine>)
    ensures
        lines_view(final(out)@) == lines_view(old(out)@) + field_lines_spec(*item),
{
    let fields = item.visible_fields();
    if fields.len() == 0 {
        assert(field_lines_spec(*item) =~= Seq::empty());
        assert(lines_view(out@) =~= lines_view(old(out)@) + field_lines_spec(*item));
        return;
    }
    let ghost start = lines_view(out@);
    push_line(out, bare(String::new(), Tone::Plain));
    push_line(out, bare(to_string("Custom fields:"), Tone::Muted));
    let ghost head = lines_view(out@);
    let mut k: usize = 0;
    while k < fields.len()
        invariant
            k <= fields@.len(),
            item.fields is Some,
            fields@.len() == item.fields->0@.len(),
            forall|m: int| 0 <= m < fields@.len() ==>
                (#[trigger] fields@[m]).0@ == crate::model::visible_field_spec(item.fields->0@[m]).0
                && fields@[m].1@ == crate::model::visible_field_spec(item.fields->0@[m]).1,
            lines_view(out@) == head + item.fields->0@.subrange(0, k as int).map_values(|f: crate::model::CustomField|
                (Seq::<char>::empty(), "  "@ + crate::model::visible_field_spec(f).0 + ": "@ + crate::model::visible_field_spec(f).1, Tone::Plain)),
        decreases fields@.len() - k,
    {
        let a = concat3("  ", fields[k].0.as_str(), ": ");
        let t = concat(a.as_str(), fields[k].1.as_str());
        let ghost fk = item.fields->0@[k as int];
        let ghost before = lines_view(out@);
        push_line(out, bare(t, Tone::Plain));
        proof {
            let fmap = |f: crate::model::CustomField|
                (Seq::<char>::empty(), "  "@ + crate::model::visible_field_spec(f).0 + ": "@ + crate::model::visible_field_spec(f).1, Tone::Plain);
            assert(fields@[k as int].0@ == crate::model::visible_field_spec(fk).0);
            assert(t@ == fmap(fk).1);
            assert(lines_view(out@) == before.push((Seq::<char>::empty(), t@, Tone::Plain)));
            assert(item.fields->0@.subrange(0, k + 1).map_values(fmap)
                =~= item.fields->0@.subrange(0, k as int).map_values(fmap).push(fmap(fk)));
        }
        k = k + 1;
    }
    assert(item.fields->0@.subrange(0, k as int) =~= item.fields->0@);
    assert(lines_view(out@) =~= start + field_lines_spec(*item));
}

/// The lines of the detail popup for an item.
pub fn item_detail_lines(app: &App, item: &Item) -> (r: Vec<DetailLine>)
    ensures
        lines_view(r@) == detail_lines_spec(*app, *item),
{
    let mut out: Vec<DetailLine> = Vec::new();
    push_line(&mut out, line("Type: ", to_string(item.type_label()), Tone::Plain));
    let ghost head = lines_view(out@);
    if item.item_type == 3 {
        card_lines(app, item, &mut out);
    } else if item.item_type == 4 {
        match item.identity_summary() {
            Some(s) => push_line(&mut out, line("Identity: ", s, Tone::Plain)),
            None => {},
        }
    } else if item.item_type == 1 {
        login_lines(app, item, &mut out);
    }
    let ghost kind = lines_view(out@);
    field_lines(item, &mut out);
    let ghost with_fields = lines_view(out@);
    match &item.notes {
        Some(n) => {
            if n.unicode_len() > 0 {
                push_line(&mut out, bare(String::new(), Tone::Plain));
                push_line(&mut out, bare(to_string("Notes:"), Tone::Muted));
                push_line(&mut out, bare(n.clone(), Tone::Plain));
            }
        },
        None => {},
    }
    assert(lines_view(out@) =~= detail_lines_spec(*app, *item));
    out
}

} // verus!
