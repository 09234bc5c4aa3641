//! Character-level string helpers shared by the rest of the library.
//!
//! Strings are reasoned about through their view, a `Seq<char>`.
use vstd::prelude::*;

verus! {

// ---- std operations that vstd leaves unspecified --------------------------

/// `String::push`: appends one character at the end.
#[verifier::external_body]
pub(crate) fn push_char(s: &mut String, c: char)
    ensures
        final(s)@ == old(s)@.push(c),
{
    s.push(c);
}

/// `String::pop`: removes and returns the last character, if any.
#[verifier::external_body]
pub(crate) fn pop_char(s: &mut String) -> (r: Option<char>)
    ensures
        old(s)@.len() == 0 ==> r is None && final(s)@ == old(s)@,
        old(s)@.len() > 0 ==> r == Some(old(s)@.last()) && final(s)@ == old(s)@.drop_last(),
{
    s.pop()
}

/// Whether a character has the Unicode `White_Space` property, which is
/// what `char::is_whitespace` tests: U+0009 to U+000D, U+0020, U+0085,
/// U+00A0, U+1680, U+2000 to U+200A, U+2028, U+2029, U+202F, U+205F and
/// U+3000.
pub open spec fn unicode_white_space(c: char) -> bool {
    let u = c as u32;
    (0x9 <= u <= 0xd) || u == 0x20 || u == 0x85 || u == 0xa0 || u == 0x1680
        || (0x2000 <= u <= 0x200a) || u == 0x2028 || u == 0x2029 || u == 0x202f
        || u == 0x205f || u == 0x3000
}

/// `char::is_whitespace`.
pub fn is_white_space(c: char) -> (r: bool)
    ensures
        r == unicode_white_space(c),
{
    let u = c as u32;
    (0x9 <= u && u <= 0xd) || u == 0x20 || u == 0x85 || u == 0xa0 || u == 0x1680
        || (0x2000 <= u && u <= 0x200a) || u == 0x2028 || u == 0x2029 || u == 0x202f
        || u == 0x205f || u == 0x3000
}

/// What `str::to_lowercase` returns for a string (full Unicode lowercase
/// mapping, which may change the length).
pub uninterp spec fn unicode_lowercase(s: Seq<char>) -> Seq<char>;

/// `str::to_lowercase`; its result is named `unicode_lowercase`.
#[verifier::external_body]
pub(crate) fn to_lowercase(s: &str) -> (r: String)
    ensures
        r@ == unicode_lowercase(s@),
{
    s.to_lowercase()
}

// ---- conversions between strings and character vectors --------------------

/// The characters of a string, in order.
pub fn chars_of(s: &str) -> (r: Vec<char>)
    ensures
        r@ == s@,
{
    let n = s.unicode_len();
    let mut out: Vec<char> = Vec::new();
    let mut i: usize = 0;
    while i < n
        invariant
            n == s@.len(),
            i <= n,
            out@ == s@.subrange(0, i as int),
        decreases n - i,
    {
        let c = s.get_char(i);
        out.push(c);
        i = i + 1;
        assert(out@ =~= s@.subrange(0, i as int));
    }
    assert(out@ =~= s@);
    out
}

/// Builds a string from the characters `chars[from..to]`.
pub fn string_from_chars(chars: &Vec<char>, from: usize, to: usize) -> (r: String)
    requires
        from <= to <= chars@.len(),
    ensures
        r@ == chars@.subrange(from as int, to as int),
{
    let mut out = String::new();
    let mut i: usize = from;
    while i < to
        invariant
            from <= i <= to,
            to <= chars@.len(),
            out@ == chars@.subrange(from as int, i as int),
        decreases to - i,
    {
        push_char(&mut out, chars[i]);
        i = i + 1;
        assert(out@ =~= chars@.subrange(from as int, i as int));
    }
    out
}

/// Copies a string slice into an owned `String`.
pub fn to_string(s: &str) -> (r: String)
    ensures
        r@ == s@,
{
    s.to_owned()
}

/// Appends `tail` to `s`.
pub fn append(s: &mut String, tail: &str)
    ensures
        final(s)@ == old(s)@ + tail@,
{
    let chars = chars_of(tail);
    let mut i: usize = 0;
    while i < chars.len()
        invariant
            i <= chars@.len(),
            chars@ == tail@,
            s@ == old(s)@ + tail@.subrange(0, i as int),
        decreases chars@.len() - i,
    {
        push_char(s, chars[i]);
        i = i + 1;
        assert(s@ =~= old(s)@ + tail@.subrange(0, i as int));
    }
    assert(tail@.subrange(0, i as int) =~= tail@);
}

/// The concatenation of two strings.
pub fn concat(a: &str, b: &str) -> (r: String)
    ensures
        r@ == a@ + b@,
{
    let mut s = to_string(a);
    append(&mut s, b);
    s
}

/// The concatenation of three strings.
pub fn concat3(a: &str, b: &str, c: &str) -> (r: String)
    ensures
        r@ == a@ + b@ + c@,
{
    let mut s = to_string(a);
    append(&mut s, b);
    append(&mut s, c);
    s
}

/// Whether two strings hold the same characters.
pub fn str_eq(a: &str, b: &str) -> (r: bool)
    ensures
        r == (a@ == b@),
{
    a.to_owned() == b.to_owned()
}

/// The number of characters of a string.
pub fn char_count(s: &str) -> (r: usize)
    ensures
        r == s@.len(),
{
    s.unicode_len()
}

// ---- trimming -------------------------------------------------------------

/// `s` without its leading whitespace.
pub open spec fn trim_start_spec(s: Seq<char>) -> Seq<char>
    decreases s.len(),
{
    if s.len() > 0 && unicode_white_space(s[0]) {
        trim_start_spec(s.drop_first())
    } else {
        s
    }
}

/// `s` without its trailing whitespace.
pub open spec fn trim_end_spec(s: Seq<char>) -> Seq<char>
    decreases s.len(),
{
    if s.len() > 0 && unicode_white_space(s.last()) {
        trim_end_spec(s.drop_last())
    } else {
        s
    }
}

/// `s` without leading and trailing whitespace, as `str::trim` gives it.
pub open spec fn trim_spec(s: Seq<char>) -> Seq<char> {
    trim_end_spec(trim_start_spec(s))
}

proof fn lemma_trim_start_skip(s: Seq<char>, i: int)
    requires
        0 <= i <= s.len(),
        forall|k: int| 0 <= k < i ==> unicode_white_space(#[trigger] s[k]),
    ensures
        trim_start_spec(s) == trim_start_spec(s.subrange(i, s.len() as int)),
    decreases i,
{
    if i > 0 {
        let t = s.drop_first();
        assert forall|k: int| 0 <= k < i - 1 implies unicode_white_space(#[trigger] t[k]) by {
            assert(t[k] == s[k + 1]);
        }
        lemma_trim_start_skip(t, i - 1);
        assert(t.subrange(i - 1, t.len() as int) =~= s.subrange(i, s.len() as int));
    } else {
        assert(s.subrange(0, s.len() as int) =~= s);
    }
}

proof fn lemma_trim_end_cut(s: Seq<char>, j: int)
    requires
        0 <= j <= s.len(),
        forall|k: int| j <= k < s.len() ==> unicode_white_space(#[trigger] s[k]),
    ensures
        trim_end_spec(s) == trim_end_spec(s.subrange(0, j)),
    decreases s.len() - j,
{
    if j < s.len() {
        let t = s.drop_last();
        assert forall|k: int| j <= k < t.len() implies unicode_white_space(#[trigger] t[k]) by {
            assert(t[k] == s[k]);
        }
        lemma_trim_end_cut(t, j);
        assert(t.subrange(0, j) =~= s.subrange(0, j));
    } else {
        assert(s.subrange(0, j) =~= s);
    }
}

/// `str::trim`, computed character by character.
pub fn trim(s: &str) -> (r: String)
    ensures
        r@ == trim_spec(s@),
{
    let chars = chars_of(s);
    let n = chars.len();
    let mut i: usize = 0;
    while i < n && is_white_space(chars[i])
        invariant
            n == chars@.len(),
            chars@ == s@,
            i <= n,
            forall|k: int| 0 <= k < i ==> unicode_white_space(#[trigger] chars@[k]),
        decreases n - i,
    {
        i = i + 1;
    }
    proof {
        lemma_trim_start_skip(s@, i as int);
    }
    let ghost rest = s@.subrange(i as int, n as int);
    assert(trim_start_spec(rest) == rest);
    let mut j: usize = n;
    while j > i && is_white_space(chars[j - 1])
        invariant
            n == chars@.len(),
            chars@ == s@,
            i <= j <= n,
            rest == s@.subrange(i as int, n as int),
            forall|k: int| j <= k < n ==> unicode_white_space(#[trigger] chars@[k]),
        decreases j - i,
    {
        j = j - 1;
    }
    proof {
        assert forall|k: int| j - i <= k < rest.len() implies unicode_white_space(#[trigger] rest[k]) by {
            assert(rest[k] == chars@[k + i]);
        }
        lemma_trim_end_cut(rest, j - i);
        let cut = rest.subrange(0, j - i);
        assert(cut =~= s@.subrange(i as int, j as int));
        if cut.len() > 0 {
            assert(cut.last() == chars@[j - 1]);
        }
    }
    string_from_chars(&chars, i, j)
}

// ---- substring search -----------------------------------------------------

/// Whether `needle` occurs in `hay` as a contiguous run of characters.
pub open spec fn contains_spec(hay: Seq<char>, needle: Seq<char>) -> bool {
    exists|i: int| 0 <= i && i + needle.len() <= hay.len() && #[trigger] hay.subrange(i, i + needle.len()) == needle
}

fn matches_at(hay: &Vec<char>, needle: &Vec<char>, at: usize) -> (r: bool)
    requires
        at + needle@.len() <= hay@.len(),
    ensures
        r == (hay@.subrange(at as int, at + needle@.len()) == needle@),
{
    let hl = hay.len();
    let mut k: usize = 0;
    while k < needle.len()
        invariant
            hl == hay@.len(),
            at + needle@.len() <= hay@.len(),
            k <= needle@.len(),
            forall|m: int| 0 <= m < k ==> hay@[at + m] == needle@[m],
        decreases needle@.len() - k,
    {
        if hay[at + k] != needle[k] {
            assert(hay@.subrange(at as int, at + needle@.len())[k as int] != needle@[k as int]);
            return false;
        }
        k = k + 1;
    }
    assert(hay@.subrange(at as int, at + needle@.len()) =~= needle@);
    true
}

/// Whether `needle` occurs in `hay`, as `str::contains` with a string pattern.
pub fn contains(hay: &str, needle: &str) -> (r: bool)
    ensures
        r == contains_spec(hay@, needle@),
{
    let h = chars_of(hay);
    let nd = chars_of(needle);
    if nd.len() == 0 {
        assert(hay@.subrange(0, 0 + needle@.len() as int) =~= needle@);
        return true;
    }
    if nd.len() > h.len() {
        return false;
    }
    let hl = h.len();
    let last = hl - nd.len();
    let mut at: usize = 0;
    while at <= last
        invariant
            hl == h@.len(),
            h@ == hay@,
            nd@ == needle@,
            nd@.len() > 0,
            last == h@.len() - nd@.len(),
            at <= last + 1,
            forall|i: int| 0 <= i < at ==> #[trigger] hay@.subrange(i, i + needle@.len()) != needle@,
        decreases last + 1 - at,
    {
        if matches_at(&h, &nd, at) {
            return true;
        }
        at = at + 1;
    }
    false
}

// ---- decimal numbers ------------------------------------------------------

/// The ASCII digit for a value below ten.
pub open spec fn digit_char(d: int) -> char {
    if d == 0 { '0' }
    else if d == 1 { '1' }
    else if d == 2 { '2' }
    else if d == 3 { '3' }
    else if d == 4 { '4' }
    else if d == 5 { '5' }
    else if d == 6 { '6' }
    else if d == 7 { '7' }
    else if d == 8 { '8' }
    else { '9' }
}

/// The value of an ASCII digit, or `None` for any other character.
pub open spec fn digit_value(c: char) -> Option<int> {
    if c == '0' { Some(0) }
    else if c == '1' { Some(1) }
    else if c == '2' { Some(2) }
    else if c == '3' { Some(3) }
    else if c == '4' { Some(4) }
    else if c == '5' { Some(5) }
    else if c == '6' { Some(6) }
    else if c == '7' { Some(7) }
    else if c == '8' { Some(8) }
    else if c == '9' { Some(9) }
    else { None }
}

/// The decimal notation of a natural number, without leading zeros.
pub open spec fn decimal(n: nat) -> Seq<char>
    decreases n,
{
    if n < 10 {
        seq![digit_char(n as int)]
    } else {
        decimal(n / 10).push(digit_char((n % 10) as int))
    }
}

fn digit_to_char(d: u64) -> (c: char)
    requires
        d < 10,
    ensures
        c == digit_char(d as int),
{
    if d == 0 { '0' }
    else if d == 1 { '1' }
    else if d == 2 { '2' }
    else if d == 3 { '3' }
    else if d == 4 { '4' }
    else if d == 5 { '5' }
    else if d == 6 { '6' }
    else if d == 7 { '7' }
    else if d == 8 { '8' }
    else { '9' }
}

/// The decimal notation of `n`, as `u64::to_string` writes it.
pub fn u64_to_decimal(n: u64) -> (r: String)
    ensures
        r@ == decimal(n as nat),
    decreases n,
{
    if n < 10 {
        let mut s = String::new();
        push_char(&mut s, digit_to_char(n));
        assert(s@ =~= seq![digit_char(n as int)]);
        s
    } else {
        let mut s = u64_to_decimal(n / 10);
        push_char(&mut s, digit_to_char(n % 10));
        s
    }
}

/// The value of a sequence of ASCII digits (most significant first).
pub open spec fn digits_value(s: Seq<char>) -> int
    decreases s.len(),
{
    if s.len() == 0 {
        0
    } else {
        digits_value(s.drop_last()) * 10 + digit_value(s.last()).unwrap_or(0)
    }
}

/// Whether every character of `s` is an ASCII digit.
pub open spec fn all_digits(s: Seq<char>) -> bool {
    forall|i: int| 0 <= i < s.len() ==> (#[trigger] digit_value(s[i])) is Some
}

/// What `u64::from_str` gives for a string: an optional `+`, then at least
/// one ASCII digit, with a value that fits in 64 bits.
pub open spec fn parse_u64_spec(s: Seq<char>) -> Option<u64> {
    let body = if s.len() > 0 && s[0] == '+' { s.drop_first() } else { s };
    if body.len() == 0 || !all_digits(body) || digits_value(body) > u64::MAX {
        None
    } else {
        Some(digits_value(body) as u64)
    }
}

proof fn lemma_digits_value_nonneg(s: Seq<char>)
    ensures
        digits_value(s) >= 0,
    decreases s.len(),
{
    if s.len() > 0 {
        lemma_digits_value_nonneg(s.drop_last());
    }
}

proof fn lemma_digits_value_prefix_le(s: Seq<char>, i: int)
    requires
        0 <= i <= s.len(),
    ensures
        digits_value(s.subrange(0, i)) <= digits_value(s),
    decreases s.len() - i,
{
    if i < s.len() {
        let t = s.drop_last();
        lemma_digits_value_prefix_le(t, i);
        assert(t.subrange(0, i) =~= s.subrange(0, i));
        lemma_digits_value_nonneg(t);
        assert(digits_value(s) == digits_value(t) * 10 + digit_value(s.last()).unwrap_or(0));
        assert(digits_value(t) * 10 >= digits_value(t)) by (nonlinear_arith)
            requires digits_value(t) >= 0;
    } else {
        assert(s.subrange(0, i) =~= s);
    }
}

proof fn lemma_parse_none(s: Seq<char>, body: Seq<char>)
    requires
        body == (if s.len() > 0 && s[0] == '+' { s.drop_first() } else { s }),
        body.len() == 0 || !all_digits(body) || digits_value(body) > u64::MAX,
    ensures
        parse_u64_spec(s) is None,
{
}

fn char_digit(c: char) -> (r: Option<u64>)
    ensures
        r is Some <==> digit_value(c) is Some,
        r is Some ==> r->0 as int == digit_value(c)->0,
{
    if c == '0' { Some(0) }
    else if c == '1' { Some(1) }
    else if c == '2' { Some(2) }
    else if c == '3' { Some(3) }
    else if c == '4' { Some(4) }
    else if c == '5' { Some(5) }
    else if c == '6' { Some(6) }
    else if c == '7' { Some(7) }
    else if c == '8' { Some(8) }
    else if c == '9' { Some(9) }
    else { None }
}

/// `u64::from_str`, computed digit by digit.
pub fn parse_u64(s: &str) -> (r: Option<u64>)
    ensures
        r == parse_u64_spec(s@),
{
    let chars = chars_of(s);
    let start: usize = if chars.len() > 0 && chars[0] == '+' { 1 } else { 0 };
    let ghost body = if s@.len() > 0 && s@[0] == '+' { s@.drop_first() } else { s@ };
    assert(body =~= s@.subrange(start as int, s@.len() as int));
    if start == chars.len() {
        return None;
    }
    let mut value: u64 = 0;
    let mut i: usize = start;
    while i < chars.len()
        invariant
            chars@ == s@,
            start <= i <= chars@.len(),
            body == s@.subrange(start as int, s@.len() as int),
            body == (if s@.len() > 0 && s@[0] == '+' { s@.drop_first() } else { s@ }),
            all_digits(body.subrange(0, i - start)),
            value as int == digits_value(body.subrange(0, i - start)),
        decreases chars@.len() - i,
    {
        let ghost prefix = body.subrange(0, i - start);
        let ghost next = body.subrange(0, i + 1 - start);
        assert(next.drop_last() =~= prefix);
        assert(next.last() == chars@[i as int]);
        match char_digit(chars[i]) {
            None => {
                assert(body[i - start] == chars@[i as int]);
                assert(!all_digits(body)) by {
                    assert(digit_value(body[i - start]) is None);
                }
                proof { lemma_parse_none(s@, body); }
                return None;
            },
            Some(d) => {
                let grown = match value.checked_mul(10) {
                    Some(v) => v.checked_add(d),
                    None => None,
                };
                match grown {
                    None => {
                        proof {
                            assert(digit_value(next.last()).unwrap_or(0) == d as int);
                            assert(digits_value(next) == digits_value(prefix) * 10 + d as int);
                            assert(digits_value(next) > u64::MAX);
                            lemma_digits_value_prefix_le(body, i + 1 - start);
                            assert(body.subrange(0, i + 1 - start) == next);
                            lemma_parse_none(s@, body);
                        }
                        return None;
                    },
                    Some(v) => {
                        value = v;
                    },
                }
            },
        }
        i = i + 1;
        assert forall|k: int| 0 <= k < next.len() implies (#[trigger] digit_value(next[k])) is Some by {
            if k < prefix.len() {
                assert(next[k] == prefix[k]);
            }
        }
    }
    assert(body.subrange(0, i - start) =~= body);
    Some(value)
}

// ---- joining --------------------------------------------------------------

/// The strings of `parts` with `sep` between each two neighbours.
pub open spec fn join_spec(parts: Seq<Seq<char>>, sep: Seq<char>) -> Seq<char>
    decreases parts.len(),
{
    if parts.len() == 0 {
        Seq::empty()
    } else if parts.len() == 1 {
        parts[0]
    } else {
        join_spec(parts.drop_last(), sep) + sep + parts.last()
    }
}

/// The views of a vector of strings.
pub open spec fn views(v: Seq<String>) -> Seq<Seq<char>> {
    v.map_values(|s: String| s@)
}

/// `[String]::join`.
pub fn join(parts: &Vec<String>, sep: &str) -> (r: String)
    ensures
        r@ == join_spec(views(parts@), sep@),
{
    let mut out = String::new();
    let mut i: usize = 0;
    while i < parts.len()
        invariant
            i <= parts@.len(),
            out@ == join_spec(views(parts@).subrange(0, i as int), sep@),
        decreases parts@.len() - i,
    {
        let ghost before = views(parts@).subrange(0, i as int);
        let ghost after = views(parts@).subrange(0, i + 1);
        assert(after.drop_last() =~= before);
        if i > 0 {
            append(&mut out, sep);
        }
        append(&mut out, parts[i].as_str());
        i = i + 1;
        proof {
            if before.len() == 0 {
                assert(out@ =~= after[0]);
            }
        }
    }
    assert(views(parts@).subrange(0, i as int) =~= views(parts@));
    out
}

} // verus!
