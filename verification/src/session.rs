//! The cached session: `~/.cache/bw-tui/session` holds the session key and
//! `session_time` the second it was created. The driver reads and writes
//! the files; the library decides what they mean.
use vstd::prelude::*;
use crate::text::{
    decimal, digit_char, digit_value, digits_value, all_digits, parse_u64, parse_u64_spec, trim, trim_spec,
    trim_start_spec, trim_end_spec, u64_to_decimal, unicode_white_space,
};

verus! {

/// The session a cache holds, if it is usable at `now`: the key file's
/// trimmed text when not empty, with the time file's trimmed number, and
/// at most `max_age` seconds old.
pub open spec fn cached_session_spec(
    key_text: Option<Seq<char>>,
    time_text: Option<Seq<char>>,
    now: u64,
    max_age: u64,
) -> Option<(Seq<char>, u64)> {
    match key_text {
        None => None,
        Some(k) => if trim_spec(k).len() == 0 {
            None
        } else {
            match time_text {
                None => None,
                Some(t) => match parse_u64_spec(trim_spec(t)) {
                    None => None,
                    Some(ts) => if (if now >= ts { now - ts } else { 0 }) > max_age {
                        None
                    } else {
                        Some((trim_spec(k), ts))
                    },
                },
            }
        },
    }
}

/// Reads the cache: the contents of the key file and the time file (none
/// when a file could not be read), the current time and the longest a
/// session may live.
pub fn cached_session(
    key_text: Option<String>,
    time_text: Option<String>,
    now: u64,
    max_age: u64,
) -> (r: Option<(String, u64)>)
    ensures
        match r {
            Some((k, ts)) => cached_session_spec(crate::model::opt_view(key_text), crate::model::opt_view(time_text), now, max_age)
                == Some((k@, ts)),
            None => cached_session_spec(crate::model::opt_view(key_text), crate::model::opt_view(time_text), now, max_age) is None,
        },
{
    let key = match &key_text {
        Some(k) => trim(k.as_str()),
        None => return None,
    };
    if key.unicode_len() == 0 {
        return None;
    }
    let t = match &time_text {
        Some(t) => trim(t.as_str()),
        None => return None,
    };
    let ts = match parse_u64(t.as_str()) {
        Some(ts) => ts,
        None => return None,
    };
    if now.saturating_sub(ts) > max_age {
        return None;
    }
    Some((key, ts))
}

/// What the time file holds for a session created at `ts`.
pub fn session_time_text(ts: u64) -> (r: String)
    ensures
        r@ == decimal(ts as nat),
{
    u64_to_decimal(ts)
}

// ---- the cache round trip ---------------------------------------------------

proof fn lemma_decimal_digits(n: nat)
    ensures
        decimal(n).len() > 0,
        all_digits(decimal(n)),
        digits_value(decimal(n)) == n,
        decimal(n)[0] != '+',
    decreases n,
{
    let last = (n % 10) as int;
    assert(digit_value(digit_char(last)) == Some(last)) by {
        assert(0 <= last < 10);
    }
    if n < 10 {
        let d = decimal(n);
        assert(d.drop_last() =~= Seq::<char>::empty());
        assert(d.last() == digit_char(last));
        assert(digits_value(d) == digits_value(d.drop_last()) * 10 + digit_value(d.last()).unwrap_or(0));
        assert(digits_value(Seq::<char>::empty()) == 0);
    } else {
        lemma_decimal_digits(n / 10);
        assert(decimal(n).last() == digit_char(last));
        let d = decimal(n);
        let prev = decimal(n / 10);
        assert(d.drop_last() =~= prev);
        assert forall|i: int| 0 <= i < d.len() implies (#[trigger] digit_value(d[i])) is Some by {
            if i < prev.len() {
                assert(d[i] == prev[i]);
            }
        }
        assert(d[0] == prev[0]);
        assert(digits_value(d) == digits_value(d.drop_last()) * 10 + digit_value(d.last()).unwrap_or(0));
        assert(digits_value(d) == (n / 10) * 10 + last);
    }
}

proof fn lemma_trim_digits(s: Seq<char>)
    requires
        all_digits(s),
        s.len() > 0,
    ensures
        trim_spec(s) == s,
{
    assert(!unicode_white_space(s[0])) by {
        assert(digit_value(s[0]) is Some);
    }
    assert(trim_start_spec(s) == s);
    assert(!unicode_white_space(s.last())) by {
        assert(digit_value(s[s.len() - 1]) is Some);
    }
    assert(trim_end_spec(s) == s);
}

/// What a save writes, a load gives back: a session key without
/// surrounding whitespace, stored with the time it was created, is read
/// back as that key and time for as long as it is no older than the
/// maximum age.
pub proof fn lemma_saved_session_loads_back(key: Seq<char>, ts: u64, now: u64, max_age: u64)
    requires
        key.len() > 0,
        trim_spec(key) == key,
        (if now >= ts { now - ts } else { 0 }) <= max_age,
    ensures
        cached_session_spec(Some(key), Some(decimal(ts as nat)), now, max_age) == Some((key, ts)),
{
    lemma_decimal_digits(ts as nat);
    lemma_trim_digits(decimal(ts as nat));
}

/// A cached session older than the maximum age is never used.
pub proof fn lemma_expired_session_unused(key_text: Option<Seq<char>>, time_text: Option<Seq<char>>, now: u64, max_age: u64)
    ensures
        cached_session_spec(key_text, time_text, now, max_age) matches Some((k, ts))
            ==> (if now >= ts { now - ts } else { 0 }) <= max_age && k.len() > 0,
{
}

} // verus!
