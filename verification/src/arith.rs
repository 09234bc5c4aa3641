//! Index arithmetic for the list cursors that wrap around.
use vstd::prelude::*;
use vstd::arithmetic::div_mod::{
    lemma_add_mod_noop, lemma_mod_add_multiples_vanish, lemma_sub_mod_noop, lemma_mod_bound,
};

verus! {

/// `current + delta`, wrapped into `0..len` (Euclidean remainder), as
/// `i32::rem_euclid` computes it for the list cursors.
pub fn wrap_index(current: usize, delta: i32, len: usize) -> (r: usize)
    requires
        len > 0,
    ensures
        r as int == (current as int + delta as int) % (len as int),
        r < len,
{
    let n = len as u128;
    let c = (current as u128) % n;
    let mag: u128 = if delta >= 0 { delta as u128 } else { (-(delta as i64)) as u128 };
    let m = mag % n;
    proof {
        lemma_mod_bound(current as int, len as int);
        lemma_mod_bound(mag as int, len as int);
    }
    let r = if delta >= 0 {
        proof {
            lemma_add_mod_noop(current as int, delta as int, len as int);
        }
        (c + m) % n
    } else {
        proof {
            lemma_mod_add_multiples_vanish(c as int - m as int, len as int);
            lemma_sub_mod_noop(current as int, mag as int, len as int);
            assert(current as int + delta as int == current as int - mag as int);
        }
        (c + n - m) % n
    };
    proof {
        lemma_mod_bound((current as int + delta as int), len as int);
    }
    r as usize
}

} // verus!
