//! Numbers that are used once.
use vstd::prelude::*;

use crate::ambient;
use crate::text;

verus! {

/// Whether a text is a nonce: a 64-bit number that was drawn at random, in decimal notation.
pub open spec fn is_nonce(s: Seq<char>) -> bool {
    exists|n: u64| #[trigger] ambient::is_drawn(n) && s == text::decimal(n as nat)
}

/// Makes a nonce: a random 64-bit number in decimal notation.
pub fn generate_nonce() -> (res: String)
    ensures
        is_nonce(res@),
        res@.len() <= 20,
{
    let n: u64 = ambient::draw();
    proof {
        text::decimal_of_u64_is_short(n);
    }
    text::decimal_text(n)
}

} // verus!
