//! Fixed-width padded byte strings.
//!
//! Every template field is stored right-padded with zero bytes to a
//! fixed width, so that all slots occupy the same byte count and a slot
//! offset is plain arithmetic.  Padding on write and stripping on read
//! form an explicit encode/decode pair; an input wider than its fixed
//! width is rejected by the callers, never truncated.

use vstd::prelude::*;

verus! {

/// Fixed width of a stored template name, in bytes.
pub const MAX_NAME_LENGTH: usize = 32;

/// Fixed width of a stored symbol, in bytes.
pub const MAX_SYMBOL_LENGTH: usize = 10;

/// Fixed width of a stored template uri, in bytes.
pub const MAX_URI_LENGTH: usize = 200;

/// `s` right-padded with zero bytes to exactly `w` bytes.
pub open spec fn pad_zeros(s: Seq<u8>, w: nat) -> Seq<u8>
    recommends
        s.len() <= w,
{
    s + Seq::new((w - s.len()) as nat, |i: int| 0u8)
}

/// `s` with every trailing zero byte removed.
pub open spec fn strip_trailing_zeros(s: Seq<u8>) -> Seq<u8>
    decreases s.len(),
{
    if s.len() == 0 || s[s.len() - 1] != 0 {
        s
    } else {
        strip_trailing_zeros(s.drop_last())
    }
}

/// Whether `s` itself ends in no zero byte, so that nothing of it is
/// lost when padding is stripped back off.
pub open spec fn no_trailing_zero(s: Seq<u8>) -> bool {
    s.len() == 0 || s[s.len() - 1] != 0
}

/// Padding and then stripping gives back exactly the original bytes,
/// for any original that fits the width and does not itself end in a
/// zero byte.
pub proof fn lemma_pad_strip_round_trip(s: Seq<u8>, w: nat)
    requires
        s.len() <= w,
        no_trailing_zero(s),
    ensures
        strip_trailing_zeros(pad_zeros(s, w)) == s,
    decreases w - s.len(),
{
    if s.len() == w {
        assert(pad_zeros(s, w) =~= s);
    } else {
        let p = pad_zeros(s, w);
        assert(p.len() == w);
        assert(p[w - 1] == 0);
        assert(p.drop_last() =~= pad_zeros(s, (w - 1) as nat));
        lemma_pad_strip_round_trip(s, (w - 1) as nat);
    }
}

/// Right-pad `s` with zero bytes to exactly `w` bytes.
pub fn pad_to_width(s: &Vec<u8>, w: usize) -> (r: Vec<u8>)
    requires
        s@.len() <= w,
    ensures
        r@ == pad_zeros(s@, w as nat),
        r@.len() == w,
{
    let mut r: Vec<u8> = Vec::new();
    let mut i: usize = 0;
    while i < s.len()
        invariant
            i <= s@.len() <= w,
            r@ =~= s@.subrange(0, i as int),
        decreases s@.len() - i,
    {
        r.push(s[i]);
        i += 1;
    }
    assert(r@ =~= s@);
    while r.len() < w
        invariant
            s@.len() <= w,
            s@.len() <= r@.len() <= w,
            r@ =~= s@ + Seq::new((r@.len() - s@.len()) as nat, |j: int| 0u8),
        decreases w - r@.len(),
    {
        r.push(0u8);
    }
    assert(r@ =~= pad_zeros(s@, w as nat));
    r
}

/// Strip the zero-byte padding off the end of `s`.
pub fn strip_padding(s: &Vec<u8>) -> (r: Vec<u8>)
    ensures
        r@ == strip_trailing_zeros(s@),
{
    let mut end: usize = s.len();
    proof {
        assert(s@.subrange(0, end as int) =~= s@);
    }
    while end > 0 && s[end - 1] == 0
        invariant
            end <= s@.len(),
            strip_trailing_zeros(s@) == strip_trailing_zeros(s@.subrange(0, end as int)),
        decreases end,
    {
        proof {
            let cur = s@.subrange(0, end as int);
            assert(cur[end - 1] == 0);
            assert(cur.drop_last() =~= s@.subrange(0, end - 1));
        }
        end -= 1;
    }
    proof {
        let cur = s@.subrange(0, end as int);
        if end > 0 {
            assert(cur[end - 1] != 0);
        }
        assert(strip_trailing_zeros(cur) == cur);
    }
    let mut r: Vec<u8> = Vec::new();
    let mut i: usize = 0;
    while i < end
        invariant
            i <= end <= s@.len(),
            r@ =~= s@.subrange(0, i as int),
        decreases end - i,
    {
        r.push(s[i]);
        i += 1;
    }
    assert(r@ =~= s@.subrange(0, end as int));
    r
}

} // verus!
