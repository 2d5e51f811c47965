//! Wide-character strings as the Windows shell reads them: UTF-16 code
//! units with a terminating zero.

use vstd::prelude::*;
use vstd::string::StrSliceExecFns;

verus! {

/// The UTF-16 code units of one character: the character itself below
/// 0x10000, else a high and a low surrogate.
pub open spec fn utf16_units(c: char) -> Seq<u16> {
    let n = c as u32 as int;
    if n < 0x10000 {
        seq![n as u16]
    } else {
        seq![(0xD800 + (n - 0x10000) / 0x400) as u16, (0xDC00 + (n - 0x10000) % 0x400) as u16]
    }
}

/// The UTF-16 code units of a string, in order.
pub open spec fn utf16(s: Seq<char>) -> Seq<u16>
    decreases s.len(),
{
    if s.len() == 0 {
        Seq::empty()
    } else {
        utf16(s.drop_last()) + utf16_units(s.last())
    }
}

/// The UTF-16 code units of a string, followed by a zero.
pub open spec fn wide(s: Seq<char>) -> Seq<u16> {
    utf16(s).push(0u16)
}

/// Encodes `s` as UTF-16 and appends the terminating zero.
pub fn to_wide(s: &str) -> (w: Vec<u16>)
    ensures
        w@ == wide(s@),
{
    let n = s.unicode_len();
    let mut w: Vec<u16> = Vec::new();
    let mut i: usize = 0;
    while i < n
        invariant
            n == s@.len(),
            i <= n,
            w@ == utf16(s@.take(i as int)),
        decreases n - i,
    {
        let c = s.get_char(i);
        let code: u32 = c as u32;
        proof {
            assert(s@.take(i + 1).drop_last() == s@.take(i as int));
            assert(s@.take(i + 1).last() == c);
        }
        if code < 0x10000 {
            w.push(code as u16);
        } else {
            let rest: u32 = code - 0x10000;
            let high: u32 = 0xD800 + rest / 0x400;
            let low: u32 = 0xDC00 + rest % 0x400;
            w.push(high as u16);
            w.push(low as u16);
        }
        i += 1;
        assert(w@ == utf16(s@.take(i as int)));
    }
    proof {
        assert(s@.take(n as int) == s@);
    }
    w.push(0u16);
    w
}

} // verus!
