//! Well-formed UTF-8, as the table of well-formed byte sequences in the
//! Unicode standard gives it.
use vstd::prelude::*;

verus! {

pub open spec fn is_cont(b: u8) -> bool {
    0x80 <= b <= 0xBF
}

/// The length of the well-formed encoded character that starts at `i` in
/// `s`, or 0 where none does.
pub open spec fn char_len_at(s: Seq<u8>, i: int) -> nat {
    let n = s.len() - i;
    let b0 = s[i];
    if b0 <= 0x7F {
        1
    } else if 0xC2 <= b0 <= 0xDF {
        if n >= 2 && is_cont(s[i + 1]) { 2 } else { 0 }
    } else if 0xE0 <= b0 <= 0xEF {
        if n >= 3 && is_cont(s[i + 2]) && (if b0 == 0xE0 {
            0xA0 <= s[i + 1] <= 0xBF
        } else if b0 == 0xED {
            0x80 <= s[i + 1] <= 0x9F
        } else {
            is_cont(s[i + 1])
        }) {
            3
        } else {
            0
        }
    } else if 0xF0 <= b0 <= 0xF4 {
        if n >= 4 && is_cont(s[i + 2]) && is_cont(s[i + 3]) && (if b0 == 0xF0 {
            0x90 <= s[i + 1] <= 0xBF
        } else if b0 == 0xF4 {
            0x80 <= s[i + 1] <= 0x8F
        } else {
            is_cont(s[i + 1])
        }) {
            4
        } else {
            0
        }
    } else {
        0
    }
}

/// The bytes of `s` from `i` on are a sequence of well-formed characters.
pub open spec fn utf8_from(s: Seq<u8>, i: int) -> bool
    decreases s.len() - i,
{
    if i < 0 || i >= s.len() {
        i == s.len()
    } else {
        let k = char_len_at(s, i);
        k > 0 && utf8_from(s, i + k)
    }
}

/// `s` is well-formed UTF-8.
pub open spec fn utf8_valid(s: Seq<u8>) -> bool {
    utf8_from(s, 0)
}

fn char_len(s: &[u8], i: usize) -> (r: usize)
    requires
        i < s@.len(),
    ensures
        r == char_len_at(s@, i as int),
        r <= s@.len() - i,
{
    let n = s.len() - i;
    let b0 = s[i];
    if b0 <= 0x7F {
        1
    } else if 0xC2 <= b0 && b0 <= 0xDF {
        if n >= 2 && 0x80 <= s[i + 1] && s[i + 1] <= 0xBF { 2 } else { 0 }
    } else if 0xE0 <= b0 && b0 <= 0xEF {
        if n < 3 {
            return 0;
        }
        let b1 = s[i + 1];
        let second_ok = if b0 == 0xE0 {
            0xA0 <= b1 && b1 <= 0xBF
        } else if b0 == 0xED {
            0x80 <= b1 && b1 <= 0x9F
        } else {
            0x80 <= b1 && b1 <= 0xBF
        };
        if second_ok && 0x80 <= s[i + 2] && s[i + 2] <= 0xBF { 3 } else { 0 }
    } else if 0xF0 <= b0 && b0 <= 0xF4 {
        if n < 4 {
            return 0;
        }
        let b1 = s[i + 1];
        let second_ok = if b0 == 0xF0 {
            0x90 <= b1 && b1 <= 0xBF
        } else if b0 == 0xF4 {
            0x80 <= b1 && b1 <= 0x8F
        } else {
            0x80 <= b1 && b1 <= 0xBF
        };
        if second_ok && 0x80 <= s[i + 2] && s[i + 2] <= 0xBF && 0x80 <= s[i + 3] && s[i + 3]
            <= 0xBF {
            4
        } else {
            0
        }
    } else {
        0
    }
}

/// Whether `s` is well-formed UTF-8.
pub fn is_utf8(s: &[u8]) -> (r: bool)
    ensures
        r == utf8_valid(s@),
{
    let mut i: usize = 0;
    while i < s.len()
        invariant
            i <= s@.len(),
            utf8_valid(s@) == utf8_from(s@, i as int),
        decreases s@.len() - i,
    {
        let k = char_len(s, i);
        if k == 0 {
            return false;
        }
        i = i + k;
    }
    true
}

} // verus!
