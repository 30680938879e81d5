use vstd::prelude::*;

verus! {

/// Whether `b` is a UTF-8 continuation byte.
pub open spec fn is_cont(b: u8) -> bool {
    0x80 <= b <= 0xBF
}

/// The length of the well-formed UTF-8 sequence that starts `s`, or zero
/// when `s` does not start with one (overlong forms, surrogates and code
/// points above U+10FFFF are not well formed).
pub open spec fn char_len(s: Seq<u8>) -> int {
    if s.len() == 0 {
        0
    } else if s[0] <= 0x7F {
        1
    } else if 0xC2 <= s[0] <= 0xDF {
        if s.len() >= 2 && is_cont(s[1]) { 2 } else { 0 }
    } else if 0xE0 <= s[0] <= 0xEF {
        if s.len() >= 3 && is_cont(s[1]) && is_cont(s[2]) && (s[0] != 0xE0 || s[1] >= 0xA0)
            && (s[0] != 0xED || s[1] <= 0x9F) {
            3
        } else {
            0
        }
    } else if 0xF0 <= s[0] <= 0xF4 {
        if s.len() >= 4 && is_cont(s[1]) && is_cont(s[2]) && is_cont(s[3]) && (s[0] != 0xF0
            || s[1] >= 0x90) && (s[0] != 0xF4 || s[1] <= 0x8F) {
            4
        } else {
            0
        }
    } else {
        0
    }
}

/// Whether `s` is well-formed UTF-8: a run of well-formed sequences.
pub open spec fn utf8_valid(s: Seq<u8>) -> bool
    decreases s.len(),
{
    if s.len() == 0 {
        true
    } else {
        let n = char_len(s);
        n > 0 && utf8_valid(s.subrange(n, s.len() as int))
    }
}

fn is_cont_byte(b: u8) -> (r: bool)
    ensures
        r == is_cont(b),
{
    0x80 <= b && b <= 0xBF
}

/// The length of the well-formed sequence at `s[i..]`, or zero.
fn char_len_at(s: &[u8], i: usize) -> (r: usize)
    requires
        i < s@.len(),
    ensures
        r == char_len(s@.subrange(i as int, s@.len() as int)),
        r <= s@.len() - i,
{
    let ghost t = s@.subrange(i as int, s@.len() as int);
    let left: usize = s.len() - i;
    let b0: u8 = s[i];
    assert(t[0] == b0);
    if b0 <= 0x7F {
        1
    } else if 0xC2 <= b0 && b0 <= 0xDF {
        if left >= 2 && is_cont_byte(s[i + 1]) {
            assert(t[1] == s@[i + 1]);
            2
        } else {
            assert(left >= 2 ==> t[1] == s@[i + 1]);
            0
        }
    } else if 0xE0 <= b0 && b0 <= 0xEF {
        if left >= 3 {
            assert(t[1] == s@[i + 1] && t[2] == s@[i + 2]);
            let b1: u8 = s[i + 1];
            if is_cont_byte(b1) && is_cont_byte(s[i + 2]) && (b0 != 0xE0 || b1 >= 0xA0) && (b0
                != 0xED || b1 <= 0x9F) {
                3
            } else {
                0
            }
        } else {
            0
        }
    } else if 0xF0 <= b0 && b0 <= 0xF4 {
        if left >= 4 {
            assert(t[1] == s@[i + 1] && t[2] == s@[i + 2] && t[3] == s@[i + 3]);
            let b1: u8 = s[i + 1];
            if is_cont_byte(b1) && is_cont_byte(s[i + 2]) && is_cont_byte(s[i + 3]) && (b0
                != 0xF0 || b1 >= 0x90) && (b0 != 0xF4 || b1 <= 0x8F) {
                4
            } else {
                0
            }
        } else {
            0
        }
    } else {
        0
    }
}

/// Whether `s` is well-formed UTF-8.
pub fn is_utf8(s: &[u8]) -> (r: bool)
    ensures
        r == utf8_valid(s@),
{
    let mut i: usize = 0;
    assert(s@.subrange(0, s@.len() as int) =~= s@);
    while i < s.len()
        invariant
            i <= s@.len(),
            utf8_valid(s@) == utf8_valid(s@.subrange(i as int, s@.len() as int)),
        decreases s@.len() - i,
    {
        let n: usize = char_len_at(s, i);
        let ghost t = s@.subrange(i as int, s@.len() as int);
        if n == 0 {
            return false;
        }
        assert(t.subrange(n as int, t.len() as int) =~= s@.subrange(i + n, s@.len() as int));
        i = i + n;
    }
    true
}

} // verus!
