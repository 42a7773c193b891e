use vstd::prelude::*;

verus! {

/// Is `b` a UTF-8 continuation byte (`10xxxxxx`)?
pub open spec fn is_cont_byte(b: u8) -> bool {
    0x80 <= b && b <= 0xBF
}

/// Length of the well-formed UTF-8 scalar encoding that starts at `s[i]`,
/// or 0 if no well-formed encoding starts there. Follows the shortest-form
/// rules: no overlong encodings, no surrogates, nothing above U+10FFFF.
pub open spec fn utf8_step(s: Seq<u8>, i: int) -> int
    recommends
        0 <= i < s.len(),
{
    let n = s.len() as int;
    let b0 = s[i];
    if b0 < 0x80 {
        1
    } else if 0xC2 <= b0 && b0 <= 0xDF {
        if i + 1 < n && is_cont_byte(s[i + 1]) {
            2
        } else {
            0
        }
    } else if b0 == 0xE0 {
        if i + 2 < n && 0xA0 <= s[i + 1] && s[i + 1] <= 0xBF && is_cont_byte(s[i + 2]) {
            3
        } else {
            0
        }
    } else if (0xE1 <= b0 && b0 <= 0xEC) || b0 == 0xEE || b0 == 0xEF {
        if i + 2 < n && is_cont_byte(s[i + 1]) && is_cont_byte(s[i + 2]) {
            3
        } else {
            0
        }
    } else if b0 == 0xED {
        if i + 2 < n && 0x80 <= s[i + 1] && s[i + 1] <= 0x9F && is_cont_byte(s[i + 2]) {
            3
        } else {
            0
        }
    } else if b0 == 0xF0 {
        if i + 3 < n && 0x90 <= s[i + 1] && s[i + 1] <= 0xBF && is_cont_byte(s[i + 2])
            && is_cont_byte(s[i + 3]) {
            4
        } else {
            0
        }
    } else if 0xF1 <= b0 && b0 <= 0xF3 {
        if i + 3 < n && is_cont_byte(s[i + 1]) && is_cont_byte(s[i + 2]) && is_cont_byte(s[i + 3]) {
            4
        } else {
            0
        }
    } else if b0 == 0xF4 {
        if i + 3 < n && 0x80 <= s[i + 1] && s[i + 1] <= 0x8F && is_cont_byte(s[i + 2])
            && is_cont_byte(s[i + 3]) {
            4
        } else {
            0
        }
    } else {
        0
    }
}

/// Is `s` from position `i` on a well-formed UTF-8 byte sequence?
pub open spec fn is_utf8_from(s: Seq<u8>, i: int) -> bool
    recommends
        0 <= i <= s.len(),
    decreases s.len() - i,
{
    if i >= s.len() {
        true
    } else {
        let k = utf8_step(s, i);
        k > 0 && is_utf8_from(s, i + k)
    }
}

/// Is `s` a well-formed UTF-8 byte sequence, i.e. valid text?
pub open spec fn is_utf8(s: Seq<u8>) -> bool {
    is_utf8_from(s, 0)
}

/// Decide whether `s` is valid text (well-formed UTF-8).
pub fn validate_utf8(s: &Vec<u8>) -> (r: bool)
    ensures
        r == is_utf8(s@),
{
    let n = s.len();
    let mut i: usize = 0;
    while i < n
        invariant
            i <= n,
            n == s@.len(),
            is_utf8(s@) == is_utf8_from(s@, i as int),
        decreases n - i,
    {
        let b0 = s[i];
        let k: usize;
        if b0 < 0x80 {
            k = 1;
        } else if 0xC2 <= b0 && b0 <= 0xDF {
            if n - i > 1 && is_cont(s[i + 1]) {
                k = 2;
            } else {
                return false;
            }
        } else if b0 == 0xE0 {
            if n - i > 2 && 0xA0 <= s[i + 1] && s[i + 1] <= 0xBF && is_cont(s[i + 2]) {
                k = 3;
            } else {
                return false;
            }
        } else if (0xE1 <= b0 && b0 <= 0xEC) || b0 == 0xEE || b0 == 0xEF {
            if n - i > 2 && is_cont(s[i + 1]) && is_cont(s[i + 2]) {
                k = 3;
            } else {
                return false;
            }
        } else if b0 == 0xED {
            if n - i > 2 && 0x80 <= s[i + 1] && s[i + 1] <= 0x9F && is_cont(s[i + 2]) {
                k = 3;
            } else {
                return false;
            }
        } else if b0 == 0xF0 {
            if n - i > 3 && 0x90 <= s[i + 1] && s[i + 1] <= 0xBF && is_cont(s[i + 2])
                && is_cont(s[i + 3]) {
                k = 4;
            } else {
                return false;
            }
        } else if 0xF1 <= b0 && b0 <= 0xF3 {
            if n - i > 3 && is_cont(s[i + 1]) && is_cont(s[i + 2]) && is_cont(s[i + 3]) {
                k = 4;
            } else {
                return false;
            }
        } else if b0 == 0xF4 {
            if n - i > 3 && 0x80 <= s[i + 1] && s[i + 1] <= 0x8F && is_cont(s[i + 2])
                && is_cont(s[i + 3]) {
                k = 4;
            } else {
                return false;
            }
        } else {
            return false;
        }
        proof {
            assert(utf8_step(s@, i as int) == k);
        }
        i = i + k;
    }
    true
}

/// Is `b` a UTF-8 continuation byte?
fn is_cont(b: u8) -> (r: bool)
    ensures
        r == is_cont_byte(b),
{
    0x80 <= b && b <= 0xBF
}

/// Compare two byte strings for equality.
pub fn bytes_eq(a: &Vec<u8>, b: &Vec<u8>) -> (r: bool)
    ensures
        r == (a@ == b@),
{
    if a.len() != b.len() {
        return false;
    }
    let mut i: usize = 0;
    while i < a.len()
        invariant
            i <= a@.len(),
            a@.len() == b@.len(),
            forall|j: int| 0 <= j < i ==> a@[j] == b@[j],
        decreases a@.len() - i,
    {
        if a[i] != b[i] {
            return false;
        }
        i = i + 1;
    }
    proof {
        assert(a@ =~= b@);
    }
    true
}

} // verus!
