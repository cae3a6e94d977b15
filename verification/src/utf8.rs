//! Validation of UTF-8 text, the well-formedness rule for the string values
//! the encoder accepts.

use vstd::prelude::*;

verus! {

/// A continuation byte of a multi-byte UTF-8 sequence.
pub open spec fn is_cont(b: u8) -> bool {
    0x80 <= b <= 0xBF
}

/// Whether `s` is a valid UTF-8 byte sequence: each scalar value is encoded
/// in its shortest form and surrogate code points are excluded.
pub open spec fn is_utf8(s: Seq<u8>) -> bool
    decreases s.len(),
{
    if s.len() == 0 {
        true
    } else {
        let b0 = s[0];
        if b0 < 0x80 {
            is_utf8(s.skip(1))
        } else if 0xC2 <= b0 && b0 <= 0xDF {
            s.len() >= 2 && is_cont(s[1]) && is_utf8(s.skip(2))
        } else if b0 == 0xE0 {
            s.len() >= 3 && 0xA0 <= s[1] <= 0xBF && is_cont(s[2]) && is_utf8(s.skip(3))
        } else if 0xE1 <= b0 && b0 <= 0xEF && b0 != 0xED {
            s.len() >= 3 && is_cont(s[1]) && is_cont(s[2]) && is_utf8(s.skip(3))
        } else if b0 == 0xED {
            s.len() >= 3 && 0x80 <= s[1] <= 0x9F && is_cont(s[2]) && is_utf8(s.skip(3))
        } else if b0 == 0xF0 {
            s.len() >= 4 && 0x90 <= s[1] <= 0xBF && is_cont(s[2]) && is_cont(s[3])
                && is_utf8(s.skip(4))
        } else if 0xF1 <= b0 && b0 <= 0xF3 {
            s.len() >= 4 && is_cont(s[1]) && is_cont(s[2]) && is_cont(s[3]) && is_utf8(s.skip(4))
        } else if b0 == 0xF4 {
            s.len() >= 4 && 0x80 <= s[1] <= 0x8F && is_cont(s[2]) && is_cont(s[3])
                && is_utf8(s.skip(4))
        } else {
            false
        }
    }
}

proof fn lemma_skip_skip(s: Seq<u8>, i: int, k: int)
    requires
        0 <= i,
        0 <= k,
        i + k <= s.len(),
    ensures
        s.skip(i).skip(k) == s.skip(i + k),
{
    assert(s.skip(i).skip(k) =~= s.skip(i + k));
}

/// Checks whether `v` holds valid UTF-8 text.
#[verifier::loop_isolation(false)]
pub fn validate_utf8(v: &Vec<u8>) -> (r: bool)
    ensures
        r <==> is_utf8(v@),
{
    let n = v.len();
    let mut i: usize = 0;
    proof {
        assert(v@.skip(0) =~= v@);
    }
    while i < n
        invariant
            i <= n,
            is_utf8(v@) <==> is_utf8(v@.skip(i as int)),
        decreases n - i,
    {
        let b0 = v[i];
        let width: usize;
        if b0 < 0x80 {
            width = 1;
        } else if 0xC2 <= b0 && b0 <= 0xDF {
            if n - i >= 2 && 0x80 <= v[i + 1] && v[i + 1] <= 0xBF {
                width = 2;
            } else {
                return false;
            }
        } else if b0 == 0xE0 {
            if n - i >= 3 && 0xA0 <= v[i + 1] && v[i + 1] <= 0xBF && 0x80 <= v[i + 2]
                && v[i + 2] <= 0xBF {
                width = 3;
            } else {
                return false;
            }
        } else if 0xE1 <= b0 && b0 <= 0xEF && b0 != 0xED {
            if n - i >= 3 && 0x80 <= v[i + 1] && v[i + 1] <= 0xBF && 0x80 <= v[i + 2]
                && v[i + 2] <= 0xBF {
                width = 3;
            } else {
                return false;
            }
        } else if b0 == 0xED {
            if n - i >= 3 && 0x80 <= v[i + 1] && v[i + 1] <= 0x9F && 0x80 <= v[i + 2]
                && v[i + 2] <= 0xBF {
                width = 3;
            } else {
                return false;
            }
        } else if b0 == 0xF0 {
            if n - i >= 4 && 0x90 <= v[i + 1] && v[i + 1] <= 0xBF && 0x80 <= v[i + 2]
                && v[i + 2] <= 0xBF && 0x80 <= v[i + 3] && v[i + 3] <= 0xBF {
                width = 4;
            } else {
                return false;
            }
        } else if 0xF1 <= b0 && b0 <= 0xF3 {
            if n - i >= 4 && 0x80 <= v[i + 1] && v[i + 1] <= 0xBF && 0x80 <= v[i + 2]
                && v[i + 2] <= 0xBF && 0x80 <= v[i + 3] && v[i + 3] <= 0xBF {
                width = 4;
            } else {
                return false;
            }
        } else if b0 == 0xF4 {
            if n - i >= 4 && 0x80 <= v[i + 1] && v[i + 1] <= 0x8F && 0x80 <= v[i + 2]
                && v[i + 2] <= 0xBF && 0x80 <= v[i + 3] && v[i + 3] <= 0xBF {
                width = 4;
            } else {
                return false;
            }
        } else {
            return false;
        }
        proof {
            lemma_skip_skip(v@, i as int, width as int);
        }
        i = i + width;
    }
    assert(v@.skip(i as int) =~= Seq::<u8>::empty());
    true
}

} // verus!
