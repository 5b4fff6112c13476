//! UTF-8 well-formedness.
//!
//! Sources handed in as raw bytes (standard input, inline code) must be valid
//! text before they may become a virtual file; a failed decode aborts the
//! attempt before any worker exists.  The predicate here is the standard
//! UTF-8 shortest-form table: no overlong encodings, no surrogate code
//! points, nothing above U+10FFFF.

use vstd::prelude::*;

verus! {

/// How many bytes an encoded scalar value starting with `b` occupies,
/// or 0 when `b` cannot begin a well-formed encoding.
pub open spec fn encoded_len(b: u8) -> int {
    if b < 0x80 {
        1
    } else if 0xc2 <= b && b <= 0xdf {
        2
    } else if 0xe0 <= b && b <= 0xef {
        3
    } else if 0xf0 <= b && b <= 0xf4 {
        4
    } else {
        0
    }
}

/// `b` is a continuation byte.
pub open spec fn is_continuation(b: u8) -> bool {
    0x80 <= b && b <= 0xbf
}

/// The encoding that starts at the front of `s` is well formed
/// (shortest form, no surrogates, at most U+10FFFF).
pub open spec fn first_encoding_ok(s: Seq<u8>) -> bool {
    let b = s[0];
    if b < 0x80 {
        true
    } else if 0xc2 <= b && b <= 0xdf {
        s.len() >= 2 && is_continuation(s[1])
    } else if b == 0xe0 {
        s.len() >= 3 && 0xa0 <= s[1] && s[1] <= 0xbf && is_continuation(s[2])
    } else if 0xe1 <= b && b <= 0xec {
        s.len() >= 3 && is_continuation(s[1]) && is_continuation(s[2])
    } else if b == 0xed {
        s.len() >= 3 && 0x80 <= s[1] && s[1] <= 0x9f && is_continuation(s[2])
    } else if 0xee <= b && b <= 0xef {
        s.len() >= 3 && is_continuation(s[1]) && is_continuation(s[2])
    } else if b == 0xf0 {
        s.len() >= 4 && 0x90 <= s[1] && s[1] <= 0xbf && is_continuation(s[2])
            && is_continuation(s[3])
    } else if 0xf1 <= b && b <= 0xf3 {
        s.len() >= 4 && is_continuation(s[1]) && is_continuation(s[2]) && is_continuation(s[3])
    } else if b == 0xf4 {
        s.len() >= 4 && 0x80 <= s[1] && s[1] <= 0x8f && is_continuation(s[2])
            && is_continuation(s[3])
    } else {
        false
    }
}

/// `s` is a well-formed UTF-8 byte sequence.
pub open spec fn is_utf8(s: Seq<u8>) -> bool
    decreases s.len(),
{
    s.len() == 0 || (first_encoding_ok(s) && is_utf8(s.skip(encoded_len(s[0]))))
}

/// Whether `s` decodes as text: the executable check behind every
/// `DecodeError`.
pub fn validate_utf8(s: &Vec<u8>) -> (r: bool)
    ensures
        r == is_utf8(s@),
{
    let n: usize = s.len();
    let mut i: usize = 0;
    proof {
        assert(s@.skip(0) =~= s@);
    }
    while i < n
        invariant
            0 <= i <= n,
            n == s@.len(),
            is_utf8(s@) == is_utf8(s@.skip(i as int)),
        decreases n - i,
    {
        let b: u8 = s[i];
        let ok: bool = if b < 0x80 {
            true
        } else if 0xc2 <= b && b <= 0xdf {
            n - i >= 2 && 0x80 <= s[i + 1] && s[i + 1] <= 0xbf
        } else if 0xe0 <= b && b <= 0xef {
            let lo: u8 = if b == 0xe0 {
                0xa0
            } else {
                0x80
            };
            let hi: u8 = if b == 0xed {
                0x9f
            } else {
                0xbf
            };
            n - i >= 3 && lo <= s[i + 1] && s[i + 1] <= hi && 0x80 <= s[i + 2] && s[i + 2] <= 0xbf
        } else if 0xf0 <= b && b <= 0xf4 {
            let lo: u8 = if b == 0xf0 {
                0x90
            } else {
                0x80
            };
            let hi: u8 = if b == 0xf4 {
                0x8f
            } else {
                0xbf
            };
            n - i >= 4 && lo <= s[i + 1] && s[i + 1] <= hi && 0x80 <= s[i + 2] && s[i + 2] <= 0xbf
                && 0x80 <= s[i + 3] && s[i + 3] <= 0xbf
        } else {
            false
        };
        if !ok {
            proof {
                assert(!first_encoding_ok(s@.skip(i as int)));
                assert(!is_utf8(s@.skip(i as int)));
            }
            return false;
        }
        let step: usize = if b < 0x80 {
            1
        } else if 0xc2 <= b && b <= 0xdf {
            2
        } else if 0xe0 <= b && b <= 0xef {
            3
        } else {
            4
        };
        proof {
            assert(first_encoding_ok(s@.skip(i as int)));
            assert(encoded_len(s@.skip(i as int)[0]) == step as int);
            assert(s@.skip(i as int).skip(step as int) =~= s@.skip(i as int + step as int));
            assert(is_utf8(s@.skip(i as int)) == is_utf8(s@.skip(i as int + step as int)));
        }
        i = i + step;
    }
    proof {
        assert(s@.skip(n as int) =~= Seq::<u8>::empty());
        assert(is_utf8(Seq::<u8>::empty()));
    }
    true
}

} // verus!
