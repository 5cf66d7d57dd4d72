//! UTF-8 encoding validation of file contents.

use vstd::prelude::*;
use vstd::utf8::{
    codepoint_width_1, codepoint_width_2, codepoint_width_3, codepoint_width_4,
    decode_first_codepoint, is_continuation_byte, pop_first_scalar, valid_first_scalar, valid_utf8,
};

verus! {

/// Whether a byte is a UTF-8 continuation byte, `10xxxxxx`.
fn continuation(b: u8) -> (r: bool)
    ensures
        r == is_continuation_byte(b),
{
    0x80 <= b && b <= 0xbf
}

/// Checks that `bytes` are well-formed UTF-8: every scalar is encoded with
/// the right leading and continuation bytes, in its shortest form, and is
/// not a surrogate.
pub fn validate_encoding(bytes: &[u8]) -> (valid: bool)
    ensures
        valid == valid_utf8(bytes@),
{
    let n = bytes.len();
    let mut i: usize = 0;
    proof {
        assert(bytes@.subrange(0, n as int) =~= bytes@);
    }
    while i < n
        invariant
            i <= n,
            n == bytes@.len(),
            valid_utf8(bytes@) == valid_utf8(bytes@.subrange(i as int, n as int)),
        decreases n - i,
    {
        let ghost rest = bytes@.subrange(i as int, n as int);
        let b0 = bytes[i];
        let width: usize;
        let cp: u32;
        if b0 <= 0x7f {
            width = 1;
            cp = (b0 & 0x7F) as u32;
            proof {
                assert(cp == codepoint_width_1(rest[0]));
            }
        } else if 0xc0 <= b0 && b0 <= 0xdf {
            if !(n - i > 1 && continuation(bytes[i + 1])) {
                proof {
                    assert(!valid_first_scalar(rest));
                }
                return false;
            }
            width = 2;
            cp = (((b0 & 0x1F) as u32) << 6) | ((bytes[i + 1] & 0x3f) as u32);
            proof {
                assert(cp == codepoint_width_2(rest[0], rest[1]));
            }
        } else if 0xe0 <= b0 && b0 <= 0xef {
            if !(n - i > 2 && continuation(bytes[i + 1]) && continuation(bytes[i + 2])) {
                proof {
                    assert(!valid_first_scalar(rest));
                }
                return false;
            }
            width = 3;
            cp = (((b0 & 0x0F) as u32) << 12) | (((bytes[i + 1] & 0x3f) as u32) << 6) | ((bytes[i
                + 2] & 0x3f) as u32);
            proof {
                assert(cp == codepoint_width_3(rest[0], rest[1], rest[2]));
            }
        } else if 0xf0 <= b0 && b0 <= 0xf7 {
            if !(n - i > 3 && continuation(bytes[i + 1]) && continuation(bytes[i + 2])
                && continuation(bytes[i + 3])) {
                proof {
                    assert(!valid_first_scalar(rest));
                }
                return false;
            }
            width = 4;
            cp = (((b0 & 0x07) as u32) << 18) | (((bytes[i + 1] & 0x3f) as u32) << 12) | (((bytes[i
                + 2] & 0x3f) as u32) << 6) | ((bytes[i + 3] & 0x3f) as u32);
            proof {
                assert(cp == codepoint_width_4(rest[0], rest[1], rest[2], rest[3]));
            }
        } else {
            proof {
                assert(!valid_first_scalar(rest));
            }
            return false;
        }
        proof {
            assert(cp == decode_first_codepoint(rest));
        }
        let shortest = if width == 2 {
            0x80 <= cp
        } else if width == 3 {
            0x800 <= cp
        } else if width == 4 {
            0x10000 <= cp && cp <= 0x10ffff
        } else {
            true
        };
        let surrogate = 0xD800 <= cp && cp <= 0xDFFF;
        if !shortest || surrogate {
            proof {
                assert(!valid_first_scalar(rest));
            }
            return false;
        }
        proof {
            assert(valid_first_scalar(rest));
            assert(pop_first_scalar(rest) =~= bytes@.subrange(i + width, n as int));
        }
        i += width;
    }
    proof {
        assert(bytes@.subrange(i as int, n as int).len() == 0);
    }
    true
}

} // verus!
