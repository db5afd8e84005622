//! Byte-level building blocks: slice comparison, decimal and hexadecimal
//! rendering, and a runtime UTF-8 validity check proved against vstd's
//! `valid_utf8` specification.

use vstd::prelude::*;
use vstd::utf8::*;

verus! {

/// Compares two byte slices for equality.
pub fn bytes_eq(a: &[u8], b: &[u8]) -> (r: bool)
    ensures
        r == (a@ == b@),
{
    if a.len() != b.len() {
        return false;
    }
    let n = a.len();
    let mut i: usize = 0;
    while i < n
        invariant
            n == a@.len(),
            n == b@.len(),
            0 <= i <= n,
            forall|j: int| 0 <= j < i ==> a@[j] == b@[j],
        decreases n - i,
    {
        if a[i] != b[i] {
            return false;
        }
        i = i + 1;
    }
    proof {
        assert(a@ =~= b@);
    }
    true
}

/// ASCII decimal rendering of a natural number, most significant digit first.
pub open spec fn spec_dec(n: nat) -> Seq<u8>
    decreases n,
{
    if n < 10 {
        seq![(48 + n) as u8]
    } else {
        spec_dec(n / 10).push((48 + n % 10) as u8)
    }
}

/// Renders an unsigned integer in ASCII decimal.
pub fn dec_u64(n: u64) -> (v: Vec<u8>)
    ensures
        v@ == spec_dec(n as nat),
    decreases n,
{
    if n < 10 {
        let mut v: Vec<u8> = Vec::new();
        v.push(48 + n as u8);
        proof {
            assert(v@ =~= spec_dec(n as nat));
        }
        v
    } else {
        let mut v = dec_u64(n / 10);
        v.push(48 + (n % 10) as u8);
        v
    }
}

/// Every byte of a decimal rendering is an ASCII digit.
pub proof fn lemma_dec_ascii(n: nat)
    ensures
        forall|i: int| 0 <= i < spec_dec(n).len() ==> 48 <= #[trigger] spec_dec(n)[i] <= 57,
        spec_dec(n).len() >= 1,
    decreases n,
{
    if n >= 10 {
        lemma_dec_ascii(n / 10);
    }
}

/// The ASCII code of a single hexadecimal digit, lower case.
pub open spec fn spec_hex_digit(d: u8) -> u8
    recommends
        d < 16,
{
    if d < 10 {
        (48 + d) as u8
    } else {
        (87 + d) as u8
    }
}

/// Lower-case hexadecimal rendering, two digits per byte.
pub open spec fn spec_hex(bytes: Seq<u8>) -> Seq<u8>
    decreases bytes.len(),
{
    if bytes.len() == 0 {
        seq![]
    } else {
        seq![spec_hex_digit(bytes.first() / 16), spec_hex_digit(bytes.first() % 16)]
            + spec_hex(bytes.drop_first())
    }
}

/// Renders a byte slice in lower-case hexadecimal.
pub fn hex_bytes(bytes: &[u8]) -> (v: Vec<u8>)
    ensures
        v@ == spec_hex(bytes@),
{
    let n = bytes.len();
    let mut v: Vec<u8> = Vec::new();
    proof {
        assert(bytes@.skip(0) == bytes@);
    }
    let mut i: usize = 0;
    while i < n
        invariant
            n == bytes@.len(),
            0 <= i <= n,
            spec_hex(bytes@) =~= v@ + spec_hex(bytes@.skip(i as int)),
        decreases n - i,
    {
        let b = bytes[i];
        let hi = b / 16;
        let lo = b % 16;
        let ghost rest = bytes@.skip(i as int);
        proof {
            assert(rest.first() == b);
            assert(rest.drop_first() =~= bytes@.skip(i as int + 1));
        }
        if hi < 10 {
            v.push(48 + hi);
        } else {
            v.push(87 + hi);
        }
        if lo < 10 {
            v.push(48 + lo);
        } else {
            v.push(87 + lo);
        }
        i = i + 1;
    }
    proof {
        assert(bytes@.skip(n as int) =~= Seq::<u8>::empty());
        assert(v@ =~= spec_hex(bytes@));
    }
    v
}

/// An all-ASCII byte sequence is valid UTF-8.
pub proof fn lemma_ascii_valid_utf8(s: Seq<u8>)
    requires
        forall|i: int| 0 <= i < s.len() ==> #[trigger] s[i] <= 0x7f,
    ensures
        valid_utf8(s),
{
    assert(s.subrange(0, 0) =~= Seq::<u8>::empty());
    assert(partial_valid_utf8(s, 0));
    partial_valid_utf8_extend_ascii_block(s, 0, s.len() as int);
    assert(s.subrange(0, s.len() as int) =~= s);
}

/// Runtime UTF-8 validity check, proved against vstd's `valid_utf8`.
pub fn is_valid_utf8(bytes: &[u8]) -> (r: bool)
    ensures
        r == valid_utf8(bytes@),
{
    let n = bytes.len();
    let mut i: usize = 0;
    while i < n
        invariant
            0 <= i <= n,
            n == bytes@.len(),
            partial_valid_utf8(bytes@, i as int),
        decreases n - i,
    {
        let ghost suffix = bytes@.subrange(i as int, n as int);
        let b0 = bytes[i];
        proof {
            assert(suffix[0] == bytes@[i as int]);
        }
        if b0 <= 0x7f {
            proof {
                assert(valid_first_scalar(suffix));
                assert(length_of_first_scalar(suffix) == 1);
                partial_valid_utf8_extend(bytes@, i as int);
            }
            i = i + 1;
        } else if 0xc0 <= b0 && b0 <= 0xdf {
            if n - i < 2 {
                proof {
                    assert(!valid_first_scalar(suffix));
                    partial_valid_partial_invalid_utf8(bytes@, i as int);
                }
                return false;
            }
            let b1 = bytes[i + 1];
            proof {
                assert(suffix[1] == bytes@[i as int + 1]);
            }
            if !(0x80 <= b1 && b1 <= 0xbf) {
                proof {
                    assert(!valid_first_scalar(suffix));
                    partial_valid_partial_invalid_utf8(bytes@, i as int);
                }
                return false;
            }
            let cp: u32 = (((b0 & 0x1f) as u32) << 6) | ((b1 & 0x3f) as u32);
            proof {
                assert(cp == codepoint_width_2(b0, b1));
            }
            if cp < 0x80 {
                proof {
                    assert(!valid_first_scalar(suffix));
                    partial_valid_partial_invalid_utf8(bytes@, i as int);
                }
                return false;
            }
            proof {
                assert(cp < 0xd800) by (bit_vector)
                    requires
                        cp == (((b0 & 0x1f) as u32) << 6) | ((b1 & 0x3f) as u32),
                ;
                assert(valid_first_scalar(suffix));
                assert(length_of_first_scalar(suffix) == 2);
                partial_valid_utf8_extend(bytes@, i as int);
            }
            i = i + 2;
        } else if 0xe0 <= b0 && b0 <= 0xef {
            if n - i < 3 {
                proof {
                    assert(!valid_first_scalar(suffix));
                    partial_valid_partial_invalid_utf8(bytes@, i as int);
                }
                return false;
            }
            let b1 = bytes[i + 1];
            let b2 = bytes[i + 2];
            proof {
                assert(suffix[1] == bytes@[i as int + 1]);
                assert(suffix[2] == bytes@[i as int + 2]);
            }
            if !(0x80 <= b1 && b1 <= 0xbf) || !(0x80 <= b2 && b2 <= 0xbf) {
                proof {
                    assert(!valid_first_scalar(suffix));
                    partial_valid_partial_invalid_utf8(bytes@, i as int);
                }
                return false;
            }
            let cp: u32 = (((b0 & 0x0f) as u32) << 12) | (((b1 & 0x3f) as u32) << 6) | ((b2
                & 0x3f) as u32);
            proof {
                assert(cp == codepoint_width_3(b0, b1, b2));
            }
            if cp < 0x800 || (0xd800 <= cp && cp <= 0xdfff) {
                proof {
                    assert(!valid_first_scalar(suffix));
                    partial_valid_partial_invalid_utf8(bytes@, i as int);
                }
                return false;
            }
            proof {
                assert(valid_first_scalar(suffix));
                assert(length_of_first_scalar(suffix) == 3);
                partial_valid_utf8_extend(bytes@, i as int);
            }
            i = i + 3;
        } else if 0xf0 <= b0 && b0 <= 0xf7 {
            if n - i < 4 {
                proof {
                    assert(!valid_first_scalar(suffix));
                    partial_valid_partial_invalid_utf8(bytes@, i as int);
                }
                return false;
            }
            let b1 = bytes[i + 1];
            let b2 = bytes[i + 2];
            let b3 = bytes[i + 3];
            proof {
                assert(suffix[1] == bytes@[i as int + 1]);
                assert(suffix[2] == bytes@[i as int + 2]);
                assert(suffix[3] == bytes@[i as int + 3]);
            }
            if !(0x80 <= b1 && b1 <= 0xbf) || !(0x80 <= b2 && b2 <= 0xbf) || !(0x80 <= b3 && b3
                <= 0xbf) {
                proof {
                    assert(!valid_first_scalar(suffix));
                    partial_valid_partial_invalid_utf8(bytes@, i as int);
                }
                return false;
            }
            let cp: u32 = (((b0 & 0x07) as u32) << 18) | (((b1 & 0x3f) as u32) << 12) | (((b2
                & 0x3f) as u32) << 6) | ((b3 & 0x3f) as u32);
            proof {
                assert(cp == codepoint_width_4(b0, b1, b2, b3));
            }
            if cp < 0x10000 || cp > 0x10ffff {
                proof {
                    assert(!valid_first_scalar(suffix));
                    partial_valid_partial_invalid_utf8(bytes@, i as int);
                }
                return false;
            }
            proof {
                assert(valid_first_scalar(suffix));
                assert(length_of_first_scalar(suffix) == 4);
                partial_valid_utf8_extend(bytes@, i as int);
            }
            i = i + 4;
        } else {
            proof {
                assert(!valid_first_scalar(suffix));
                partial_valid_partial_invalid_utf8(bytes@, i as int);
            }
            return false;
        }
    }
    proof {
        assert(bytes@.subrange(0, n as int) =~= bytes@);
    }
    true
}

/// The byte sequence with its trailing zero bytes removed.
pub open spec fn trim_trailing_zeros(s: Seq<u8>) -> Seq<u8>
    decreases s.len(),
{
    if s.len() == 0 || s.last() != 0 {
        s
    } else {
        trim_trailing_zeros(s.drop_last())
    }
}

/// Removing trailing zero bytes keeps a valid UTF-8 sequence valid.
pub proof fn lemma_trim_preserves_valid_utf8(s: Seq<u8>)
    requires
        valid_utf8(s),
    ensures
        valid_utf8(trim_trailing_zeros(s)),
    decreases s.len(),
{
    if s.len() != 0 && s.last() == 0 {
        broadcast use is_char_boundary_iff_not_is_continuation_byte;

        let n = s.len() as int;
        assert(!is_continuation_byte(s[n - 1]));
        assert(is_char_boundary(s, n - 1));
        valid_utf8_split(s, n - 1);
        assert(s.subrange(0, n - 1) =~= s.drop_last());
        lemma_trim_preserves_valid_utf8(s.drop_last());
    }
}

/// Trimming only ever removes trailing zeros from the end.
pub proof fn lemma_trim_is_prefix(s: Seq<u8>)
    ensures
        trim_trailing_zeros(s).len() <= s.len(),
        trim_trailing_zeros(s) =~= s.subrange(0, trim_trailing_zeros(s).len() as int),
        forall|j: int| trim_trailing_zeros(s).len() <= j < s.len() ==> s[j] == 0,
    decreases s.len(),
{
    if s.len() != 0 && s.last() == 0 {
        lemma_trim_is_prefix(s.drop_last());
        assert forall|j: int| trim_trailing_zeros(s).len() <= j < s.len() implies s[j] == 0 by {
            if j < s.len() - 1 {
                assert(s.drop_last()[j] == s[j]);
            }
        }
    }
}

/// A non-empty trimming result never ends in a zero byte.
pub proof fn lemma_trim_last(s: Seq<u8>)
    ensures
        trim_trailing_zeros(s).len() > 0 ==> trim_trailing_zeros(s).last() != 0,
    decreases s.len(),
{
    if s.len() != 0 && s.last() == 0 {
        lemma_trim_last(s.drop_last());
    }
}

/// Appending zero bytes and trimming again restores the original sequence.
pub proof fn lemma_trim_of_padded(s: Seq<u8>, pad: Seq<u8>)
    requires
        s.len() == 0 || s.last() != 0,
        forall|j: int| 0 <= j < pad.len() ==> #[trigger] pad[j] == 0,
    ensures
        trim_trailing_zeros(s + pad) == s,
    decreases pad.len(),
{
    if pad.len() == 0 {
        assert(s + pad =~= s);
    } else {
        let p2 = pad.drop_last();
        assert((s + pad).last() == 0);
        assert((s + pad).drop_last() =~= s + p2);
        lemma_trim_of_padded(s, p2);
    }
}

/// Every byte of a hexadecimal rendering is an ASCII digit or letter.
pub proof fn lemma_hex_ascii(bytes: Seq<u8>)
    ensures
        forall|i: int| 0 <= i < spec_hex(bytes).len() ==> 48 <= #[trigger] spec_hex(bytes)[i] <= 102,
        spec_hex(bytes).len() == 2 * bytes.len(),
    decreases bytes.len(),
{
    if bytes.len() > 0 {
        lemma_hex_ascii(bytes.drop_first());
    }
}

} // verus!
