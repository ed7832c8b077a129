//! The wide-text adapter: a null-terminated, 16-bit-code-unit firmware
//! string decoded into Unicode scalar values.
//!
//! Decoding follows the usual surrogate-pair rules.  A unit sequence that
//! does not form a valid scalar value never fails the decode: it degrades to
//! the standard replacement character, so boot-time diagnostics can always
//! be rendered.  The decode covers exactly the units before the first null.

use vstd::prelude::*;

verus! {

/// The scalar value substituted for every malformed surrogate unit.
pub const WIDE_REPLACEMENT: char = '\u{FFFD}';

/// Whether `u` is a leading (high) surrogate unit.
pub open spec fn is_high_surrogate(u: u16) -> bool {
    0xD800 <= u && u < 0xDC00
}

/// Whether `u` is a trailing (low) surrogate unit.
pub open spec fn is_low_surrogate(u: u16) -> bool {
    0xDC00 <= u && u < 0xE000
}

/// The scalar value encoded by a well-formed surrogate pair.
pub open spec fn combine_surrogates(hi: u16, lo: u16) -> u32
    recommends
        is_high_surrogate(hi),
        is_low_surrogate(lo),
{
    (0x10000 + (hi - 0xD800) * 0x400 + (lo - 0xDC00)) as u32
}

/// The decode of a 16-bit-code-unit sequence: one scalar per ordinary unit,
/// one scalar per well-formed surrogate pair, and the replacement character
/// for every unit that is part of no valid encoding.
pub open spec fn decode_wide(s: Seq<u16>) -> Seq<char>
    decreases s.len(),
{
    if s.len() == 0 {
        Seq::empty()
    } else if !(0xD800 <= s[0] && s[0] < 0xE000) {
        seq![(s[0] as u32) as char] + decode_wide(s.skip(1))
    } else if is_high_surrogate(s[0]) && s.len() >= 2 && is_low_surrogate(s[1]) {
        seq![combine_surrogates(s[0], s[1]) as char] + decode_wide(s.skip(2))
    } else {
        seq![WIDE_REPLACEMENT] + decode_wide(s.skip(1))
    }
}

/// The index of the first null unit of `s`, or `s.len()` if there is none.
pub open spec fn first_null(s: Seq<u16>) -> int
    decreases s.len(),
{
    if s.len() == 0 {
        0
    } else if s[0] == 0 {
        0
    } else {
        1 + first_null(s.skip(1))
    }
}

/// `first_null` is a position within the sequence, every unit before it is
/// non-null, and it lands on a null whenever the sequence holds one.
pub proof fn lemma_first_null(s: Seq<u16>)
    ensures
        0 <= first_null(s) <= s.len(),
        forall|i: int| 0 <= i < first_null(s) ==> s[i] != 0,
        first_null(s) < s.len() ==> s[first_null(s)] == 0,
        (exists|j: int| 0 <= j < s.len() && s[j] == 0) ==> first_null(s) < s.len(),
    decreases s.len(),
{
    if s.len() == 0 {
    } else if s[0] == 0 {
    } else {
        lemma_first_null(s.skip(1));
        assert forall|i: int| 0 <= i < first_null(s) implies s[i] != 0 by {
            if i > 0 {
                assert(s.skip(1)[i - 1] == s[i]);
            }
        }
        if exists|j: int| 0 <= j < s.len() && s[j] == 0 {
            let j = choose|j: int| 0 <= j < s.len() && s[j] == 0;
            assert(s.skip(1)[j - 1] == 0);
        }
    }
}

/// The decode never yields more scalars than it was given units.
proof fn lemma_decode_wide_len(s: Seq<u16>)
    ensures
        decode_wide(s).len() <= s.len(),
    decreases s.len(),
{
    if s.len() == 0 {
    } else if !(0xD800 <= s[0] && s[0] < 0xE000) {
        lemma_decode_wide_len(s.skip(1));
    } else if is_high_surrogate(s[0]) && s.len() >= 2 && is_low_surrogate(s[1]) {
        lemma_decode_wide_len(s.skip(2));
    } else {
        lemma_decode_wide_len(s.skip(1));
    }
}

/// Law: for any unit sequence, the decoded text stops at the first null and
/// is finite — it yields at most one scalar value per unit before that null,
/// however the surrogates are arranged.
pub proof fn lemma_decode_wide_bounded(units: Seq<u16>)
    ensures
        0 <= first_null(units) <= units.len(),
        decode_wide(units.subrange(0, first_null(units))).len() <= first_null(units),
{
    lemma_first_null(units);
    lemma_decode_wide_len(units.subrange(0, first_null(units)));
}

/// The single 16-bit unit a character occupies on the console wire: its
/// scalar value truncated to 16 bits.
pub open spec fn char_unit(c: char) -> u16 {
    ((c as u32) % 0x10000) as u16
}

/// Truncate a character to the 16-bit unit sent to the console.
pub fn char_to_unit(c: char) -> (r: u16)
    ensures
        r == char_unit(c),
{
    ((c as u32) % 0x10000) as u16
}

/// Relies on core::char::from_u32: `Some` exactly for Unicode scalar values
/// (below the surrogate range or between it and 0x110000), and the returned
/// `char` carries the given value.
#[verifier::external_body]
fn char_from_u32(v: u32) -> (r: Option<char>)
    ensures
        r is Some <==> (v < 0xD800 || (0xE000 <= v && v < 0x110000)),
        r matches Some(c) ==> c as u32 == v,
{
    char::from_u32(v)
}

/// A firmware-owned, null-terminated wide string: the unit buffer is held
/// as the firmware published it, the terminator included somewhere within.
#[derive(Debug)]
pub struct CChar {
    units: Vec<u16>,
}

impl View for CChar {
    type V = Seq<u16>;

    closed spec fn view(&self) -> Seq<u16> {
        self.units@
    }
}

impl CChar {
    /// A wide string is well formed when a null terminator exists within
    /// the buffer; nothing past the first null is ever interpreted.
    pub open spec fn wf(&self) -> bool {
        exists|j: int| 0 <= j < self@.len() && self@[j] == 0
    }

    /// Bind a wide string to a unit buffer that contains its terminator.
    pub fn new(units: Vec<u16>) -> (r: CChar)
        requires
            exists|j: int| 0 <= j < units@.len() && units@[j] == 0,
        ensures
            r@ == units@,
            r.wf(),
    {
        let ghost j = choose|j: int| 0 <= j < units@.len() && units@[j] == 0;
        let c = CChar { units };
        proof {
            assert(c@[j] == 0);
        }
        c
    }

    /// The number of units before the null terminator.
    pub fn len(&self) -> (r: usize)
        requires
            self.wf(),
        ensures
            r == first_null(self@),
    {
        proof {
            lemma_first_null(self@);
            assert(self@.skip(0) =~= self@);
        }
        let n: usize = self.units.len();
        let mut i: usize = 0;
        while self.units[i] != 0
            invariant
                self.wf(),
                n == self@.len(),
                first_null(self@) < self@.len(),
                0 <= i <= first_null(self@),
                i + first_null(self@.skip(i as int)) == first_null(self@),
            decreases first_null(self@) - i,
        {
            proof {
                lemma_first_null(self@);
                assert(self@.skip(i as int)[0] == self@[i as int]);
                assert(self@.skip(i as int).skip(1) =~= self@.skip(i as int + 1));
            }
            i += 1;
        }
        proof {
            assert(self@.skip(i as int)[0] == self@[i as int]);
        }
        i
    }

    /// The units before the null terminator, as a slice.
    pub fn as_slice(&self) -> (r: &[u16])
        requires
            self.wf(),
        ensures
            r@ == self@.subrange(0, first_null(self@)),
    {
        let n = self.len();
        proof {
            lemma_first_null(self@);
        }
        vstd::slice::slice_subrange(self.units.as_slice(), 0, n)
    }

    /// Decode the string into Unicode scalar values, one per ordinary unit
    /// or well-formed surrogate pair, substituting the replacement
    /// character for each malformed unit, up to the null terminator.
    pub fn chars(&self) -> (r: Vec<char>)
        requires
            self.wf(),
        ensures
            r@ == decode_wide(self@.subrange(0, first_null(self@))),
    {
        proof {
            lemma_first_null(self@);
        }
        let n = self.len();
        let ghost p = self@.subrange(0, first_null(self@));
        proof {
            assert(p.skip(0) =~= p);
        }
        let mut out: Vec<char> = Vec::new();
        let mut i: usize = 0;
        while i < n
            invariant
                self.wf(),
                n == first_null(self@),
                n <= self@.len(),
                p == self@.subrange(0, n as int),
                0 <= i <= n,
                decode_wide(p) == out@ + decode_wide(p.skip(i as int)),
            decreases n - i,
        {
            let u = self.units[i];
            proof {
                assert(p.skip(i as int)[0] == p[i as int]);
                assert(p[i as int] == self@[i as int]);
                assert(p.skip(i as int).skip(1) =~= p.skip(i as int + 1));
            }
            if u < 0xD800 || u >= 0xE000 {
                let c = char_from_u32(u as u32).unwrap();
                out.push(c);
                proof {
                    vstd::utf8::char_u32_cast(c, u as u32);
                    assert(decode_wide(p) =~= out@ + decode_wide(p.skip(i as int + 1)));
                }
                i += 1;
            } else {
                let mut paired = false;
                if u < 0xDC00 && i + 1 < n {
                    let u2 = self.units[i + 1];
                    proof {
                        assert(p.skip(i as int)[1] == p[i as int + 1]);
                        assert(p[i as int + 1] == self@[i as int + 1]);
                    }
                    if 0xDC00 <= u2 && u2 < 0xE000 {
                        let scalar: u32 = 0x10000 + ((u as u32) - 0xD800) * 0x400
                            + ((u2 as u32) - 0xDC00);
                        let c = char_from_u32(scalar).unwrap();
                        out.push(c);
                        proof {
                            vstd::utf8::char_u32_cast(c, scalar);
                            assert(scalar == combine_surrogates(u, u2));
                            assert(p.skip(i as int).skip(2) =~= p.skip(i as int + 2));
                            assert(decode_wide(p) =~= out@ + decode_wide(p.skip(i as int + 2)));
                        }
                        i += 2;
                        paired = true;
                    }
                }
                if !paired {
                    out.push(WIDE_REPLACEMENT);
                    proof {
                        assert(decode_wide(p) =~= out@ + decode_wide(p.skip(i as int + 1)));
                    }
                    i += 1;
                }
            }
        }
        proof {
            assert(p.skip(n as int) =~= Seq::<u16>::empty());
        }
        out
    }
}

} // verus!
