//! NUL-terminated wide-character strings, the string form that the managed side
//! takes its paths in.
use vstd::prelude::*;

verus! {

/// First code point that UTF-16 writes as a surrogate pair.
pub const SUPPLEMENTARY_START: u32 = 0x10000;

/// Code unit that the high surrogates start from.
pub const HIGH_SURROGATE_BASE: u32 = 0xD800;

/// Code unit that the low surrogates start from.
pub const LOW_SURROGATE_BASE: u32 = 0xDC00;

/// The UTF-16 code units of one character: the character itself inside the basic
/// plane, a high and a low surrogate carrying ten bits each above it.
pub open spec fn utf16_units(c: char) -> Seq<u16> {
    let v = c as u32;
    if v < SUPPLEMENTARY_START {
        seq![v as u16]
    } else {
        seq![
            (HIGH_SURROGATE_BASE + (v - SUPPLEMENTARY_START) / 0x400) as u16,
            (LOW_SURROGATE_BASE + (v - SUPPLEMENTARY_START) % 0x400) as u16,
        ]
    }
}

/// The UTF-16 encoding of a string: the code units of its characters, in order.
pub open spec fn utf16(s: Seq<char>) -> Seq<u16>
    decreases s.len(),
{
    if s.len() == 0 {
        Seq::empty()
    } else {
        utf16(s.drop_last()) + utf16_units(s.last())
    }
}

/// A string as the managed side takes it: its UTF-16 encoding, then one NUL unit.
pub open spec fn wide_str(s: Seq<char>) -> Seq<u16> {
    utf16(s).push(0u16)
}

/// The code units of a character are never NUL unless the character is.
pub proof fn lemma_units_nonzero(c: char)
    requires
        c != '\0',
    ensures
        forall|i: int| 0 <= i < utf16_units(c).len() ==> utf16_units(c)[i] != 0,
        1 <= utf16_units(c).len() <= 2,
{
    let v = c as u32;
    assert(v != 0);
    if v >= SUPPLEMENTARY_START {
        assert(v <= 0x10FFFF);
        assert((v - SUPPLEMENTARY_START) / 0x400 < 0x400);
    }
}

/// A string without NUL characters encodes to code units without NUL, so the
/// terminator that `wide_str` appends is the first NUL a reader meets.
pub proof fn lemma_wide_str_terminated(s: Seq<char>)
    requires
        forall|i: int| 0 <= i < s.len() ==> s[i] != '\0',
    ensures
        forall|i: int| 0 <= i < utf16(s).len() ==> utf16(s)[i] != 0,
        wide_str(s).len() == utf16(s).len() + 1,
        wide_str(s).last() == 0,
    decreases s.len(),
{
    if s.len() > 0 {
        lemma_wide_str_terminated(s.drop_last());
        lemma_units_nonzero(s.last());
    }
}

/// Every character takes one or two code units.
pub proof fn lemma_utf16_len(s: Seq<char>)
    ensures
        s.len() <= utf16(s).len() <= 2 * s.len(),
    decreases s.len(),
{
    if s.len() > 0 {
        lemma_utf16_len(s.drop_last());
    }
}

/// The string holds ASCII characters only.
pub open spec fn all_ascii(s: Seq<char>) -> bool {
    forall|i: int| 0 <= i < s.len() ==> (#[trigger] s[i]) as u32 <= 0x7F
}

/// An ASCII string widens unit by unit: each character becomes the code unit of
/// the same value.
pub proof fn lemma_utf16_ascii(s: Seq<char>)
    requires
        all_ascii(s),
    ensures
        utf16(s).len() == s.len(),
        forall|i: int| 0 <= i < s.len() ==> (#[trigger] utf16(s)[i]) as u32 == s[i] as u32,
    decreases s.len(),
{
    if s.len() > 0 {
        let head = s.drop_last();
        assert(all_ascii(head)) by {
            assert forall|i: int| 0 <= i < head.len() implies (#[trigger] head[i]) as u32
                <= 0x7F by {
                assert(head[i] == s[i]);
            }
        }
        lemma_utf16_ascii(head);
        assert(s.last() == s[s.len() - 1]);
        assert forall|i: int| 0 <= i < s.len() implies (#[trigger] utf16(s)[i]) as u32
            == s[i] as u32 by {
            if i < head.len() {
                assert(utf16(s)[i] == utf16(head)[i]);
                assert(head[i] == s[i]);
            }
        }
    }
}

/// Encodes `s` as a NUL-terminated wide-character string.
pub fn to_wide_str(s: &str) -> (wide: Vec<u16>)
    ensures
        wide@ == wide_str(s@),
{
    let n = s.unicode_len();
    let mut wide: Vec<u16> = Vec::new();
    let mut i: usize = 0;
    while i < n
        invariant
            i <= n,
            n == s@.len(),
            wide@ == utf16(s@.take(i as int)),
        decreases n - i,
    {
        let c = s.get_char(i);
        let v: u32 = c as u32;
        proof {
            let done = s@.take(i as int);
            let next = s@.take(i + 1);
            assert(next.drop_last() =~= done);
            assert(next.last() == c);
        }
        if v < SUPPLEMENTARY_START {
            wide.push(v as u16);
        } else {
            let offset: u32 = v - SUPPLEMENTARY_START;
            assert(offset / 0x400 < 0x400);
            wide.push((HIGH_SURROGATE_BASE + offset / 0x400) as u16);
            wide.push((LOW_SURROGATE_BASE + offset % 0x400) as u16);
        }
        assert(wide@ =~= utf16(s@.take(i + 1)));
        i = i + 1;
    }
    assert(s@.take(n as int) =~= s@);
    wide.push(0u16);
    wide
}

} // verus!
