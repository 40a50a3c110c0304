use vstd::prelude::*;

verus! {

/// The UTF-16 code units of one Unicode scalar value.
pub open spec fn utf16_units(c: char) -> Seq<u16> {
    let v = c as int;
    if v < 0x10000 {
        seq![v as u16]
    } else {
        let w = v - 0x10000;
        seq![(0xD800 + w / 0x400) as u16, (0xDC00 + w % 0x400) as u16]
    }
}

/// The UTF-16 encoding of a sequence of characters.
pub open spec fn utf16_encode(s: Seq<char>) -> Seq<u16>
    decreases s.len(),
{
    if s.len() == 0 {
        Seq::empty()
    } else {
        utf16_encode(s.drop_last()) + utf16_units(s.last())
    }
}

/// Appends the UTF-16 code units of `c` to `out`.
fn push_utf16(out: &mut Vec<u16>, c: char)
    ensures
        final(out)@ == old(out)@ + utf16_units(c),
{
    let v: u32 = c as u32;
    if v < 0x10000 {
        out.push(v as u16);
    } else {
        let w: u32 = v - 0x10000;
        assert(w < 0x100000);
        out.push((0xD800 + w / 0x400) as u16);
        out.push((0xDC00 + w % 0x400) as u16);
    }
}

/// The UTF-16 encoding of `value`.
pub fn encode_utf16(value: &str) -> (units: Vec<u16>)
    ensures
        units@ == utf16_encode(value@),
{
    let mut units: Vec<u16> = Vec::new();
    for c in it: value.chars()
        invariant
            it.seq() == value@,
            units@ == utf16_encode(value@.take(it.index() as int)),
    {
        proof {
            assert(value@.take(it.index() + 1).drop_last() =~= value@.take(it.index() as int));
        }
        push_utf16(&mut units, c);
    }
    proof {
        assert(value@.take(value@.len() as int) =~= value@);
    }
    units
}

/// How many code units `copy_wide_string` writes into a buffer of
/// `capacity` units: the encoding of `value`, cut so that at least the last
/// unit of the buffer stays as it was.
pub open spec fn copied_units(capacity: int, value: Seq<char>) -> int {
    let limit = if capacity > 0 { capacity - 1 } else { 0 };
    let len = utf16_encode(value).len() as int;
    if len < limit {
        len
    } else {
        limit
    }
}

/// `value` encoded as UTF-16 and terminated by a zero unit.
pub fn wide_string(value: &str) -> (wide: Vec<u16>)
    ensures
        wide@ == utf16_encode(value@).push(0),
{
    let mut wide = encode_utf16(value);
    wide.push(0);
    wide
}

/// Writes the UTF-16 encoding of `value` at the start of `destination`,
/// leaving at least its last unit untouched (so a zeroed buffer stays
/// terminated); units that do not fit are dropped.
pub fn copy_wide_string(destination: &mut [u16], value: &str)
    ensures
        final(destination)@ == utf16_encode(value@).take(copied_units(old(destination)@.len() as int, value@))
            + old(destination)@.skip(copied_units(old(destination)@.len() as int, value@)),
{
    let units = encode_utf16(value);
    let limit: usize = destination.len().saturating_sub(1);
    let count: usize = if units.len() < limit { units.len() } else { limit };
    let ghost n = count as int;
    let ghost original = destination@;
    assert(n == copied_units(original.len() as int, value@));
    let mut i: usize = 0;
    while i < count
        invariant
            count <= units.len(),
            count <= destination@.len(),
            i <= count,
            units@ == utf16_encode(value@),
            destination@.len() == original.len(),
            forall|j: int| 0 <= j < i ==> destination@[j] == units@[j],
            forall|j: int| i <= j < original.len() ==> destination@[j] == original[j],
        decreases count - i,
    {
        destination[i] = units[i];
        i = i + 1;
    }
    assert(destination@ =~= units@.take(n) + original.skip(n));
}

/// UTF-16 encodes every character losslessly: a character below U+10000 is
/// its own single code unit; any other becomes a high surrogate followed by
/// a low surrogate from which it is recovered.
pub proof fn lemma_utf16_units(c: char)
    ensures
        (c as int) < 0x10000 ==> utf16_units(c).len() == 1 && utf16_units(c)[0] as int == c as int,
        (c as int) >= 0x10000 ==> {
            let hi = utf16_units(c)[0] as int;
            let lo = utf16_units(c)[1] as int;
            &&& utf16_units(c).len() == 2
            &&& 0xD800 <= hi < 0xDC00
            &&& 0xDC00 <= lo < 0xE000
            &&& (hi - 0xD800) * 0x400 + (lo - 0xDC00) + 0x10000 == c as int
        },
{
    let v = c as int;
    if v >= 0x10000 {
        assert(v <= 0x10FFFF);
        let w = v - 0x10000;
        assert(0 <= w / 0x400 < 0x400);
        assert(w == (w / 0x400) * 0x400 + w % 0x400);
    }
}

/// The encoding of a concatenation is the concatenation of the encodings.
pub proof fn lemma_utf16_encode_concat(a: Seq<char>, b: Seq<char>)
    ensures
        utf16_encode(a + b) == utf16_encode(a) + utf16_encode(b),
    decreases b.len(),
{
    if b.len() == 0 {
        assert(a + b =~= a);
        assert(utf16_encode(a) + utf16_encode(b) =~= utf16_encode(a));
    } else {
        assert((a + b).drop_last() =~= a + b.drop_last());
        assert((a + b).last() == b.last());
        lemma_utf16_encode_concat(a, b.drop_last());
        assert(utf16_encode(a) + utf16_encode(b.drop_last()) + utf16_units(b.last())
            =~= utf16_encode(a) + (utf16_encode(b.drop_last()) + utf16_units(b.last())));
    }
}

/// Every character takes one or two code units, so the encoding is never
/// shorter than the text and at most twice as long; text entirely below
/// U+10000 takes exactly one unit per character, each equal to it.
pub proof fn lemma_utf16_encode_length(s: Seq<char>)
    ensures
        s.len() <= utf16_encode(s).len() <= 2 * s.len(),
        (forall|i: int| 0 <= i < s.len() ==> (s[i] as int) < 0x10000) ==> {
            &&& utf16_encode(s).len() == s.len()
            &&& forall|i: int| 0 <= i < s.len() ==> utf16_encode(s)[i] as int == #[trigger] s[i] as int
        },
    decreases s.len(),
{
    if s.len() > 0 {
        lemma_utf16_encode_length(s.drop_last());
        lemma_utf16_units(s.last());
        if forall|i: int| 0 <= i < s.len() ==> (s[i] as int) < 0x10000 {
            assert forall|i: int| 0 <= i < s.drop_last().len() implies (s.drop_last()[i] as int) < 0x10000 by {
                assert(s.drop_last()[i] == s[i]);
            }
            assert((s.last() as int) < 0x10000);
            assert forall|i: int| 0 <= i < s.len() implies utf16_encode(s)[i] as int == #[trigger] s[i] as int by {
                if i < s.len() - 1 {
                    assert(s.drop_last()[i] == s[i]);
                }
            }
        }
    }
}

/// How much `copy_wide_string` copies: never more than the encoding, always
/// leaving the buffer's last unit, and the whole encoding whenever it is
/// shorter than the buffer.
pub proof fn lemma_copied_units(capacity: int, value: Seq<char>)
    ensures
        0 <= copied_units(capacity, value) <= utf16_encode(value).len(),
        capacity > 0 ==> copied_units(capacity, value) < capacity,
        capacity <= 1 ==> copied_units(capacity, value) == 0,
        utf16_encode(value).len() < capacity ==> copied_units(capacity, value) == utf16_encode(value).len(),
        utf16_encode(value).len() >= capacity > 0 ==> copied_units(capacity, value) == capacity - 1,
{
}

} // verus!
