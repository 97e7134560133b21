//! UTF-16 code units of a string, as the engine's script APIs take them.

use vstd::prelude::*;

verus! {

/// The UTF-16 code units of one character: one unit below U+10000, else a
/// surrogate pair.
pub open spec fn utf16_units(c: char) -> Seq<u16> {
    let v = c as int;
    if v < 0x1_0000 {
        seq![v as u16]
    } else {
        let w = v - 0x1_0000;
        seq![(0xD800 + w / 0x400) as u16, (0xDC00 + w % 0x400) as u16]
    }
}

/// The UTF-16 code units of a string.
pub open spec fn utf16_of(s: Seq<char>) -> Seq<u16>
    decreases s.len(),
{
    if s.len() == 0 {
        Seq::empty()
    } else {
        utf16_of(s.drop_last()) + utf16_units(s.last())
    }
}

/// Appends the UTF-16 code units of `c`.
fn push_utf16(units: &mut Vec<u16>, c: char)
    ensures
        final(units)@ == old(units)@ + utf16_units(c),
{
    let v = c as u32;
    if v < 0x1_0000 {
        units.push(v as u16);
        assert(final(units)@ =~= old(units)@ + utf16_units(c));
    } else {
        let w = v - 0x1_0000;
        units.push((0xD800 + w / 0x400) as u16);
        units.push((0xDC00 + w % 0x400) as u16);
        assert(final(units)@ =~= old(units)@ + utf16_units(c));
    }
}

/// The UTF-16 code units of `s`.
pub fn encode_utf16(s: &str) -> (r: Vec<u16>)
    ensures
        r@ == utf16_of(s@),
{
    broadcast use vstd::string::group_string_axioms;

    let mut units: Vec<u16> = Vec::new();
    let mut chars = s.chars();
    let ghost mut done: Seq<char> = Seq::empty();
    assert(done + vstd::std_specs::iter::IteratorSpec::remaining(&chars) == s@);
    loop
        invariant
            done + vstd::std_specs::iter::IteratorSpec::remaining(&chars) == s@,
            units@ == utf16_of(done),
            vstd::std_specs::iter::IteratorSpec::decrease(&chars) is Some,
        ensures
            units@ == utf16_of(s@),
        decreases vstd::std_specs::iter::IteratorSpec::decrease(&chars)->0,
    {
        let next = chars.next();
        match next {
            Some(c) => {
                let ghost before = done;
                push_utf16(&mut units, c);
                proof {
                    done = done.push(c);
                    assert(done.drop_last() == before);
                    assert(done + vstd::std_specs::iter::IteratorSpec::remaining(&chars) =~= s@);
                }
            },
            None => {
                assert(done =~= s@);
                break ;
            },
        }
    }
    units
}

/// Calls `String::from_utf16_lossy`, which std documents as decoding UTF-16
/// and putting U+FFFD for each unpaired surrogate. Stated here: units that
/// encode a string decode to that string. What an unpaired surrogate gives
/// is left unsaid.
#[verifier::external_body]
fn from_utf16_lossy(units: &[u16]) -> (r: String)
    ensures
        forall|s: Seq<char>| #[trigger] utf16_of(s) == units@ ==> r@ == s,
{
    String::from_utf16_lossy(units)
}

/// The text of a string the engine holds as UTF-16 units: the units
/// decoded, an unpaired surrogate becoming U+FFFD. Units that encode a
/// string give back that string, so this undoes `encode_utf16`.
pub fn string_from_utf16(units: &[u16]) -> (r: String)
    ensures
        forall|s: Seq<char>| #[trigger] utf16_of(s) == units@ ==> r@ == s,
{
    from_utf16_lossy(units)
}

/// A character below U+10000 is one unit, itself; any other is a high
/// surrogate (0xD800..=0xDBFF) then a low one (0xDC00..=0xDFFF), which
/// together give back the character.
pub proof fn lemma_utf16_units(c: char)
    ensures
        (c as int) < 0x1_0000 ==> utf16_units(c).len() == 1 && utf16_units(c)[0] == c as int,
        (c as int) >= 0x1_0000 ==> {
            let u = utf16_units(c);
            &&& u.len() == 2
            &&& 0xD800 <= u[0] <= 0xDBFF
            &&& 0xDC00 <= u[1] <= 0xDFFF
            &&& 0x1_0000 + (u[0] - 0xD800) * 0x400 + (u[1] - 0xDC00) == c as int
        },
{
    if (c as int) >= 0x1_0000 {
        let w = c as int - 0x1_0000;
        assert(w < 0x10_0000);
        assert(0 <= w / 0x400 < 0x400);
        assert(w == (w / 0x400) * 0x400 + w % 0x400);
    }
}

} // verus!
