use crate::keyboard::keymod::{
    is_modifier_bit, mod_name, modifier_name, CONTROL, LOCK, MOD1, MOD2, MOD3, MOD4, MOD5, SHIFT,
};
use vstd::prelude::*;

verus! {

/// What a modifier bit contributes to a binding name: its name and a
/// hyphen where the mask has the bit, nothing where it has not.
pub open spec fn modifier_segment(mask: u8, bit: u8) -> Seq<char>
    recommends
        is_modifier_bit(bit),
{
    if mask & bit != 0 {
        modifier_name(bit).unwrap() + "-"@
    } else {
        Seq::empty()
    }
}

/// The modifier part of a binding name: one segment per bit of the mask,
/// from the most significant bit down to the least significant one.
pub open spec fn modifier_prefix(mask: u8) -> Seq<char> {
    modifier_segment(mask, 0x80) + modifier_segment(mask, 0x40) + modifier_segment(mask, 0x20)
        + modifier_segment(mask, 0x10) + modifier_segment(mask, 0x08) + modifier_segment(
        mask,
        0x04,
    ) + modifier_segment(mask, 0x02) + modifier_segment(mask, 0x01)
}

/// A binding name before it is put in lower case.
pub open spec fn plain_binding_name(key: Seq<char>, mask: u8) -> Seq<char> {
    modifier_prefix(mask) + key
}

/// The lower-case form of a text, as `str::to_lowercase` computes it.
pub uninterp spec fn lowercase(text: Seq<char>) -> Seq<char>;

/// The name under which a key press is looked up in the key table.
pub open spec fn binding_name_of(key: Seq<char>, mask: u8) -> Seq<char> {
    lowercase(plain_binding_name(key, mask))
}

/// How the bits of a mask whose highest bit is `bit` relate to those of
/// the mask without that bit.
proof fn lemma_without_highest_bit(mask: u8, bit: u8, other: u8)
    by (bit_vector)
    requires
        bit == 0x01 || bit == 0x02 || bit == 0x04 || bit == 0x08 || bit == 0x10 || bit == 0x20 || bit
            == 0x40 || bit == 0x80,
        other == 0x01 || other == 0x02 || other == 0x04 || other == 0x08 || other == 0x10 || other
            == 0x20 || other == 0x40 || other == 0x80,
        bit <= mask,
        mask - bit < bit,
    ensures
        other > bit ==> mask & other == 0 && (mask & !bit) & other == 0,
        other == bit ==> mask & other != 0 && (mask & !bit) & other == 0,
        other < bit ==> (mask & !bit) & other == mask & other,
{
}

/// What the segment of `other` is in a mask whose highest bit is `bit`,
/// and in that mask without `bit`.
proof fn lemma_segment_without_highest_bit(mask: u8, bit: u8, other: u8)
    requires
        is_modifier_bit(bit),
        is_modifier_bit(other),
        bit <= mask < 2 * bit,
    ensures
        other > bit ==> modifier_segment(mask, other) == Seq::<char>::empty() && modifier_segment(
            mask & !bit,
            other,
        ) == Seq::<char>::empty(),
        other == bit ==> modifier_segment(mask, other) == modifier_name(bit).unwrap() + "-"@
            && modifier_segment(mask & !bit, other) == Seq::<char>::empty(),
        other < bit ==> modifier_segment(mask & !bit, other) == modifier_segment(mask, other),
{
    lemma_without_highest_bit(mask, bit, other);
}

/// Eight texts in a row are the first and then the other seven.
proof fn lemma_regroup(
    a: Seq<char>,
    b: Seq<char>,
    c: Seq<char>,
    d: Seq<char>,
    e: Seq<char>,
    f: Seq<char>,
    g: Seq<char>,
    h: Seq<char>,
)
    ensures
        a + b + c + d + e + f + g + h == a + (b + (c + (d + (e + (f + (g + h)))))),
{
    assert(a + b + c + d + e + f + g + h =~= a + (b + (c + (d + (e + (f + (g + h)))))));
}

/// The empty text adds nothing on either side.
proof fn lemma_empty_adds_nothing(x: Seq<char>)
    ensures
        Seq::<char>::empty() + x == x,
        x + Seq::<char>::empty() == x,
{
    assert(Seq::<char>::empty() + x =~= x);
    assert(x + Seq::<char>::empty() =~= x);
}

/// The modifiers of a binding name stand in the order of their bits, the
/// highest first: where `bit` is the highest bit of `mask`, the modifier
/// part is the name of `bit` and a hyphen, and then the modifier part of
/// the mask without `bit`.
pub proof fn lemma_highest_modifier_first(mask: u8, bit: u8)
    requires
        is_modifier_bit(bit),
        bit <= mask < 2 * bit,
    ensures
        modifier_prefix(mask) == modifier_name(bit).unwrap() + "-"@ + modifier_prefix(
            mask & !bit,
        ),
{
    let rest = mask & !bit;
    let head = modifier_name(bit).unwrap() + "-"@;
    let m7 = modifier_segment(mask, 0x80);
    let m6 = modifier_segment(mask, 0x40);
    let m5 = modifier_segment(mask, 0x20);
    let m4 = modifier_segment(mask, 0x10);
    let m3 = modifier_segment(mask, 0x08);
    let m2 = modifier_segment(mask, 0x04);
    let m1 = modifier_segment(mask, 0x02);
    let m0 = modifier_segment(mask, 0x01);
    let r7 = modifier_segment(rest, 0x80);
    let r6 = modifier_segment(rest, 0x40);
    let r5 = modifier_segment(rest, 0x20);
    let r4 = modifier_segment(rest, 0x10);
    let r3 = modifier_segment(rest, 0x08);
    let r2 = modifier_segment(rest, 0x04);
    let r1 = modifier_segment(rest, 0x02);
    let r0 = modifier_segment(rest, 0x01);
    lemma_regroup(m7, m6, m5, m4, m3, m2, m1, m0);
    lemma_regroup(r7, r6, r5, r4, r3, r2, r1, r0);
    let t0 = m0;
    let t1 = m1 + t0;
    let t2 = m2 + t1;
    let t3 = m3 + t2;
    let t4 = m4 + t3;
    let t5 = m5 + t4;
    let t6 = m6 + t5;
    let t7 = m7 + t6;
    let u0 = r0;
    let u1 = r1 + u0;
    let u2 = r2 + u1;
    let u3 = r3 + u2;
    let u4 = r4 + u3;
    let u5 = r5 + u4;
    let u6 = r6 + u5;
    let u7 = r7 + u6;
    assert(modifier_prefix(mask) == t7);
    assert(modifier_prefix(rest) == u7);
    lemma_empty_adds_nothing(head);
    lemma_empty_adds_nothing(t0);
    lemma_empty_adds_nothing(t1);
    lemma_empty_adds_nothing(t2);
    lemma_empty_adds_nothing(t3);
    lemma_empty_adds_nothing(t4);
    lemma_empty_adds_nothing(t5);
    lemma_empty_adds_nothing(t6);
    lemma_empty_adds_nothing(u0);
    lemma_empty_adds_nothing(u1);
    lemma_empty_adds_nothing(u2);
    lemma_empty_adds_nothing(u3);
    lemma_empty_adds_nothing(u4);
    lemma_empty_adds_nothing(u5);
    lemma_empty_adds_nothing(u6);
    lemma_segment_without_highest_bit(mask, bit, 0x01);
    assert(bit > 0x01 ==> u0 == t0);
    assert(bit == 0x01 ==> t0 == head + u0);
    lemma_segment_without_highest_bit(mask, bit, 0x02);
    assert(bit > 0x02 ==> u1 == t1);
    assert(bit <= 0x02 ==> t1 == head + u1);
    lemma_segment_without_highest_bit(mask, bit, 0x04);
    assert(bit > 0x04 ==> u2 == t2);
    assert(bit <= 0x04 ==> t2 == head + u2);
    lemma_segment_without_highest_bit(mask, bit, 0x08);
    assert(bit > 0x08 ==> u3 == t3);
    assert(bit <= 0x08 ==> t3 == head + u3);
    lemma_segment_without_highest_bit(mask, bit, 0x10);
    assert(bit > 0x10 ==> u4 == t4);
    assert(bit <= 0x10 ==> t4 == head + u4);
    lemma_segment_without_highest_bit(mask, bit, 0x20);
    assert(bit > 0x20 ==> u5 == t5);
    assert(bit <= 0x20 ==> t5 == head + u5);
    lemma_segment_without_highest_bit(mask, bit, 0x40);
    assert(bit > 0x40 ==> u6 == t6);
    assert(bit <= 0x40 ==> t6 == head + u6);
    lemma_segment_without_highest_bit(mask, bit, 0x80);
    assert(t7 == head + u7);
}

/// Calls `str::to_lowercase`. Its result depends on the text alone, and
/// is named by `lowercase`; nothing more is claimed of it.
#[verifier::external_body]
fn to_lowercase(text: &str) -> (lower: String)
    ensures
        lower@ == lowercase(text@),
{
    text.to_lowercase()
}

fn push_segment(name: &mut String, mask: u8, bit: u8)
    requires
        is_modifier_bit(bit),
    ensures
        final(name)@ == old(name)@ + modifier_segment(mask, bit),
{
    if mask & bit != 0 {
        match mod_name(bit) {
            Some(n) => {
                name.append(n);
                name.append("-");
                assert(name@ =~= old(name)@ + (n@ + "-"@));
            },
            None => {},
        }
    } else {
        assert(name@ =~= old(name)@ + Seq::<char>::empty());
    }
}

/// Writes the modifiers of `mask`, highest bit first, each followed by a
/// hyphen, and then the key's name.
pub fn plain_binding_name_for(key: &str, mask: u8) -> (name: String)
    ensures
        name@ == plain_binding_name(key@, mask),
{
    let mut name = String::new();
    push_segment(&mut name, mask, MOD5);
    push_segment(&mut name, mask, MOD4);
    push_segment(&mut name, mask, MOD3);
    push_segment(&mut name, mask, MOD2);
    push_segment(&mut name, mask, MOD1);
    push_segment(&mut name, mask, CONTROL);
    push_segment(&mut name, mask, LOCK);
    push_segment(&mut name, mask, SHIFT);
    name.append(key);
    assert(name@ =~= plain_binding_name(key@, mask));
    name
}

/// The name under which the press of `key` with the modifiers `mask` is
/// looked up: the plain name in lower case.
pub fn binding_name(key: &str, mask: u8) -> (name: String)
    ensures
        name@ == binding_name_of(key@, mask),
{
    let plain = plain_binding_name_for(key, mask);
    to_lowercase(plain.as_str())
}

} // verus!
