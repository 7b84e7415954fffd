use vstd::prelude::*;

verus! {

pub const SHIFT: u8 = 0x01;

pub const LOCK: u8 = 0x02;

pub const CONTROL: u8 = 0x04;

pub const MOD1: u8 = 0x08;

pub const MOD2: u8 = 0x10;

pub const MOD3: u8 = 0x20;

pub const MOD4: u8 = 0x40;

pub const MOD5: u8 = 0x80;

/// Whether `bit` is one of the eight modifier bits, that is a mask with
/// exactly one bit set.
pub open spec fn is_modifier_bit(bit: u8) -> bool {
    bit == 0x01 || bit == 0x02 || bit == 0x04 || bit == 0x08 || bit == 0x10 || bit == 0x20 || bit
        == 0x40 || bit == 0x80
}

/// The short name under which a modifier bit appears in a binding name.
/// Every other mask has none.
pub open spec fn modifier_name(bit: u8) -> Option<Seq<char>> {
    if bit == 0x01 {
        Some("s"@)
    } else if bit == 0x02 {
        Some("l"@)
    } else if bit == 0x04 {
        Some("c"@)
    } else if bit == 0x08 {
        Some("m1"@)
    } else if bit == 0x10 {
        Some("m2"@)
    } else if bit == 0x20 {
        Some("m3"@)
    } else if bit == 0x40 {
        Some("m4"@)
    } else if bit == 0x80 {
        Some("m5"@)
    } else {
        None
    }
}

/// Looks up the name of a modifier bit.
pub fn mod_name(bit: u8) -> (name: Option<&'static str>)
    ensures
        name is Some <==> is_modifier_bit(bit),
        match name {
            Some(n) => modifier_name(bit) == Some(n@),
            None => modifier_name(bit) is None,
        },
{
    match bit {
        0x01 => Some("s"),
        0x02 => Some("l"),
        0x04 => Some("c"),
        0x08 => Some("m1"),
        0x10 => Some("m2"),
        0x20 => Some("m3"),
        0x40 => Some("m4"),
        0x80 => Some("m5"),
        _ => None,
    }
}

} // verus!
