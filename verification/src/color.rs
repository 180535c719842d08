//! The sixteen colours of the Nord palette, as red, green, blue and alpha
//! in one number.

use vstd::prelude::*;
use vstd::string::*;
use crate::text::{hex_fixed, hex_fixed_string, leak_string};

verus! {

/// A colour of the Nord palette.
#[derive(Clone, Copy, Debug, PartialEq, Eq, Structural)]
pub enum NordColor {
    // Polar Night
    Nord0,
    Nord1,
    Nord2,
    Nord3,
    // Snow Storm
    Nord4,
    Nord5,
    Nord6,
    // Frost
    Nord7,
    Nord8,
    Nord9,
    Nord10,
    // Aurora
    Nord11,
    Nord12,
    Nord13,
    Nord14,
    Nord15,
}

impl NordColor {
    /// The colour as `0xRRGGBBAA`.
    pub open spec fn rgba(self) -> u32 {
        match self {
            NordColor::Nord0 => 0x2e3440ff,
            NordColor::Nord1 => 0x3b4252ff,
            NordColor::Nord2 => 0x434c5eff,
            NordColor::Nord3 => 0x4c566aff,
            NordColor::Nord4 => 0xd8dee9ff,
            NordColor::Nord5 => 0xe5e9f0ff,
            NordColor::Nord6 => 0xeceff4ff,
            NordColor::Nord7 => 0x8fbcbbff,
            NordColor::Nord8 => 0x88c0d0ff,
            NordColor::Nord9 => 0x81a1c1ff,
            NordColor::Nord10 => 0x5e81acff,
            NordColor::Nord11 => 0xbf616aff,
            NordColor::Nord12 => 0xd08770ff,
            NordColor::Nord13 => 0xebcb8bff,
            NordColor::Nord14 => 0xa3be8cff,
            NordColor::Nord15 => 0xb48eadff,
        }
    }

    /// The colour as style sheets write it: `#` and eight digits of base 16.
    pub open spec fn hex(self) -> Seq<char> {
        "#"@ + hex_fixed(self.rgba() as nat, 8)
    }

    /// The colour as `0xRRGGBBAA`.
    pub fn value(&self) -> (v: u32)
        ensures
            v == self.rgba(),
    {
        match self {
            NordColor::Nord0 => 0x2e3440ff,
            NordColor::Nord1 => 0x3b4252ff,
            NordColor::Nord2 => 0x434c5eff,
            NordColor::Nord3 => 0x4c566aff,
            NordColor::Nord4 => 0xd8dee9ff,
            NordColor::Nord5 => 0xe5e9f0ff,
            NordColor::Nord6 => 0xeceff4ff,
            NordColor::Nord7 => 0x8fbcbbff,
            NordColor::Nord8 => 0x88c0d0ff,
            NordColor::Nord9 => 0x81a1c1ff,
            NordColor::Nord10 => 0x5e81acff,
            NordColor::Nord11 => 0xbf616aff,
            NordColor::Nord12 => 0xd08770ff,
            NordColor::Nord13 => 0xebcb8bff,
            NordColor::Nord14 => 0xa3be8cff,
            NordColor::Nord15 => 0xb48eadff,
        }
    }

    /// Writes the colour as style sheets write it, such as `#2e3440ff`.
    pub fn to_string(&self) -> (r: String)
        ensures
            r@ == self.hex(),
    {
        let digits = hex_fixed_string(self.value(), 8);
        let mut text = "#".to_owned();
        text.append(digits.as_str());
        text
    }

    /// The same text with the static lifetime.
    pub fn as_str(&self) -> (r: &'static str)
        ensures
            r@ == self.hex(),
    {
        leak_string(self.to_string())
    }
}

pub const NORDCOLOR_NORD0: NordColor = NordColor::Nord0;

pub const NORDCOLOR_NORD1: NordColor = NordColor::Nord1;

pub const NORDCOLOR_NORD2: NordColor = NordColor::Nord2;

pub const NORDCOLOR_NORD3: NordColor = NordColor::Nord3;

pub const NORDCOLOR_NORD4: NordColor = NordColor::Nord4;

pub const NORDCOLOR_NORD5: NordColor = NordColor::Nord5;

pub const NORDCOLOR_NORD6: NordColor = NordColor::Nord6;

pub const NORDCOLOR_NORD7: NordColor = NordColor::Nord7;

pub const NORDCOLOR_NORD8: NordColor = NordColor::Nord8;

pub const NORDCOLOR_NORD9: NordColor = NordColor::Nord9;

pub const NORDCOLOR_NORD10: NordColor = NordColor::Nord10;

pub const NORDCOLOR_NORD11: NordColor = NordColor::Nord11;

pub const NORDCOLOR_NORD12: NordColor = NordColor::Nord12;

pub const NORDCOLOR_NORD13: NordColor = NordColor::Nord13;

pub const NORDCOLOR_NORD14: NordColor = NordColor::Nord14;

pub const NORDCOLOR_NORD15: NordColor = NordColor::Nord15;

/// The text of a colour is nine characters long and starts with `#`.
pub proof fn lemma_hex_shape(color: NordColor)
    ensures
        color.hex().len() == 9,
        color.hex()[0] == '#',
{
    reveal_strlit("#");
    lemma_hex_fixed_len(color.rgba() as nat, 8);
}

/// A numeral of fixed width has that many digits.
pub proof fn lemma_hex_fixed_len(n: nat, width: nat)
    ensures
        hex_fixed(n, width).len() == width,
    decreases width,
{
    if width > 0 {
        lemma_hex_fixed_len(n / 16, (width - 1) as nat);
    }
}

} // verus!
