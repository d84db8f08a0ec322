//! Colors with four 8-bit channels and their hexadecimal notation.

use crate::text::{decimal_digits, decimal_text};
use vstd::prelude::*;
use vstd::utf8::*;

verus! {

/// A color: red, green, blue and alpha.
#[derive(Debug, Clone, Copy, PartialEq, Eq, Structural)]
pub struct Color {
    pub r: u8,
    pub g: u8,
    pub b: u8,
    pub a: u8,
}

/// Why a text is no color.
#[derive(Debug, Clone, Copy, PartialEq, Eq, Structural)]
pub enum HexColorError {
    /// After the leading `#` signs there are neither six nor eight bytes.
    Format,
    Red,
    Green,
    Blue,
    Alpha,
}

impl HexColorError {
    /// The sentence that `Color::from_hex` returns for this error.
    pub open spec fn text(self) -> Seq<char> {
        match self {
            HexColorError::Format => "Invalid hex color format"@,
            HexColorError::Red => "Invalid red value"@,
            HexColorError::Green => "Invalid green value"@,
            HexColorError::Blue => "Invalid blue value"@,
            HexColorError::Alpha => "Invalid alpha value"@,
        }
    }
}

/// The value of one hexadecimal digit, in either case.
pub open spec fn hex_digit_value(byte: u8) -> Option<u8> {
    if 0x30 <= byte <= 0x39 {
        Some((byte - 0x30) as u8)
    } else if 0x41 <= byte <= 0x46 {
        Some((byte - 0x41 + 10) as u8)
    } else if 0x61 <= byte <= 0x66 {
        Some((byte - 0x61 + 10) as u8)
    } else {
        None
    }
}

/// The value of a channel written in two bytes: two hexadecimal digits, or
/// a plus sign and one digit.
pub open spec fn hex_pair_value(high: u8, low: u8) -> Option<u8> {
    if high == 0x2b {
        hex_digit_value(low)
    } else {
        match (hex_digit_value(high), hex_digit_value(low)) {
            (Some(h), Some(l)) => Some((16 * h + l) as u8),
            _ => None,
        }
    }
}

/// `bytes` without its leading `#` signs.
pub open spec fn without_hashes(bytes: Seq<u8>) -> Seq<u8>
    decreases bytes.len(),
{
    if bytes.len() > 0 && bytes[0] == 0x23 {
        without_hashes(bytes.drop_first())
    } else {
        bytes
    }
}

/// The color that the bytes of a text denote. After any number of `#`
/// signs come three or four channels of two bytes each; a missing alpha
/// channel is 255. The first channel that is no number names the error.
#[verifier::opaque]
pub open spec fn color_of_hex(bytes: Seq<u8>) -> Result<Color, HexColorError> {
    let hex = without_hashes(bytes);
    if hex.len() != 6 && hex.len() != 8 {
        Err(HexColorError::Format)
    } else {
        match hex_pair_value(hex[0], hex[1]) {
            None => Err(HexColorError::Red),
            Some(r) => match hex_pair_value(hex[2], hex[3]) {
                None => Err(HexColorError::Green),
                Some(g) => match hex_pair_value(hex[4], hex[5]) {
                    None => Err(HexColorError::Blue),
                    Some(b) => if hex.len() == 6 {
                        Ok(Color { r, g, b, a: 255 })
                    } else {
                        match hex_pair_value(hex[6], hex[7]) {
                            None => Err(HexColorError::Alpha),
                            Some(a) => Ok(Color { r, g, b, a }),
                        }
                    },
                },
            },
        }
    }
}

/// The upper-case hexadecimal digit for a value below 16.
pub open spec fn upper_hex_digit(value: int) -> char {
    if value < 10 {
        (0x30 + value) as char
    } else {
        (0x41 + value - 10) as char
    }
}

/// The notation of a color: `#` and two upper-case digits per channel.
pub open spec fn hex_text(c: Color) -> Seq<char> {
    seq![
        '#',
        upper_hex_digit(c.r as int / 16),
        upper_hex_digit(c.r as int % 16),
        upper_hex_digit(c.g as int / 16),
        upper_hex_digit(c.g as int % 16),
        upper_hex_digit(c.b as int / 16),
        upper_hex_digit(c.b as int % 16),
        upper_hex_digit(c.a as int / 16),
        upper_hex_digit(c.a as int % 16),
    ]
}

/// A color in words: its four channels in decimal.
pub open spec fn rgba_text(c: Color) -> Seq<char> {
    "RGBA("@ + decimal_digits(c.r as nat) + ", "@ + decimal_digits(c.g as nat) + ", "@
        + decimal_digits(c.b as nat) + ", "@ + decimal_digits(c.a as nat) + ")"@
}

fn hex_digit(byte: u8) -> (value: Option<u8>)
    ensures
        value == hex_digit_value(byte),
{
    if 0x30 <= byte && byte <= 0x39 {
        Some(byte - 0x30)
    } else if 0x41 <= byte && byte <= 0x46 {
        Some(byte - 0x41 + 10)
    } else if 0x61 <= byte && byte <= 0x66 {
        Some(byte - 0x61 + 10)
    } else {
        None
    }
}

fn hex_pair(high: u8, low: u8) -> (value: Option<u8>)
    ensures
        value == hex_pair_value(high, low),
{
    if high == 0x2b {
        hex_digit(low)
    } else {
        match (hex_digit(high), hex_digit(low)) {
            (Some(h), Some(l)) => Some(16 * h + l),
            _ => None,
        }
    }
}

fn upper_hex_str(value: u8) -> (digit: &'static str)
    requires
        value < 16,
    ensures
        digit@ == seq![upper_hex_digit(value as int)],
{
    proof {
        reveal_strlit("0");
        reveal_strlit("1");
        reveal_strlit("2");
        reveal_strlit("3");
        reveal_strlit("4");
        reveal_strlit("5");
        reveal_strlit("6");
        reveal_strlit("7");
        reveal_strlit("8");
        reveal_strlit("9");
        reveal_strlit("A");
        reveal_strlit("B");
        reveal_strlit("C");
        reveal_strlit("D");
        reveal_strlit("E");
        reveal_strlit("F");
    }
    match value {
        0 => "0",
        1 => "1",
        2 => "2",
        3 => "3",
        4 => "4",
        5 => "5",
        6 => "6",
        7 => "7",
        8 => "8",
        9 => "9",
        10 => "A",
        11 => "B",
        12 => "C",
        13 => "D",
        14 => "E",
        _ => "F",
    }
}

impl Color {
    /// An opaque color.
    pub fn new(r: u8, g: u8, b: u8) -> (color: Color)
        ensures
            color == (Color { r, g, b, a: 255 }),
    {
        Color { r, g, b, a: 255 }
    }

    /// A color with the given transparency.
    pub fn new_with_alpha(r: u8, g: u8, b: u8, a: u8) -> (color: Color)
        ensures
            color == (Color { r, g, b, a }),
    {
        Color { r, g, b, a }
    }

    /// Reads a color from its hexadecimal notation, such as `#635147` or
    /// `#635147FF`. The text is taken by its bytes: see `color_of_hex`.
    pub fn from_hex(hex: &str) -> (parsed: Result<Color, String>)
        ensures
            match color_of_hex(encode_utf8(hex@)) {
                Ok(c) => parsed == Ok::<Color, String>(c),
                Err(e) => parsed is Err && parsed->Err_0@ == e.text(),
            },
    {
        let bytes = hex.as_bytes();
        let n = bytes.len();
        let mut start: usize = 0;
        proof {
            reveal(color_of_hex);
            assert(bytes@.skip(0) =~= bytes@);
        }
        while start < n && bytes[start] == 0x23
            invariant
                start <= n,
                n == bytes@.len(),
                without_hashes(bytes@) == without_hashes(bytes@.skip(start as int)),
            decreases n - start,
        {
            proof {
                assert(bytes@.skip(start as int).drop_first() =~= bytes@.skip(start + 1));
            }
            start += 1;
        }
        let ghost rest = bytes@.skip(start as int);
        assert(without_hashes(bytes@) == rest) by {}
        let len = n - start;
        if len != 6 && len != 8 {
            return Err(String::from_str("Invalid hex color format"));
        }
        let r = match hex_pair(bytes[start], bytes[start + 1]) {
            Some(v) => v,
            None => {
                return Err(String::from_str("Invalid red value"));
            },
        };
        let g = match hex_pair(bytes[start + 2], bytes[start + 3]) {
            Some(v) => v,
            None => {
                return Err(String::from_str("Invalid green value"));
            },
        };
        let b = match hex_pair(bytes[start + 4], bytes[start + 5]) {
            Some(v) => v,
            None => {
                return Err(String::from_str("Invalid blue value"));
            },
        };
        let a = if len == 8 {
            match hex_pair(bytes[start + 6], bytes[start + 7]) {
                Some(v) => v,
                None => {
                    return Err(String::from_str("Invalid alpha value"));
                },
            }
        } else {
            255
        };
        Ok(Color::new_with_alpha(r, g, b, a))
    }

    /// The color in words, such as `RGBA(99, 81, 71, 255)`.
    pub fn to_string(&self) -> (text: String)
        ensures
            text@ == rgba_text(*self),
    {
        let mut text = String::from_str("RGBA(");
        text.append(decimal_text(self.r as usize).as_str());
        text.append(", ");
        text.append(decimal_text(self.g as usize).as_str());
        text.append(", ");
        text.append(decimal_text(self.b as usize).as_str());
        text.append(", ");
        text.append(decimal_text(self.a as usize).as_str());
        text.append(")");
        text
    }

    /// The hexadecimal notation of the color, alpha included.
    pub fn to_hex(&self) -> (hex: String)
        ensures
            hex@ == hex_text(*self),
    {
        proof {
            reveal_strlit("#");
        }
        let mut hex = String::from_str("#");
        hex.append(upper_hex_str(self.r / 16));
        hex.append(upper_hex_str(self.r % 16));
        hex.append(upper_hex_str(self.g / 16));
        hex.append(upper_hex_str(self.g % 16));
        hex.append(upper_hex_str(self.b / 16));
        hex.append(upper_hex_str(self.b % 16));
        hex.append(upper_hex_str(self.a / 16));
        hex.append(upper_hex_str(self.a % 16));
        hex
    }
}

} // verus!
