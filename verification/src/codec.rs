//! Pure color codec: MIDI control value to hue, HSV triple plus transition
//! flag to the device's hex color string, and the decoders used to check
//! round-trips. No state, no side effects.

use vstd::prelude::*;

use crate::BulbError;

verus! {

/// The lowercase hexadecimal digit for a nibble value.
pub open spec fn hex_digit(n: int) -> char {
    if n == 0 {
        '0'
    } else if n == 1 {
        '1'
    } else if n == 2 {
        '2'
    } else if n == 3 {
        '3'
    } else if n == 4 {
        '4'
    } else if n == 5 {
        '5'
    } else if n == 6 {
        '6'
    } else if n == 7 {
        '7'
    } else if n == 8 {
        '8'
    } else if n == 9 {
        '9'
    } else if n == 10 {
        'a'
    } else if n == 11 {
        'b'
    } else if n == 12 {
        'c'
    } else if n == 13 {
        'd'
    } else if n == 14 {
        'e'
    } else {
        'f'
    }
}

/// The nibble value of a lowercase hexadecimal digit; 16 for any other
/// character.
pub open spec fn hex_val(c: char) -> int {
    if c == '0' {
        0
    } else if c == '1' {
        1
    } else if c == '2' {
        2
    } else if c == '3' {
        3
    } else if c == '4' {
        4
    } else if c == '5' {
        5
    } else if c == '6' {
        6
    } else if c == '7' {
        7
    } else if c == '8' {
        8
    } else if c == '9' {
        9
    } else if c == 'a' {
        10
    } else if c == 'b' {
        11
    } else if c == 'c' {
        12
    } else if c == 'd' {
        13
    } else if c == 'e' {
        14
    } else if c == 'f' {
        15
    } else {
        16
    }
}

pub open spec fn is_hex_digit(c: char) -> bool {
    hex_val(c) < 16
}

/// The four-digit, zero-padded hexadecimal encoding of a value below
/// 0x10000.
pub open spec fn hex4(v: int) -> Seq<char> {
    seq![
        hex_digit(v / 0x1000 % 16),
        hex_digit(v / 0x100 % 16),
        hex_digit(v / 0x10 % 16),
        hex_digit(v % 16),
    ]
}

/// The value read back from four hexadecimal digits.
pub open spec fn hex4_val(s: Seq<char>) -> int {
    hex_val(s[0]) * 0x1000 + hex_val(s[1]) * 0x100 + hex_val(s[2]) * 0x10 + hex_val(s[3])
}

/// The digit that leads the encoded color: '0' asks the device to apply the
/// color at once, '1' allows its usual transition.
pub open spec fn flag_digit(immediate: bool) -> char {
    if immediate {
        '0'
    } else {
        '1'
    }
}

/// The whole wire color string: flag digit, hue, saturation and brightness
/// each as four hex digits, then an eight-digit reserved field of zeros.
pub open spec fn encoded_color(h: int, s: int, v: int, immediate: bool) -> Seq<char> {
    seq![flag_digit(immediate)] + hex4(h) + hex4(s) + hex4(v)
        + seq!['0', '0', '0', '0', '0', '0', '0', '0']
}

/// The decimal digits of a nonnegative number, most significant first.
pub open spec fn decimal_digits(n: int) -> Seq<char>
    decreases n,
{
    if n < 10 {
        seq![hex_digit(n)]
    } else {
        decimal_digits(n / 10).push(hex_digit(n % 10))
    }
}

fn hex_digit_str(n: u8) -> (r: &'static str)
    requires
        n < 16,
    ensures
        r@ == seq![hex_digit(n as int)],
{
    proof {
        reveal_strlit("0");
        reveal_strlit("1");
        reveal_strlit("2");
        reveal_strlit("3");
        reveal_strlit("4");
        reveal_strlit("5");
        reveal_strlit("6");
        reveal_strlit("7");
        reveal_strlit("8");
        reveal_strlit("9");
        reveal_strlit("a");
        reveal_strlit("b");
        reveal_strlit("c");
        reveal_strlit("d");
        reveal_strlit("e");
        reveal_strlit("f");
    }
    let r: &'static str = match n {
        0 => "0",
        1 => "1",
        2 => "2",
        3 => "3",
        4 => "4",
        5 => "5",
        6 => "6",
        7 => "7",
        8 => "8",
        9 => "9",
        10 => "a",
        11 => "b",
        12 => "c",
        13 => "d",
        14 => "e",
        _ => "f",
    };
    proof {
        assert(r@ =~= seq![hex_digit(n as int)]);
    }
    r
}

fn push_hex4(out: &mut String, v: u16)
    ensures
        final(out)@ == old(out)@ + hex4(v as int),
{
    let d0: u8 = (v / 0x1000) as u8;
    let d1: u8 = ((v / 0x100) % 16) as u8;
    let d2: u8 = ((v / 0x10) % 16) as u8;
    let d3: u8 = (v % 16) as u8;
    out.append(hex_digit_str(d0));
    out.append(hex_digit_str(d1));
    out.append(hex_digit_str(d2));
    out.append(hex_digit_str(d3));
    proof {
        assert(out@ =~= old(out)@ + hex4(v as int));
    }
}

/// The hue, saturation and brightness of a color, each zero-padded to four
/// lowercase hexadecimal digits.
pub fn hsv_to_hex(h: u16, s: u16, v: u16) -> (r: String)
    ensures
        r@ == hex4(h as int) + hex4(s as int) + hex4(v as int),
        r@.len() == 12,
{
    let mut out = String::new();
    push_hex4(&mut out, h);
    push_hex4(&mut out, s);
    push_hex4(&mut out, v);
    proof {
        assert(out@ =~= hex4(h as int) + hex4(s as int) + hex4(v as int));
    }
    out
}

/// Encodes an HSV triple and a transition flag as the device's color
/// string. Out-of-range components are rejected outright rather than
/// clamped or wrapped, so a malformed payload can never be built.
pub fn encode_color(hue: u16, saturation: u16, brightness: u16, immediate: bool) -> (r: Result<
    String,
    BulbError,
>)
    ensures
        r is Ok <==> (hue <= 360 && saturation <= 1000 && brightness <= 1000),
        r is Ok ==> r->Ok_0@ == encoded_color(
            hue as int,
            saturation as int,
            brightness as int,
            immediate,
        ),
        r is Ok ==> r->Ok_0@.len() == 21,
        r is Ok ==> r->Ok_0@[0] == flag_digit(immediate),
        r is Err ==> r->Err_0 == BulbError::InvalidInput,
{
    if hue > 360 || saturation > 1000 || brightness > 1000 {
        return Err(BulbError::InvalidInput);
    }
    proof {
        reveal_strlit("0");
        reveal_strlit("1");
        reveal_strlit("00000000");
    }
    let mut out = String::new();
    if immediate {
        out.append("0");
    } else {
        out.append("1");
    }
    let hex = hsv_to_hex(hue, saturation, brightness);
    out.append(hex.as_str());
    out.append("00000000");
    proof {
        assert(out@ =~= encoded_color(hue as int, saturation as int, brightness as int, immediate));
    }
    Ok(out)
}

fn hex_char_val(c: char) -> (r: Option<u8>)
    ensures
        r is Some <==> is_hex_digit(c),
        r is Some ==> r->0 as int == hex_val(c),
{
    match c {
        '0' => Some(0),
        '1' => Some(1),
        '2' => Some(2),
        '3' => Some(3),
        '4' => Some(4),
        '5' => Some(5),
        '6' => Some(6),
        '7' => Some(7),
        '8' => Some(8),
        '9' => Some(9),
        'a' => Some(10),
        'b' => Some(11),
        'c' => Some(12),
        'd' => Some(13),
        'e' => Some(14),
        'f' => Some(15),
        _ => None,
    }
}

/// Reads a value back from exactly four lowercase hexadecimal digits;
/// anything else is refused.
pub fn decode_hex4(s: &str) -> (r: Option<u16>)
    ensures
        r is Some <==> (s@.len() == 4 && is_hex_digit(s@[0]) && is_hex_digit(s@[1])
            && is_hex_digit(s@[2]) && is_hex_digit(s@[3])),
        r is Some ==> r->0 as int == hex4_val(s@),
{
    if s.unicode_len() != 4 {
        return None;
    }
    let c0 = hex_char_val(s.get_char(0));
    let c1 = hex_char_val(s.get_char(1));
    let c2 = hex_char_val(s.get_char(2));
    let c3 = hex_char_val(s.get_char(3));
    match (c0, c1, c2, c3) {
        (Some(v0), Some(v1), Some(v2), Some(v3)) => Some(
            (v0 as u16) * 0x1000 + (v1 as u16) * 0x100 + (v2 as u16) * 0x10 + (v3 as u16),
        ),
        _ => None,
    }
}

/// Maps a MIDI Control Change value (0 to 127) onto a hue (0 to 360) by
/// `value * 360 / 127`, rounding down. Monotonic but intentionally not
/// injective: the 128 control steps are quantized into the 361 hue values.
pub fn midi_to_hue(midi_value: u8) -> (hue: u16)
    requires
        midi_value <= 127,
    ensures
        hue == midi_value as int * 360 / 127,
        hue <= 360,
{
    (midi_value as u16 * 360) / 127
}

/// Picks the controller value out of a raw MIDI message, accepting only a
/// three-byte Control Change on channel 0 for the modulation wheel
/// (controller number 1) with a value in the data-byte range. Every other
/// message is ignored.
pub fn parse_mod_wheel(message: &[u8]) -> (r: Option<u8>)
    ensures
        r is Some <==> (message@.len() == 3 && message@[0] == 0xb0 && message@[1] == 0x01
            && message@[2] <= 127),
        r is Some ==> r->0 == message@[2],
{
    if message.len() == 3 {
        let status = message[0];
        let controller = message[1];
        let value = message[2];
        if status == 0xb0 && controller == 0x01 && value <= 127 {
            return Some(value);
        }
    }
    None
}

/// The decimal digits of a number, as a string; used for the payload
/// timestamp field.
pub fn decimal_string(n: u64) -> (r: String)
    ensures
        r@ == decimal_digits(n as int),
    decreases n,
{
    if n < 10 {
        let mut out = String::new();
        out.append(hex_digit_str(n as u8));
        proof {
            assert(out@ =~= decimal_digits(n as int));
        }
        out
    } else {
        let mut out = decimal_string(n / 10);
        out.append(hex_digit_str((n % 10) as u8));
        proof {
            assert(out@ =~= decimal_digits(n as int));
        }
        out
    }
}

proof fn lemma_hex_digit_val(n: int)
    requires
        0 <= n < 16,
    ensures
        hex_val(hex_digit(n)) == n,
{
}

/// Law: encoding any hue in range as four hex digits and decoding them
/// returns the same hue. Together with the contract of `encode_color`,
/// whose hue field is exactly `hex4(hue)`, the wire string carries the hue
/// losslessly.
pub proof fn lemma_hex4_round_trip(h: u16)
    requires
        h <= 360,
    ensures
        hex4(h as int).len() == 4,
        forall|i: int| 0 <= i < 4 ==> is_hex_digit(hex4(h as int)[i]),
        hex4_val(hex4(h as int)) == h,
{
    let v = h as int;
    lemma_hex_digit_val(v / 0x1000 % 16);
    lemma_hex_digit_val(v / 0x100 % 16);
    lemma_hex_digit_val(v / 0x10 % 16);
    lemma_hex_digit_val(v % 16);
    assert(((h / 0x1000) % 16) * 0x1000 + ((h / 0x100) % 16) * 0x100 + ((h / 0x10) % 16) * 0x10 + (
    h % 16) == h) by (bit_vector);
}

} // verus!
