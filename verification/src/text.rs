//! Numbers written out as text, for the messages that the library returns.

use vstd::prelude::*;

verus! {

/// `String::push` of the standard library: the character is appended at the
/// end of the string, and the rest of the string stays as it was.
pub assume_specification[ String::push ](s: &mut String, c: char)
    ensures
        final(s)@ == old(s)@.push(c),
;

/// The character for one digit below 16, with capital letters above 9.
pub open spec fn digit_char(d: nat) -> char {
    if d < 10 {
        ((0x30 + d) as u8) as char
    } else {
        ((0x41 + d - 10) as u8) as char
    }
}

/// A number in base 16 with capital letters, filled with zeros on the left up
/// to `width` characters.
pub open spec fn hex_text(v: nat, width: nat) -> Seq<char>
    decreases v, width,
{
    if v < 16 && width <= 1 {
        seq![digit_char(v)]
    } else {
        hex_text(v / 16, if width > 0 { (width - 1) as nat } else { 0 }).push(digit_char(v % 16))
    }
}

/// A number in base 10.
pub open spec fn decimal_text(v: nat) -> Seq<char>
    decreases v,
{
    if v < 10 {
        seq![digit_char(v)]
    } else {
        decimal_text(v / 10).push(digit_char(v % 10))
    }
}

/// The character for one digit below 16.
pub fn digit(d: u8) -> (c: char)
    requires
        d < 16,
    ensures
        c == digit_char(d as nat),
{
    if d < 10 {
        (0x30 + d) as char
    } else {
        (0x41 + d - 10) as char
    }
}

/// Appends a number in base 16 to a string.
pub fn push_hex(s: &mut String, v: usize, width: usize)
    ensures
        final(s)@ == old(s)@ + hex_text(v as nat, width as nat),
    decreases v, width,
{
    if v < 16 && width <= 1 {
        s.push(digit(v as u8));
        assert(s@ =~= old(s)@ + hex_text(v as nat, width as nat));
    } else {
        push_hex(s, v / 16, if width > 0 { width - 1 } else { 0 });
        s.push(digit((v % 16) as u8));
        assert(s@ =~= old(s)@ + hex_text(v as nat, width as nat));
    }
}

/// Appends a number in base 10 to a string.
pub fn push_decimal(s: &mut String, v: usize)
    ensures
        final(s)@ == old(s)@ + decimal_text(v as nat),
    decreases v,
{
    if v < 10 {
        s.push(digit(v as u8));
        assert(s@ =~= old(s)@ + decimal_text(v as nat));
    } else {
        push_decimal(s, v / 10);
        s.push(digit((v % 10) as u8));
        assert(s@ =~= old(s)@ + decimal_text(v as nat));
    }
}

/// Appends a piece of text to a string.
pub fn push_text(s: &mut String, t: &str)
    ensures
        final(s)@ == old(s)@ + t@,
{
    s.append(t);
}

/// A number in base 2, filled with zeros on the left up to `width` characters.
pub open spec fn binary_text(v: nat, width: nat) -> Seq<char>
    decreases v, width,
{
    if v < 2 && width <= 1 {
        seq![digit_char(v)]
    } else {
        binary_text(v / 2, if width > 0 { (width - 1) as nat } else { 0 }).push(digit_char(v % 2))
    }
}

/// Appends a number in base 2 to a string.
pub fn push_binary(s: &mut String, v: usize, width: usize)
    ensures
        final(s)@ == old(s)@ + binary_text(v as nat, width as nat),
    decreases v, width,
{
    if v < 2 && width <= 1 {
        s.push(digit(v as u8));
        assert(s@ =~= old(s)@ + binary_text(v as nat, width as nat));
    } else {
        push_binary(s, v / 2, if width > 0 { width - 1 } else { 0 });
        s.push(digit((v % 2) as u8));
        assert(s@ =~= old(s)@ + binary_text(v as nat, width as nat));
    }
}

/// Whether a dump by characters shows a dot for a byte: it does for the
/// ASCII control characters and for ASCII white space.
pub open spec fn is_blank(b: u8) -> bool {
    b <= 0x20 || b == 0x7F
}

/// What a dump shows for one byte: the byte as a character, or a dot for a
/// blank, or the byte as two digits in base 16; then a space.
pub open spec fn dump_cell(b: u8, as_chars: bool) -> Seq<char> {
    if as_chars {
        if is_blank(b) {
            seq!['.', ' ']
        } else {
            seq![b as char, ' ']
        }
    } else {
        hex_text(b as nat, 2).push(' ')
    }
}

/// What a dump shows before the byte at position `i`: nothing, but for
/// every sixteenth byte, where a new line starts with the position of the
/// byte as eight digits in base 16.
pub open spec fn dump_margin(i: nat) -> Seq<char> {
    if i % 16 == 0 {
        seq!['\n', '0', 'x'] + hex_text(i, 8).push(' ')
    } else {
        Seq::empty()
    }
}

/// The dump of the first `n` of the given bytes.
pub open spec fn dump_text(bytes: Seq<u8>, n: int, as_chars: bool) -> Seq<char>
    decreases n,
{
    if n <= 0 {
        Seq::empty()
    } else {
        dump_text(bytes, n - 1, as_chars) + dump_margin((n - 1) as nat) + dump_cell(
            bytes[n - 1],
            as_chars,
        )
    }
}

/// Appends the dump of some bytes to a string: sixteen bytes to a line,
/// each line starting with the position of its first byte.
pub fn push_dump(s: &mut String, bytes: &Vec<u8>, as_chars: bool)
    ensures
        final(s)@ == old(s)@ + dump_text(bytes@, bytes@.len() as int, as_chars),
{
    let mut i: usize = 0;
    while i < bytes.len()
        invariant
            i <= bytes@.len(),
            s@ == old(s)@ + dump_text(bytes@, i as int, as_chars),
        decreases bytes@.len() - i,
    {
        let ghost before = s@;
        if i % 16 == 0 {
            s.push('\n');
            s.push('0');
            s.push('x');
            push_hex(s, i, 8);
            s.push(' ');
        }
        assert(s@ =~= before + dump_margin(i as nat));
        let b = bytes[i];
        if as_chars {
            if b <= 0x20 || b == 0x7F {
                s.push('.');
            } else {
                s.push(b as char);
            }
        } else {
            push_hex(s, b as usize, 2);
        }
        s.push(' ');
        assert(s@ =~= before + dump_margin(i as nat) + dump_cell(b, as_chars));
        i = i + 1;
    }
}

} // verus!
