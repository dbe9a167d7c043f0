use vstd::prelude::*;

verus! {

/// ASCII codes of the characters a pixmap's text is made of.
pub const ZERO: u8 = 48;
pub const SPACE: u8 = 32;
pub const NEWLINE: u8 = 10;
pub const LETTER_P: u8 = 80;

/// Largest channel value of an 8-bit pixmap.
pub const MAX_CHANNEL: usize = 255;

/// ASCII decimal digits of `n`, most significant first, with no leading zero.
pub open spec fn decimal(n: nat) -> Seq<u8>
    decreases n,
{
    if n < 10 {
        seq![(ZERO + n) as u8]
    } else {
        decimal(n / 10).push((ZERO + n % 10) as u8)
    }
}

/// Header of a plain-text (P3) portable pixmap: magic number, width and
/// height, and the largest channel value, 255.
pub open spec fn header_spec(width: nat, height: nat) -> Seq<u8> {
    seq![LETTER_P] + decimal(3) + seq![NEWLINE] + decimal(width) + seq![SPACE] + decimal(height)
        + seq![NEWLINE] + decimal(MAX_CHANNEL as nat) + seq![NEWLINE]
}

/// One pixel of a plain-text pixmap: its three channels in decimal, separated
/// by spaces, on a line of their own.
pub open spec fn pixel_line_spec(r: u8, g: u8, b: u8) -> Seq<u8> {
    decimal(r as nat) + seq![SPACE] + decimal(g as nat) + seq![SPACE] + decimal(b as nat) + seq![
        NEWLINE,
    ]
}

/// Appends the decimal digits of `n` to `out`.
fn push_decimal(out: &mut Vec<u8>, n: usize)
    ensures
        final(out)@ == old(out)@ + decimal(n as nat),
    decreases n,
{
    if n >= 10 {
        push_decimal(out, n / 10);
    }
    let d: u8 = (n % 10) as u8;
    out.push(ZERO + d);
    assert(out@ =~= old(out)@ + decimal(n as nat));
}

/// Header of a plain-text pixmap of the given size.
pub fn ppm_header(width: usize, height: usize) -> (r: Vec<u8>)
    ensures
        r@ == header_spec(width as nat, height as nat),
{
    let mut out: Vec<u8> = Vec::new();
    out.push(LETTER_P);
    push_decimal(&mut out, 3);
    out.push(NEWLINE);
    push_decimal(&mut out, width);
    out.push(SPACE);
    push_decimal(&mut out, height);
    out.push(NEWLINE);
    push_decimal(&mut out, MAX_CHANNEL);
    out.push(NEWLINE);
    assert(out@ =~= header_spec(width as nat, height as nat));
    out
}

/// Line of a plain-text pixmap for one pixel with 8-bit channels.
pub fn pixel_line(r: u8, g: u8, b: u8) -> (line: Vec<u8>)
    ensures
        line@ == pixel_line_spec(r, g, b),
{
    let mut out: Vec<u8> = Vec::new();
    push_decimal(&mut out, r as usize);
    out.push(SPACE);
    push_decimal(&mut out, g as usize);
    out.push(SPACE);
    push_decimal(&mut out, b as usize);
    out.push(NEWLINE);
    assert(out@ =~= pixel_line_spec(r, g, b));
    out
}

} // verus!
