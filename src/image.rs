//! The plain-text pixel format: a `P3` header, the image size, the maximum
//! channel value, then one line of three decimal channels per pixel.
use vstd::prelude::*;
use vstd::arithmetic::div_mod::lemma_fundamental_div_mod_converse;

verus! {

/// ASCII `0`.
pub const DIGIT_ZERO: u8 = 48;

/// ASCII `P`, which opens the format's magic number.
pub const LETTER_P: u8 = 80;

/// ASCII space, between the numbers of a line.
pub const SPACE: u8 = 32;

/// ASCII line feed, which ends every line.
pub const NEWLINE: u8 = 10;

/// The number after `P` that names the plain-text colour variant.
pub const FORMAT_VARIANT: usize = 3;

/// The largest channel value, written in the header.
pub const MAX_CHANNEL: usize = 255;

/// The ASCII digit for `d`, where `d < 10`.
pub open spec fn digit(d: nat) -> u8 {
    (DIGIT_ZERO as nat + d) as u8
}

/// The decimal notation of `n`, most significant digit first, without
/// leading zeros.
pub open spec fn decimal(n: nat) -> Seq<u8>
    decreases n,
{
    if n < 10 {
        seq![digit(n)]
    } else {
        decimal(n / 10).push(digit(n % 10))
    }
}

/// Appends the decimal notation of `n` to `out`.
pub fn push_decimal(out: &mut Vec<u8>, n: usize)
    ensures
        final(out)@ == old(out)@ + decimal(n as nat),
    decreases n,
{
    if n >= 10 {
        push_decimal(out, n / 10);
    }
    out.push(DIGIT_ZERO + (n % 10) as u8);
    assert(out@ =~= old(out)@ + decimal(n as nat));
}

/// The header: `P3`, then `<width> <height>`, then the largest channel value,
/// each on a line of its own.
pub open spec fn header_bytes(width: nat, height: nat) -> Seq<u8> {
    seq![LETTER_P] + decimal(FORMAT_VARIANT as nat) + seq![NEWLINE]
        + decimal(width) + seq![SPACE] + decimal(height) + seq![NEWLINE]
        + decimal(MAX_CHANNEL as nat) + seq![NEWLINE]
}

/// The line of one pixel: its three channels, separated by spaces.
pub open spec fn pixel_bytes(r: nat, g: nat, b: nat) -> Seq<u8> {
    decimal(r) + seq![SPACE] + decimal(g) + seq![SPACE] + decimal(b) + seq![NEWLINE]
}

/// The header of an image of `width` by `height` pixels.
pub fn header(width: usize, height: usize) -> (r: Vec<u8>)
    ensures
        r@ == header_bytes(width as nat, height as nat),
{
    let mut out: Vec<u8> = Vec::new();
    out.push(LETTER_P);
    push_decimal(&mut out, FORMAT_VARIANT);
    out.push(NEWLINE);
    push_decimal(&mut out, width);
    out.push(SPACE);
    push_decimal(&mut out, height);
    out.push(NEWLINE);
    push_decimal(&mut out, MAX_CHANNEL);
    out.push(NEWLINE);
    assert(out@ =~= header_bytes(width as nat, height as nat));
    out
}

/// The line of a pixel with channels `r`, `g` and `b`.
pub fn pixel_line(r: u8, g: u8, b: u8) -> (line: Vec<u8>)
    ensures
        line@ == pixel_bytes(r as nat, g as nat, b as nat),
{
    let mut out: Vec<u8> = Vec::new();
    push_decimal(&mut out, r as usize);
    out.push(SPACE);
    push_decimal(&mut out, g as usize);
    out.push(SPACE);
    push_decimal(&mut out, b as usize);
    out.push(NEWLINE);
    assert(out@ =~= pixel_bytes(r as nat, g as nat, b as nat));
    out
}

/// The pixel written `k`-th: rows go from the top scanline down and each
/// row from left to right. A pixel is `(column, row)`, with row 0 at the
/// bottom of the image.
pub fn pixel_at(width: usize, height: usize, k: usize) -> (p: (usize, usize))
    requires
        width > 0,
        k < width * height,
    ensures
        p.0 == k % width,
        p.1 == height - 1 - k / width,
        p.0 < width,
        p.1 < height,
{
    assert(k / width < height) by (nonlinear_arith)
        requires
            width > 0,
            k < width * height,
    ;
    (k % width, height - 1 - k / width)
}

/// The position in the output of the pixel at `column` and `row`, row 0
/// being the bottom of the image.
pub open spec fn scan_index(width: nat, height: nat, column: nat, row: nat) -> int {
    (height - 1 - row) * width + column
}

/// Every pixel of the image is written, once: the pixel at `column` and
/// `row` is the one that `pixel_at` gives at its own position, which lies
/// among the `width * height` positions of the output.
pub proof fn lemma_scan_covers_image(width: nat, height: nat, column: nat, row: nat)
    requires
        column < width,
        row < height,
    ensures
        0 <= scan_index(width, height, column, row) < width * height,
        scan_index(width, height, column, row) % (width as int) == column,
        height - 1 - scan_index(width, height, column, row) / (width as int) == row,
{
    let q = height - 1 - row;
    let k = scan_index(width, height, column, row);
    lemma_fundamental_div_mod_converse(k, width as int, q, column as int);
    assert(0 <= k < width * height) by (nonlinear_arith)
        requires
            k == q * width + column,
            0 <= q < height,
            column < width,
    ;
}

} // verus!
