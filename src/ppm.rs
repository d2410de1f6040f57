//! The plain-text colour pixel-map (PPM) encoding of a rendered image: a
//! three-line header, then one `"<r> <g> <b>"` line per pixel in row-major
//! order.
use vstd::prelude::*;

use crate::color::{CHANNEL_MAX, Rgb8};
use crate::image::ImageSize;

verus! {

/// ASCII `'0'`; the digit `d` is the byte `DIGIT_ZERO + d`.
pub const DIGIT_ZERO: u8 = 48;

/// ASCII space, between the numbers of a line.
pub const SPACE: u8 = 32;

/// ASCII line feed, at the end of each line.
pub const NEWLINE: u8 = 10;

/// ASCII `'P'`, the first byte of the format tag.
pub const TAG_LETTER: u8 = 80;

/// ASCII `'3'`, the second byte of the format tag: the plain-text colour
/// variant of the format.
pub const TAG_DIGIT: u8 = 51;

/// The ASCII decimal digits of `n`, most significant first, with no
/// leading zeros.
pub open spec fn decimal(n: nat) -> Seq<u8>
    decreases n,
{
    if n < 10 {
        seq![(DIGIT_ZERO + n) as u8]
    } else {
        decimal(n / 10) + seq![(DIGIT_ZERO + n % 10) as u8]
    }
}

/// The header: the format tag, the width and height, and the largest
/// channel value, each on a line of its own.
pub open spec fn header_text(size: ImageSize) -> Seq<u8> {
    seq![TAG_LETTER, TAG_DIGIT, NEWLINE] + decimal(size.width as nat) + seq![SPACE] + decimal(
        size.height as nat,
    ) + seq![NEWLINE] + decimal(CHANNEL_MAX as nat) + seq![NEWLINE]
}

/// The line written for one pixel.
pub open spec fn pixel_text(p: Rgb8) -> Seq<u8> {
    decimal(p.r as nat) + seq![SPACE] + decimal(p.g as nat) + seq![SPACE] + decimal(p.b as nat)
        + seq![NEWLINE]
}

/// The lines written for a sequence of pixels, in their order.
pub open spec fn pixels_text(ps: Seq<Rgb8>) -> Seq<u8>
    decreases ps.len(),
{
    if ps.len() == 0 {
        Seq::empty()
    } else {
        pixels_text(ps.drop_last()) + pixel_text(ps.last())
    }
}

/// The whole document for an image of the given size and pixels.
pub open spec fn document(size: ImageSize, ps: Seq<Rgb8>) -> Seq<u8> {
    header_text(size) + pixels_text(ps)
}

/// Appends the decimal digits of `n` to `out`.
pub fn push_decimal(out: &mut Vec<u8>, n: u32)
    ensures
        final(out)@ == old(out)@ + decimal(n as nat),
    decreases n,
{
    if n >= 10 {
        push_decimal(out, n / 10);
    }
    out.push(DIGIT_ZERO + (n % 10) as u8);
    assert(final(out)@ =~= old(out)@ + decimal(n as nat));
}

/// The header for an image of the given size.
pub fn header(size: ImageSize) -> (r: Vec<u8>)
    ensures
        r@ == header_text(size),
{
    let mut out: Vec<u8> = Vec::new();
    out.push(TAG_LETTER);
    out.push(TAG_DIGIT);
    out.push(NEWLINE);
    push_decimal(&mut out, size.width);
    out.push(SPACE);
    push_decimal(&mut out, size.height);
    out.push(NEWLINE);
    push_decimal(&mut out, CHANNEL_MAX as u32);
    out.push(NEWLINE);
    assert(out@ =~= header_text(size));
    out
}

/// Appends the line for pixel `p` to `out`.
pub fn push_pixel(out: &mut Vec<u8>, p: Rgb8)
    ensures
        final(out)@ == old(out)@ + pixel_text(p),
{
    push_decimal(out, p.r as u32);
    out.push(SPACE);
    push_decimal(out, p.g as u32);
    out.push(SPACE);
    push_decimal(out, p.b as u32);
    out.push(NEWLINE);
    assert(final(out)@ =~= old(out)@ + pixel_text(p));
}

/// The line for pixel `p`, such as `"255 0 0\n"`.
pub fn pixel_line(p: Rgb8) -> (r: Vec<u8>)
    ensures
        r@ == pixel_text(p),
{
    let mut out: Vec<u8> = Vec::new();
    push_pixel(&mut out, p);
    assert(out@ =~= pixel_text(p));
    out
}

/// The whole document for an image of the given size whose pixels, in
/// row-major order, are `pixels`.
pub fn encode(size: ImageSize, pixels: &Vec<Rgb8>) -> (r: Vec<u8>)
    requires
        pixels@.len() == size.count(),
    ensures
        r@ == document(size, pixels@),
{
    let mut out = header(size);
    let mut i: usize = 0;
    while i < pixels.len()
        invariant
            i <= pixels@.len(),
            out@ == header_text(size) + pixels_text(pixels@.subrange(0, i as int)),
        decreases pixels@.len() - i,
    {
        push_pixel(&mut out, pixels[i]);
        proof {
            let done = pixels@.subrange(0, i + 1);
            assert(done.drop_last() =~= pixels@.subrange(0, i as int));
            assert(out@ =~= header_text(size) + pixels_text(done));
        }
        i += 1;
    }
    assert(pixels@.subrange(0, pixels@.len() as int) =~= pixels@);
    out
}

/// Number of line feeds in `s`, that is, the number of lines it ends.
pub open spec fn newlines(s: Seq<u8>) -> nat
    decreases s.len(),
{
    if s.len() == 0 {
        0
    } else {
        newlines(s.drop_last()) + if s.last() == NEWLINE {
            1nat
        } else {
            0nat
        }
    }
}

proof fn lemma_newlines_add(a: Seq<u8>, b: Seq<u8>)
    ensures
        newlines(a + b) == newlines(a) + newlines(b),
    decreases b.len(),
{
    if b.len() > 0 {
        lemma_newlines_add(a, b.drop_last());
        assert((a + b).drop_last() =~= a + b.drop_last());
    } else {
        assert(a + b =~= a);
    }
}

proof fn lemma_decimal_one_line(n: nat)
    ensures
        newlines(decimal(n)) == 0,
    decreases n,
{
    if n < 10 {
        assert(decimal(n).drop_last() =~= Seq::<u8>::empty());
        assert(newlines(Seq::<u8>::empty()) == 0);
    } else {
        lemma_decimal_one_line(n / 10);
        lemma_newlines_add(decimal(n / 10), seq![(DIGIT_ZERO + n % 10) as u8]);
        assert(seq![(DIGIT_ZERO + n % 10) as u8].drop_last() =~= Seq::<u8>::empty());
        assert(newlines(Seq::<u8>::empty()) == 0);
    }
}

proof fn lemma_single_newline()
    ensures
        newlines(seq![NEWLINE]) == 1,
        newlines(seq![SPACE]) == 0,
{
    assert(seq![NEWLINE].drop_last() =~= Seq::<u8>::empty());
    assert(seq![SPACE].drop_last() =~= Seq::<u8>::empty());
    assert(newlines(Seq::<u8>::empty()) == 0);
}

proof fn lemma_pixels_lines(ps: Seq<Rgb8>)
    ensures
        newlines(pixels_text(ps)) == ps.len(),
    decreases ps.len(),
{
    if ps.len() > 0 {
        let p = ps.last();
        lemma_pixels_lines(ps.drop_last());
        lemma_single_newline();
        lemma_decimal_one_line(p.r as nat);
        lemma_decimal_one_line(p.g as nat);
        lemma_decimal_one_line(p.b as nat);
        lemma_newlines_add(decimal(p.r as nat), seq![SPACE]);
        lemma_newlines_add(decimal(p.r as nat) + seq![SPACE], decimal(p.g as nat));
        lemma_newlines_add(decimal(p.r as nat) + seq![SPACE] + decimal(p.g as nat), seq![SPACE]);
        lemma_newlines_add(
            decimal(p.r as nat) + seq![SPACE] + decimal(p.g as nat) + seq![SPACE],
            decimal(p.b as nat),
        );
        lemma_newlines_add(
            decimal(p.r as nat) + seq![SPACE] + decimal(p.g as nat) + seq![SPACE] + decimal(
                p.b as nat,
            ),
            seq![NEWLINE],
        );
        lemma_newlines_add(pixels_text(ps.drop_last()), pixel_text(p));
    }
}

/// A document holds exactly three header lines and then one line per
/// pixel, so an image of `width * height` pixels is written as
/// `3 + width * height` lines.
pub proof fn lemma_document_line_count(size: ImageSize, ps: Seq<Rgb8>)
    requires
        ps.len() == size.count(),
    ensures
        newlines(document(size, ps)) == 3 + size.count(),
{
    let tag = seq![TAG_LETTER, TAG_DIGIT, NEWLINE];
    let w = decimal(size.width as nat);
    let h = decimal(size.height as nat);
    let m = decimal(CHANNEL_MAX as nat);
    assert(tag.drop_last() =~= seq![TAG_LETTER, TAG_DIGIT]);
    assert(tag.drop_last().drop_last() =~= seq![TAG_LETTER]);
    assert(tag.drop_last().drop_last().drop_last() =~= Seq::<u8>::empty());
    assert(newlines(tag) == 1) by {
        reveal_with_fuel(newlines, 4);
    }
    lemma_single_newline();
    lemma_decimal_one_line(size.width as nat);
    lemma_decimal_one_line(size.height as nat);
    lemma_decimal_one_line(CHANNEL_MAX as nat);
    lemma_newlines_add(tag, w);
    lemma_newlines_add(tag + w, seq![SPACE]);
    lemma_newlines_add(tag + w + seq![SPACE], h);
    lemma_newlines_add(tag + w + seq![SPACE] + h, seq![NEWLINE]);
    lemma_newlines_add(tag + w + seq![SPACE] + h + seq![NEWLINE], m);
    lemma_newlines_add(tag + w + seq![SPACE] + h + seq![NEWLINE] + m, seq![NEWLINE]);
    lemma_pixels_lines(ps);
    lemma_newlines_add(header_text(size), pixels_text(ps));
}

} // verus!
