use vstd::prelude::*;

verus! {

/// A display color, one byte per channel.
#[derive(Clone, Copy, Debug, PartialEq, Eq, Structural)]
pub struct Rgb8 {
    pub r: u8,
    pub g: u8,
    pub b: u8,
}

/// ASCII decimal digits of `n`, most significant first, without leading zeros.
pub open spec fn decimal(n: nat) -> Seq<u8>
    decreases n,
{
    if n < 10 {
        seq![(48 + n) as u8]
    } else {
        decimal(n / 10).push((48 + n % 10) as u8)
    }
}

/// The text line of one pixel: `"r g b\n"`.
pub open spec fn color_line(c: Rgb8) -> Seq<u8> {
    decimal(c.r as nat) + seq![32u8] + decimal(c.g as nat) + seq![32u8] + decimal(c.b as nat)
        + seq![10u8]
}

/// The plain-text image header: `"P3\n{width} {height}\n255\n"`.
pub open spec fn header_bytes(width: nat, height: nat) -> Seq<u8> {
    seq![80u8, 51u8, 10u8] + decimal(width) + seq![32u8] + decimal(height) + seq![
        10u8,
        50u8,
        53u8,
        53u8,
        10u8,
    ]
}

/// The pixel lines of `pixels`, in order.
pub open spec fn body_bytes(pixels: Seq<Rgb8>) -> Seq<u8>
    decreases pixels.len(),
{
    if pixels.len() == 0 {
        Seq::empty()
    } else {
        body_bytes(pixels.drop_last()) + color_line(pixels.last())
    }
}

/// Appends the decimal digits of `n`.
fn push_decimal(out: &mut Vec<u8>, n: u32)
    ensures
        final(out)@ == old(out)@ + decimal(n as nat),
    decreases n,
{
    if n >= 10 {
        push_decimal(out, n / 10);
    }
    out.push(48u8 + (n % 10) as u8);
    proof {
        if n < 10 {
            assert(decimal(n as nat) =~= seq![(48 + n) as u8]);
        }
    }
    assert(out@ =~= old(out)@ + decimal(n as nat));
}

/// The header of a plain-text image of `width` by `height` pixels with
/// channel values up to 255.
pub fn ppm_header(width: u32, height: u32) -> (r: Vec<u8>)
    ensures
        r@ == header_bytes(width as nat, height as nat),
{
    let mut out: Vec<u8> = Vec::new();
    out.push(80u8);
    out.push(51u8);
    out.push(10u8);
    push_decimal(&mut out, width);
    out.push(32u8);
    push_decimal(&mut out, height);
    out.push(10u8);
    out.push(50u8);
    out.push(53u8);
    out.push(53u8);
    out.push(10u8);
    assert(out@ =~= header_bytes(width as nat, height as nat));
    out
}

/// Appends the line of one pixel, its three channels in decimal separated by
/// spaces.
pub fn write_color(out: &mut Vec<u8>, pixel_color: Rgb8)
    ensures
        final(out)@ == old(out)@ + color_line(pixel_color),
{
    push_decimal(out, pixel_color.r as u32);
    out.push(32u8);
    push_decimal(out, pixel_color.g as u32);
    out.push(32u8);
    push_decimal(out, pixel_color.b as u32);
    out.push(10u8);
    assert(out@ =~= old(out)@ + color_line(pixel_color));
}

/// Encodes a whole image, rows from top to bottom, or `None` when the number
/// of pixels is not `width * height`.
pub fn encode_ppm(width: u32, height: u32, pixels: &Vec<Rgb8>) -> (r: Option<Vec<u8>>)
    ensures
        pixels@.len() == width as int * height as int <==> r is Some,
        r matches Some(bytes) ==> bytes@ == header_bytes(width as nat, height as nat) + body_bytes(
            pixels@,
        ),
{
    assert(width as u64 * height as u64 <= u32::MAX as u64 * u32::MAX as u64) by (nonlinear_arith);
    if pixels.len() as u64 != width as u64 * height as u64 {
        return None;
    }
    let mut out = ppm_header(width, height);
    let mut i: usize = 0;
    while i < pixels.len()
        invariant
            i <= pixels@.len(),
            out@ == header_bytes(width as nat, height as nat) + body_bytes(pixels@.subrange(0, i as int)),
        decreases pixels@.len() - i,
    {
        write_color(&mut out, pixels[i]);
        proof {
            let next = pixels@.subrange(0, i + 1);
            assert(next.drop_last() =~= pixels@.subrange(0, i as int));
            assert(next.last() == pixels@[i as int]);
        }
        i = i + 1;
    }
    assert(pixels@.subrange(0, pixels@.len() as int) =~= pixels@);
    Some(out)
}

} // verus!
