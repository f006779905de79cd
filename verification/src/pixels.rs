//! Pixel conversion for drag images: from premultiplied RGBA, read row by
//! row, to the straight BGRA that a device-independent bitmap holds.

use vstd::prelude::*;

verus! {

/// A colour channel with the premultiplied alpha taken out again: zero for
/// a transparent pixel, else `channel * 255 / alpha`, of which the low
/// eight bits are kept.
pub open spec fn unpremultiply(channel: u8, alpha: u8) -> u8 {
    if alpha == 0 {
        0
    } else {
        ((channel * 255 / (alpha as int)) % 256) as u8
    }
}

/// The four bytes written for the pixel whose source bytes start at `at`:
/// blue, green and red unpremultiplied, then alpha.
pub open spec fn bgra_pixel(image: Seq<u8>, at: int) -> Seq<u8> {
    let alpha = image[at + 3];
    seq![
        unpremultiply(image[at + 2], alpha),
        unpremultiply(image[at + 1], alpha),
        unpremultiply(image[at], alpha),
        alpha,
    ]
}

/// The first `pixels` pixels of the row whose source bytes start at
/// `row_at`.
pub open spec fn bgra_row(image: Seq<u8>, row_at: int, pixels: nat) -> Seq<u8>
    decreases pixels,
{
    if pixels == 0 {
        Seq::empty()
    } else {
        bgra_row(image, row_at, (pixels - 1) as nat) + bgra_pixel(image, row_at + 4 * (pixels - 1))
    }
}

/// The first `rows` rows of a bitmap `width` pixels wide, where source row
/// `y` starts at byte `y * src_stride`.
pub open spec fn bgra_rows(image: Seq<u8>, width: nat, src_stride: int, rows: nat) -> Seq<u8>
    decreases rows,
{
    if rows == 0 {
        Seq::empty()
    } else {
        bgra_rows(image, width, src_stride, (rows - 1) as nat) + bgra_row(
            image,
            (rows - 1) * src_stride,
            width,
        )
    }
}

/// Whether `len` source bytes hold every pixel that the conversion reads.
pub open spec fn source_holds(len: int, width: int, height: int, src_stride: int) -> bool {
    width == 0 || height == 0 || (height - 1) * src_stride + 4 * width <= len
}

pub proof fn lemma_bgra_row_len(image: Seq<u8>, row_at: int, pixels: nat)
    ensures
        bgra_row(image, row_at, pixels).len() == 4 * pixels,
    decreases pixels,
{
    if pixels > 0 {
        lemma_bgra_row_len(image, row_at, (pixels - 1) as nat);
    }
}

/// The converted bitmap has four bytes for every pixel.
pub proof fn lemma_bgra_rows_len(image: Seq<u8>, width: nat, src_stride: int, rows: nat)
    ensures
        bgra_rows(image, width, src_stride, rows).len() == 4 * width * rows,
    decreases rows,
{
    if rows > 0 {
        lemma_bgra_rows_len(image, width, src_stride, (rows - 1) as nat);
        lemma_bgra_row_len(image, (rows - 1) * src_stride, width);
        assert(4 * width * (rows - 1) + 4 * width == 4 * width * rows) by (nonlinear_arith);
    } else {
        assert(4 * width * rows == 0) by (nonlinear_arith)
            requires
                rows == 0,
        ;
    }
}

fn unpremultiplied(channel: u8, alpha: u8) -> (r: u8)
    ensures
        r == unpremultiply(channel, alpha),
{
    if alpha == 0 {
        0
    } else {
        ((channel as u32 * 255 / alpha as u32) % 256) as u8
    }
}

/// Converts a premultiplied RGBA image to straight BGRA.
///
/// The result has `height` rows of `width` pixels, without padding; source
/// row `y` is read from byte `y * src_stride` on. `None` if the source does
/// not hold every byte that would be read.
pub fn unpremultiply_to_bgra(image: &[u8], width: usize, height: usize, src_stride: usize) -> (r:
    Option<Vec<u8>>)
    ensures
        !source_holds(image@.len() as int, width as int, height as int, src_stride as int)
            ==> r is None,
        source_holds(image@.len() as int, width as int, height as int, src_stride as int)
            ==> r is Some && r->0@ == bgra_rows(
            image@,
            width as nat,
            src_stride as int,
            height as nat,
        ),
{
    let mut out: Vec<u8> = Vec::new();
    if width == 0 || height == 0 {
        proof {
            lemma_bgra_rows_len(image@, width as nat, src_stride as int, height as nat);
            assert(4 * width * height == 0) by (nonlinear_arith)
                requires
                    width == 0 || height == 0,
            ;
            assert(out@ =~= bgra_rows(image@, width as nat, src_stride as int, height as nat));
        }
        return Some(out);
    }
    let len = image.len();
    if width > len / 4 {
        assert((height - 1) * src_stride >= 0) by (nonlinear_arith)
            requires
                height >= 1,
                src_stride >= 0,
        ;
        return None;
    }
    let row_bytes: usize = 4 * width;
    let room: usize = len - row_bytes;
    // the last row must start at or before `room`
    if src_stride > 0 && (height - 1) > room / src_stride {
        assert((height - 1) * src_stride > room) by (nonlinear_arith)
            requires
                src_stride > 0,
                (height - 1) > room / src_stride,
                room >= 0,
        ;
        return None;
    }
    assert((height - 1) * src_stride <= room) by (nonlinear_arith)
        requires
            src_stride == 0 || (src_stride > 0 && (height - 1) <= room / src_stride),
            height >= 1,
            room >= 0,
    ;
    let mut y: usize = 0;
    let mut row_at: usize = 0;
    while y < height
        invariant
            y <= height,
            width > 0,
            row_bytes == 4 * width,
            room == image@.len() - row_bytes,
            image@.len() <= usize::MAX,
            (height - 1) * src_stride <= room,
            y < height ==> row_at == y * src_stride,
            out@ == bgra_rows(image@, width as nat, src_stride as int, y as nat),
        decreases height - y,
    {
        assert(row_at <= room) by (nonlinear_arith)
            requires
                row_at == y * src_stride,
                y <= height - 1,
                (height - 1) * src_stride <= room,
                src_stride >= 0,
        ;
        let ghost before = out@;
        let mut x: usize = 0;
        while x < width
            invariant
                x <= width,
                row_bytes == 4 * width,
                row_at + row_bytes <= image@.len() <= usize::MAX,
                out@ == before + bgra_row(image@, row_at as int, x as nat),
            decreases width - x,
        {
            let at: usize = row_at + 4 * x;
            let alpha: u8 = image[at + 3];
            out.push(unpremultiplied(image[at + 2], alpha));
            out.push(unpremultiplied(image[at + 1], alpha));
            out.push(unpremultiplied(image[at], alpha));
            out.push(alpha);
            x += 1;
            assert(out@ =~= before + bgra_row(image@, row_at as int, x as nat));
        }
        y += 1;
        if y < height {
            assert(y * src_stride == row_at + src_stride && y * src_stride <= room)
                by (nonlinear_arith)
                requires
                    row_at == (y - 1) * src_stride,
                    y <= height - 1,
                    (height - 1) * src_stride <= room,
                    src_stride >= 0,
            ;
            row_at = row_at + src_stride;
        }
    }
    Some(out)
}

/// Width and height, in pixels, of the bitmap that
/// `create_dragimage_bitmap` makes.
pub const DRAG_BITMAP_SIDE: usize = 512;

/// Distance in bytes between the starts of two source rows read by
/// `create_dragimage_bitmap`.
pub const DRAG_BITMAP_SOURCE_STRIDE: usize = 256;

/// The pixels of a 512 by 512 drag bitmap made from a premultiplied RGBA
/// image whose rows start 256 bytes apart. `None` if the image holds fewer
/// than the 132864 bytes that are read.
pub fn create_dragimage_bitmap(image: &Vec<u8>) -> (r: Option<Vec<u8>>)
    ensures
        image@.len() < 132864 ==> r is None,
        image@.len() >= 132864 ==> r is Some && r->0@ == bgra_rows(image@, 512, 256, 512),
{
    unpremultiply_to_bgra(
        image.as_slice(),
        DRAG_BITMAP_SIDE,
        DRAG_BITMAP_SIDE,
        DRAG_BITMAP_SOURCE_STRIDE,
    )
}

} // verus!
