//! The parallel-dispatch boundary.
//!
//! Every pixel's colour is computed independently; the driver may farm the
//! pixels out to a worker pool or a device kernel, and the results come
//! back as `(x, y, colour)` triples in whatever order the workers finish.
//! This module owns the part the image depends on: the row-major indexing
//! of the framebuffer and the assembly of the triples into it, where each
//! pixel shows the last triple reported for it.

use vstd::prelude::*;

verus! {

/// The value pixel `(x, y)` ends up with after the triples in `results`
/// are written in order: the last triple for that pixel wins, and a pixel
/// no triple names keeps `default`.
pub open spec fn spec_pixel_value<C>(
    results: Seq<(usize, usize, C)>,
    x: int,
    y: int,
    default: C,
) -> C
    decreases results.len(),
{
    if results.len() == 0 {
        default
    } else if results.last().0 == x && results.last().1 == y {
        results.last().2
    } else {
        spec_pixel_value(results.drop_last(), x, y, default)
    }
}

/// Distinct pixels of one frame occupy distinct row-major indices.
proof fn lemma_row_major_injective(x1: int, y1: int, x2: int, y2: int, width: int)
    requires
        0 <= x1 < width,
        0 <= x2 < width,
        0 <= y1,
        0 <= y2,
        !(x1 == x2 && y1 == y2),
    ensures
        y1 * width + x1 != y2 * width + x2,
{
    if y1 == y2 {
    } else {
        assert(y1 * width + x1 != y2 * width + x2) by (nonlinear_arith)
            requires
                0 <= x1 < width,
                0 <= x2 < width,
                0 <= y1,
                0 <= y2,
                y1 != y2,
        ;
    }
}

/// The position of pixel `(x, y)` in the flat row-major framebuffer.
pub open spec fn spec_pixel_index(x: int, y: int, width: int) -> int {
    y * width + x
}

/// Splits a flat row-major index back into pixel coordinates, as the
/// device path does when it turns its output buffer into an image.
pub fn pixel_coords(index: usize, width: usize) -> (p: (usize, usize))
    requires
        width > 0,
    ensures
        p.0 == index % width,
        p.1 == index / width,
        spec_pixel_index(p.0 as int, p.1 as int, width as int) == index,
{
    proof {
        vstd::arithmetic::div_mod::lemma_fundamental_div_mod(index as int, width as int);
        assert((index as int) / (width as int) * (width as int) == (width as int) * ((index as int)
            / (width as int))) by (nonlinear_arith);
    }
    (index % width, index / width)
}

/// Writes the reported triples into a `width` by `height` framebuffer.
///
/// Every triple must name a pixel inside the frame.  The result is the
/// full frame, row-major, where each pixel holds the last triple reported
/// for it and unreported pixels hold `default`.  When the driver reports
/// each pixel exactly once — as the worker pool does — "last" is simply
/// the pixel's one computed colour, whatever order the reports arrived in.
pub fn assemble_image<C: Copy>(
    width: usize,
    height: usize,
    default: C,
    results: &Vec<(usize, usize, C)>,
) -> (img: Vec<C>)
    requires
        width * height <= usize::MAX,
        forall|i: int|
            0 <= i < results@.len() ==> (#[trigger] results@[i]).0 < width && results@[i].1
                < height,
    ensures
        img@.len() == width * height,
        forall|x: int, y: int|
            0 <= x < width && 0 <= y < height ==> img@[spec_pixel_index(x, y, width as int)]
                == spec_pixel_value(results@, x, y, default),
{
    let total: usize = width * height;
    let mut img: Vec<C> = Vec::new();
    let mut i: usize = 0;
    while i < total
        invariant
            i <= total,
            img@.len() == i,
            forall|j: int| 0 <= j < i ==> img@[j] == default,
        decreases total - i,
    {
        img.push(default);
        i = i + 1;
    }
    proof {
        assert forall|x: int, y: int| 0 <= x < width && 0 <= y < height implies img@[
            spec_pixel_index(x, y, width as int)
        ] == spec_pixel_value(results@.take(0), x, y, default) by {
            assert(0 <= spec_pixel_index(x, y, width as int) < width * height) by (nonlinear_arith)
                requires
                    0 <= x < width,
                    0 <= y < height,
            ;
            assert(results@.take(0).len() == 0);
        }
    }
    let mut k: usize = 0;
    while k < results.len()
        invariant
            k <= results@.len(),
            img@.len() == width * height,
            width * height <= usize::MAX,
            forall|j: int|
                0 <= j < results@.len() ==> (#[trigger] results@[j]).0 < width && results@[j].1
                    < height,
            forall|x: int, y: int|
                0 <= x < width && 0 <= y < height ==> img@[spec_pixel_index(x, y, width as int)]
                    == spec_pixel_value(results@.take(k as int), x, y, default),
        decreases results@.len() - k,
    {
        let (x, y, c): (usize, usize, C) = results[k];
        proof {
            assert(y * width + x < width * height) by (nonlinear_arith)
                requires
                    x < width,
                    y < height,
                    0 <= x,
                    0 <= y,
            ;
        }
        let index: usize = y * width + x;
        img.set(index, c);
        proof {
            let rs = results@;
            let prefix = rs.take(k as int + 1);
            assert(prefix.drop_last() =~= rs.take(k as int));
            assert(prefix.last() == rs[k as int]);
            assert forall|xx: int, yy: int|
                0 <= xx < width && 0 <= yy < height implies img@[spec_pixel_index(
                xx,
                yy,
                width as int,
            )] == spec_pixel_value(prefix, xx, yy, default) by {
                assert(0 <= spec_pixel_index(xx, yy, width as int) < width * height)
                    by (nonlinear_arith)
                    requires
                        0 <= xx < width,
                        0 <= yy < height,
                ;
                if xx == x as int && yy == y as int {
                    assert(img@[spec_pixel_index(xx, yy, width as int)] == c);
                } else {
                    lemma_row_major_injective(xx, yy, x as int, y as int, width as int);
                    assert(img@[spec_pixel_index(xx, yy, width as int)] == spec_pixel_value(
                        rs.take(k as int),
                        xx,
                        yy,
                        default,
                    ));
                }
            }
        }
        k = k + 1;
    }
    proof {
        assert(results@.take(results@.len() as int) =~= results@);
    }
    img
}

} // verus!
