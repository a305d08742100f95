use vstd::prelude::*;

verus! {

/// Position of pixel `(x, y)` in a row-major buffer whose rows are `width` long.
pub open spec fn pixel_index(x: int, y: int, width: int) -> int {
    y * width + x
}

/// Nearest-neighbour source coordinate for destination coordinate `d`, when a
/// source extent of `src` is stretched over a destination extent of `dst`:
/// `min(d * src / dst, src - 1)`, with truncating division.
pub open spec fn nearest_source(d: int, src: int, dst: int) -> int {
    let s = d * src / dst;
    if s < src - 1 {
        s
    } else {
        src - 1
    }
}

/// `out` is the `dst_width` x `dst_height` nearest-neighbour resampling of the
/// `src_width` x `src_height` buffer `src`: every destination pixel `(dx, dy)`
/// holds the source pixel at `(nearest_source(dx, ..), nearest_source(dy, ..))`.
pub open spec fn is_scaled(
    src: Seq<u64>,
    src_width: int,
    src_height: int,
    dst_width: int,
    dst_height: int,
    out: Seq<u64>,
) -> bool {
    &&& out.len() == dst_width * dst_height
    &&& forall|dx: int, dy: int|
        0 <= dx < dst_width && 0 <= dy < dst_height ==> #[trigger] out[pixel_index(
            dx,
            dy,
            dst_width,
        )] == src[pixel_index(
            nearest_source(dx, src_width, dst_width),
            nearest_source(dy, src_height, dst_height),
            src_width,
        )]
}

proof fn lemma_index_order(x1: int, y1: int, x2: int, y2: int, width: int)
    requires
        0 <= x1 < width,
        0 <= x2 <= width,
        0 <= y1,
        y1 < y2 || (y1 == y2 && x1 < x2),
    ensures
        0 <= pixel_index(x1, y1, width) < pixel_index(x2, y2, width),
{
    assert(0 <= y1 * width) by (nonlinear_arith)
        requires
            0 <= y1,
            0 <= width,
    ;
    if y1 < y2 {
        assert((y1 + 1) * width <= y2 * width) by (nonlinear_arith)
            requires
                y1 + 1 <= y2,
                0 <= width,
        ;
        assert((y1 + 1) * width == y1 * width + width) by (nonlinear_arith);
    }
}

proof fn lemma_nearest_in_range(d: int, src: int, dst: int)
    requires
        0 <= d < dst,
        1 <= src,
    ensures
        0 <= nearest_source(d, src, dst) < src,
        d * src <= dst * src,
{
    assert(0 <= d * src) by (nonlinear_arith)
        requires
            0 <= d,
            0 <= src,
    ;
    assert(d * src <= dst * src) by (nonlinear_arith)
        requires
            d < dst,
            0 <= src,
    ;
}

/// Scaling is deterministic: for one source buffer and one pair of sizes,
/// any two buffers that are its nearest-neighbour resampling are identical,
/// so an unchanging capture gives byte-identical frames.
pub proof fn lemma_scaled_unique(
    src: Seq<u64>,
    src_width: int,
    src_height: int,
    dst_width: int,
    dst_height: int,
    a: Seq<u64>,
    b: Seq<u64>,
)
    requires
        0 <= dst_width,
        0 <= dst_height,
        is_scaled(src, src_width, src_height, dst_width, dst_height, a),
        is_scaled(src, src_width, src_height, dst_width, dst_height, b),
    ensures
        a == b,
{
    assert forall|i: int| 0 <= i < a.len() implies a[i] == b[i] by {
        let dx = i % dst_width;
        let dy = i / dst_width;
        assert(dst_width > 0) by (nonlinear_arith)
            requires
                0 <= i < dst_width * dst_height,
                0 <= dst_height,
        ;
        assert(i == pixel_index(dx, dy, dst_width) && 0 <= dx < dst_width && 0 <= dy
            < dst_height) by (nonlinear_arith)
            requires
                dst_width > 0,
                0 <= i < dst_width * dst_height,
                dx == i % dst_width,
                dy == i / dst_width,
        ;
        assert(a[pixel_index(dx, dy, dst_width)] == b[pixel_index(dx, dy, dst_width)]);
    }
    assert(a =~= b);
}

/// Upscales (or downscales) a row-major pixel buffer to `new_width` x
/// `new_height` by nearest-neighbour resampling, with no interpolation.
pub fn scale_image(
    src: &Vec<u64>,
    src_width: usize,
    src_height: usize,
    new_width: usize,
    new_height: usize,
) -> (r: Vec<u64>)
    requires
        1 <= src_width,
        1 <= src_height,
        src@.len() == src_width * src_height,
        new_width * src_width <= usize::MAX,
        new_height * src_height <= usize::MAX,
    ensures
        is_scaled(
            src@,
            src_width as int,
            src_height as int,
            new_width as int,
            new_height as int,
            r@,
        ),
{
    let src_len = src.len();
    let mut out: Vec<u64> = Vec::new();
    let mut y: usize = 0;
    while y < new_height
        invariant
            y <= new_height,
            1 <= src_width,
            1 <= src_height,
            src@.len() == src_width * src_height,
            src_len == src@.len(),
            new_width * src_width <= usize::MAX,
            new_height * src_height <= usize::MAX,
            out@.len() == pixel_index(0, y as int, new_width as int),
            forall|dx: int, dy: int|
                0 <= dx < new_width && 0 <= dy < y ==> #[trigger] out@[pixel_index(
                    dx,
                    dy,
                    new_width as int,
                )] == src@[pixel_index(
                    nearest_source(dx, src_width as int, new_width as int),
                    nearest_source(dy, src_height as int, new_height as int),
                    src_width as int,
                )],
        decreases new_height - y,
    {
        proof {
            lemma_nearest_in_range(y as int, src_height as int, new_height as int);
        }
        let sy_raw = y * src_height / new_height;
        let sy = if sy_raw < src_height - 1 {
            sy_raw
        } else {
            src_height - 1
        };
        let mut x: usize = 0;
        while x < new_width
            invariant
                x <= new_width,
                y < new_height,
                1 <= src_width,
                1 <= src_height,
                src@.len() == src_width * src_height,
                src_len == src@.len(),
                new_width * src_width <= usize::MAX,
                sy == nearest_source(y as int, src_height as int, new_height as int),
                0 <= sy < src_height,
                out@.len() == pixel_index(x as int, y as int, new_width as int),
                forall|dx: int, dy: int|
                    (0 <= dx < new_width && 0 <= dy < y) || (dy == y && 0 <= dx < x)
                        ==> #[trigger] out@[pixel_index(dx, dy, new_width as int)]
                        == src@[pixel_index(
                        nearest_source(dx, src_width as int, new_width as int),
                        nearest_source(dy, src_height as int, new_height as int),
                        src_width as int,
                    )],
            decreases new_width - x,
        {
            proof {
                lemma_nearest_in_range(x as int, src_width as int, new_width as int);
            }
            let sx_raw = x * src_width / new_width;
            let sx = if sx_raw < src_width - 1 {
                sx_raw
            } else {
                src_width - 1
            };
            proof {
                lemma_index_order(
                    sx as int,
                    sy as int,
                    0,
                    src_height as int,
                    src_width as int,
                );
                assert(pixel_index(0, src_height as int, src_width as int) == src_width
                    * src_height) by (nonlinear_arith);
                assert(sy * src_width + sx < src_len);
            }
            let ghost before = out@;
            out.push(src[sy * src_width + sx]);
            proof {
                assert forall|dx: int, dy: int|
                    (0 <= dx < new_width && 0 <= dy < y) || (dy == y && 0 <= dx < x + 1)
                        implies #[trigger] out@[pixel_index(dx, dy, new_width as int)]
                        == src@[pixel_index(
                        nearest_source(dx, src_width as int, new_width as int),
                        nearest_source(dy, src_height as int, new_height as int),
                        src_width as int,
                    )] by {
                    if dy == y && dx == x {
                    } else {
                        lemma_index_order(dx, dy, x as int, y as int, new_width as int);
                        assert(out@[pixel_index(dx, dy, new_width as int)] == before[pixel_index(
                            dx,
                            dy,
                            new_width as int,
                        )]);
                    }
                }
            }
            x = x + 1;
        }
        proof {
            assert(pixel_index(new_width as int, y as int, new_width as int) == pixel_index(
                0,
                y + 1,
                new_width as int,
            )) by (nonlinear_arith);
        }
        y = y + 1;
    }
    proof {
        assert(pixel_index(0, new_height as int, new_width as int) == new_width * new_height)
            by (nonlinear_arith);
    }
    out
}

} // verus!
