//! Gaussian blur of a rasterised glyph mask, for text shadows.
//!
//! A text shadow cannot be faked by painting the run again in a darker colour at an offset:
//! every copy is a fully hinted, fully antialiased glyph, so a "blur" assembled out of copies is
//! a stack of sharp ghost letters rather than a soft edge. The only thing that produces a soft
//! edge is a blur of the coverage mask. The mask is widened by the blur's reach on every side
//! and convolved with a separable kernel: a horizontal pass into a buffer that is already the
//! output width, then a vertical pass over that.
//!
//! The sample arithmetic (the kernel's weights, accumulating weighted samples, and rounding a
//! sample back to a coverage byte) is the caller's: it is handed in as the kernel and three
//! closures, and everything else (which pixels are read, in what order, and where results go)
//! is here.
use vstd::prelude::*;

verus! {

/// A length in device pixels.
#[derive(Clone, Copy, Debug, PartialEq, Eq, Structural)]
pub struct DevicePixels(pub i32);

/// A width and a height.
#[derive(Debug)]
pub struct Size<T> {
    pub width: T,
    pub height: T,
}

/// A size of the given width and height.
pub fn size<T>(width: T, height: T) -> (s: Size<T>)
    ensures
        s.width == width,
        s.height == height,
{
    Size { width, height }
}

/// The largest blur radius, in device pixels, that a text shadow will actually blur at.
///
/// Not a rendering limit but a memory one: the padded tile grows as the square of the radius.
/// At the cap a glyph gains 36 pixels of padding on every side.
pub const MAX_BLUR_RADIUS: u8 = 24;

/// How far a blur of `radius` spreads ink past the edge of the glyph: three standard
/// deviations, rounded up, where the standard deviation is half the radius.
pub open spec fn padding_of(radius: u8) -> int {
    (3 * radius + 1) / 2
}

/// How far a blur of this radius spreads ink past the edge of the glyph, in pixels: the least
/// whole number of pixels that covers three standard deviations (half the radius each).
pub fn padding(radius: u8) -> (pad: i32)
    ensures
        pad == padding_of(radius),
        2 * pad >= 3 * radius,
        2 * pad < 3 * radius + 2,
{
    if radius == 0 {
        0
    } else {
        (3 * (radius as i32) + 1) / 2
    }
}

/// The dimensions of one blur of a coverage mask.
#[derive(Clone, Copy, Debug, PartialEq, Eq, Structural)]
pub struct BlurPlan {
    /// Width of the sharp mask.
    pub width: usize,
    /// Height of the sharp mask.
    pub height: usize,
    /// Pixels added on every side.
    pub pad: usize,
    /// Width of the grown tile.
    pub out_width: usize,
    /// Height of the grown tile.
    pub out_height: usize,
}

/// A mask dimension, with negative sizes read as empty.
pub open spec fn extent_of(size: i32) -> int {
    if size < 0 {
        0
    } else {
        size as int
    }
}

/// Whether a mask of these dimensions, holding `mask_len` bytes, is blurred at `radius`: there
/// must be a blur to do, something to blur, and enough coverage bytes for every pixel.
pub open spec fn blurs(mask_width: i32, mask_height: i32, mask_len: usize, radius: u8) -> bool {
    &&& padding_of(radius) != 0
    &&& extent_of(mask_width) != 0
    &&& extent_of(mask_height) != 0
    &&& mask_len >= extent_of(mask_width) * extent_of(mask_height)
}

/// Plans the blur of a `mask_width` by `mask_height` coverage mask of `mask_len` bytes.
///
/// `None` means the mask is used as it is (zero radius, empty mask, or too few bytes); otherwise
/// the tile grows by `padding(radius)` on every side.
pub fn plan_blur(mask_width: i32, mask_height: i32, mask_len: usize, radius: u8) -> (plan: Option<
    BlurPlan,
>)
    ensures
        plan is Some <==> blurs(mask_width, mask_height, mask_len, radius),
        plan matches Some(p) ==> {
            &&& p.width == extent_of(mask_width)
            &&& p.height == extent_of(mask_height)
            &&& p.pad == padding_of(radius)
            &&& p.out_width == p.width + 2 * p.pad
            &&& p.out_height == p.height + 2 * p.pad
        },
{
    let width: u32 = if mask_width < 0 {
        0
    } else {
        mask_width as u32
    };
    let height: u32 = if mask_height < 0 {
        0
    } else {
        mask_height as u32
    };
    let pad = padding(radius) as u32;
    if pad == 0 || width == 0 || height == 0 {
        return None;
    }
    assert((width as u64) * (height as u64) <= u64::MAX) by (nonlinear_arith)
        requires
            width <= i32::MAX,
            height <= i32::MAX,
    ;
    let pixels: u64 = (width as u64) * (height as u64);
    if (mask_len as u64) < pixels {
        return None;
    }
    let width = width as usize;
    let height = height as usize;
    let pad = pad as usize;
    Some(
        BlurPlan {
            width,
            height,
            pad,
            out_width: width + 2 * pad,
            out_height: height + 2 * pad,
        },
    )
}

/// The position in the sharp mask that tap `tap` of a kernel reaching `pad` pixels each way
/// reads for grown position `out`, along a row or column of `len` pixels; `None` where the tap
/// falls outside the mask.
pub open spec fn source_of(out: int, tap: int, pad: int, len: int) -> Option<int> {
    let source = out - pad + tap - pad;
    if 0 <= source < len {
        Some(source)
    } else {
        None
    }
}

/// The sharp-mask position that one kernel tap reads for one grown position, if any.
pub fn blur_source(out: usize, tap: usize, pad: usize, len: usize) -> (source: Option<usize>)
    requires
        out + tap <= usize::MAX,
        2 * pad <= usize::MAX,
    ensures
        source == (match source_of(out as int, tap as int, pad as int, len as int) {
            Some(s) => Some(s as usize),
            None => None,
        }),
{
    let reach = 2 * pad;
    if out + tap < reach {
        return None;
    }
    let source = out + tap - reach;
    if source < len {
        Some(source)
    } else {
        None
    }
}

/// A zero radius is the identity: there is nothing to blur, so the sharp mask is used as it is
/// and costs no atlas growth.
pub proof fn lemma_zero_radius_is_sharp(mask_width: i32, mask_height: i32, mask_len: usize)
    ensures
        padding_of(0) == 0,
        !blurs(mask_width, mask_height, mask_len, 0),
{
}

/// The sampling is symmetric: for the grown position mirrored about the tile's centre, the tap
/// mirrored about the kernel's centre reads the mirrored mask position (or, like the unmirrored
/// tap, falls outside the mask).
pub proof fn lemma_taps_mirror(out: int, tap: int, pad: int, len: int)
    requires
        0 <= pad,
        0 <= out < len + 2 * pad,
        0 <= tap <= 2 * pad,
    ensures
        ({
            let mirrored = source_of(len + 2 * pad - 1 - out, 2 * pad - tap, pad, len);
            match source_of(out, tap, pad, len) {
                Some(s) => mirrored == Some(len - 1 - s),
                None => mirrored is None,
            }
        }),
{
}

/// No coverage is lost at the edges of the tile: every position of the sharp mask is read by
/// every tap of the kernel, from a grown position inside the tile.
pub proof fn lemma_every_source_is_read(source: int, tap: int, pad: int, len: int)
    requires
        0 <= pad,
        0 <= source < len,
        0 <= tap <= 2 * pad,
    ensures
        0 <= source + 2 * pad - tap < len + 2 * pad,
        source_of(source + 2 * pad - tap, tap, pad, len) == Some(source),
{
}

/// Up to the cap the tile gains at most 36 pixels on each side, and any positive radius pads.
pub proof fn lemma_padding_bound(radius: u8)
    requires
        radius <= MAX_BLUR_RADIUS,
    ensures
        0 <= padding_of(radius) <= 36,
        radius > 0 ==> padding_of(radius) > 0,
{
}

/// The result of `f` on `(a, b, c)`, for a closure that has one.
pub open spec fn result3<A, B, C, R, F: Fn(A, B, C) -> R>(f: F, a: A, b: B, c: C) -> R {
    choose|r: R| f.ensures((a, b, c), r)
}

/// The result of `f` on `a`, for a closure that has one.
pub open spec fn result1<A, R, F: Fn(A) -> R>(f: F, a: A) -> R {
    choose|r: R| f.ensures((a,), r)
}

/// `f` may be called on any arguments and gives one result for each.
pub open spec fn pure3<A, B, C, R, F: Fn(A, B, C) -> R>(f: F) -> bool {
    &&& forall|a: A, b: B, c: C| #[trigger] f.requires((a, b, c))
    &&& forall|a: A, b: B, c: C, r1: R, r2: R|
        #![trigger f.ensures((a, b, c), r1), f.ensures((a, b, c), r2)]
        f.ensures((a, b, c), r1) && f.ensures((a, b, c), r2) ==> r1 == r2
}

/// `f` may be called on any argument and gives one result for each.
pub open spec fn pure1<A, R, F: Fn(A) -> R>(f: F) -> bool {
    &&& forall|a: A| #[trigger] f.requires((a,))
    &&& forall|a: A, r1: R, r2: R|
        #![trigger f.ensures((a,), r1), f.ensures((a,), r2)]
        f.ensures((a,), r1) && f.ensures((a,), r2) ==> r1 == r2
}

/// The horizontal-pass sample for grown column `out_x` of mask row `y`, after the first `taps`
/// taps of the kernel: starting from `zero`, each tap that falls inside the row adds the
/// coverage byte it reads, weighted by the tap's weight.
pub open spec fn row_sample<S, M: Fn(S, u8, S) -> S>(
    add_byte: M,
    zero: S,
    mask: Seq<u8>,
    kernel: Seq<S>,
    plan: BlurPlan,
    y: int,
    out_x: int,
    taps: int,
) -> S
    decreases taps,
{
    if taps <= 0 {
        zero
    } else {
        let acc = row_sample(add_byte, zero, mask, kernel, plan, y, out_x, taps - 1);
        match source_of(out_x, taps - 1, plan.pad as int, plan.width as int) {
            Some(x) => result3(add_byte, acc, mask[y * plan.width + x], kernel[taps - 1]),
            None => acc,
        }
    }
}

/// The vertical-pass sample for grown row `out_y` of grown column `out_x`, after the first
/// `taps` taps: each tap that falls inside the mask's height adds the horizontal-pass sample of
/// the row it reads, weighted by the tap's weight.
pub open spec fn column_sample<S, M: Fn(S, u8, S) -> S, N: Fn(S, S, S) -> S>(
    add_byte: M,
    add_sample: N,
    zero: S,
    mask: Seq<u8>,
    kernel: Seq<S>,
    plan: BlurPlan,
    out_y: int,
    out_x: int,
    taps: int,
) -> S
    decreases taps,
{
    if taps <= 0 {
        zero
    } else {
        let acc = column_sample(
            add_byte,
            add_sample,
            zero,
            mask,
            kernel,
            plan,
            out_y,
            out_x,
            taps - 1,
        );
        match source_of(out_y, taps - 1, plan.pad as int, plan.height as int) {
            Some(y) => result3(
                add_sample,
                acc,
                row_sample(add_byte, zero, mask, kernel, plan, y, out_x, kernel.len() as int),
                kernel[taps - 1],
            ),
            None => acc,
        }
    }
}

/// The coverage of grown pixel (`out_x`, `out_y`): its full vertical-pass sample, rounded back
/// to a byte by `finish`.
pub open spec fn blurred_pixel<
    S,
    M: Fn(S, u8, S) -> S,
    N: Fn(S, S, S) -> S,
    R: Fn(S) -> u8,
>(
    add_byte: M,
    add_sample: N,
    finish: R,
    zero: S,
    mask: Seq<u8>,
    kernel: Seq<S>,
    plan: BlurPlan,
    out_y: int,
    out_x: int,
) -> u8 {
    result1(
        finish,
        column_sample(
            add_byte,
            add_sample,
            zero,
            mask,
            kernel,
            plan,
            out_y,
            out_x,
            kernel.len() as int,
        ),
    )
}

/// The plan for a mask of these dimensions, where it is blurred.
pub open spec fn plan_of(mask_width: i32, mask_height: i32, radius: u8) -> BlurPlan {
    let width = extent_of(mask_width);
    let height = extent_of(mask_height);
    let pad = padding_of(radius);
    BlurPlan {
        width: width as usize,
        height: height as usize,
        pad: pad as usize,
        out_width: (width + 2 * pad) as usize,
        out_height: (height + 2 * pad) as usize,
    }
}

/// The coverage byte of mask pixel (`x`, `y`) in a mask `width` pixels wide.
pub open spec fn coverage_at(mask: Seq<u8>, width: int, y: int, x: int) -> u8 {
    mask[y * width + x]
}

/// The horizontal pass is local and unmirrored: grown column `out_x` of row `y` depends only on
/// the mask bytes of row `y` at columns `out_x - 2 * pad ..= out_x`, the columns its taps fall
/// on, so two masks that agree there give the same sample.
pub proof fn lemma_row_sample_is_local<S, M: Fn(S, u8, S) -> S>(
    add_byte: M,
    zero: S,
    mask: Seq<u8>,
    other: Seq<u8>,
    kernel: Seq<S>,
    plan: BlurPlan,
    y: int,
    out_x: int,
    taps: int,
)
    requires
        taps <= 2 * plan.pad + 1,
        forall|x: int|
            0 <= x < plan.width && out_x - 2 * plan.pad <= x <= out_x ==> #[trigger] coverage_at(
                mask,
                plan.width as int,
                y,
                x,
            ) == coverage_at(other, plan.width as int, y, x),
    ensures
        row_sample(add_byte, zero, mask, kernel, plan, y, out_x, taps) == row_sample(
            add_byte,
            zero,
            other,
            kernel,
            plan,
            y,
            out_x,
            taps,
        ),
    decreases taps,
{
    if taps > 0 {
        lemma_row_sample_is_local(add_byte, zero, mask, other, kernel, plan, y, out_x, taps - 1);
        match source_of(out_x, taps - 1, plan.pad as int, plan.width as int) {
            Some(x) => {
                assert(coverage_at(mask, plan.width as int, y, x) == coverage_at(
                    other,
                    plan.width as int,
                    y,
                    x,
                ));
            },
            None => {},
        }
    }
}

/// The blur is local and unmirrored: grown pixel (`out_x`, `out_y`) depends only on the mask
/// pixels of rows `out_y - 2 * pad ..= out_y` and columns `out_x - 2 * pad ..= out_x`, so ink
/// spreads at most `2 * pad` pixels right and down from where it lies in the padded tile (that
/// is, at most `pad` pixels each way around its own position), and two masks that agree on that
/// window blur to the same pixel.
pub proof fn lemma_blurred_pixel_is_local<
    S,
    M: Fn(S, u8, S) -> S,
    N: Fn(S, S, S) -> S,
    R: Fn(S) -> u8,
>(
    add_byte: M,
    add_sample: N,
    finish: R,
    zero: S,
    mask: Seq<u8>,
    other: Seq<u8>,
    kernel: Seq<S>,
    plan: BlurPlan,
    out_y: int,
    out_x: int,
)
    requires
        kernel.len() == 2 * plan.pad + 1,
        forall|y: int, x: int|
            0 <= y < plan.height && out_y - 2 * plan.pad <= y <= out_y && 0 <= x < plan.width
                && out_x - 2 * plan.pad <= x <= out_x ==> #[trigger] coverage_at(
                mask,
                plan.width as int,
                y,
                x,
            ) == coverage_at(other, plan.width as int, y, x),
    ensures
        blurred_pixel(add_byte, add_sample, finish, zero, mask, kernel, plan, out_y, out_x)
            == blurred_pixel(add_byte, add_sample, finish, zero, other, kernel, plan, out_y, out_x),
{
    lemma_column_sample_is_local(
        add_byte,
        add_sample,
        zero,
        mask,
        other,
        kernel,
        plan,
        out_y,
        out_x,
        kernel.len() as int,
    );
}

proof fn lemma_column_sample_is_local<S, M: Fn(S, u8, S) -> S, N: Fn(S, S, S) -> S>(
    add_byte: M,
    add_sample: N,
    zero: S,
    mask: Seq<u8>,
    other: Seq<u8>,
    kernel: Seq<S>,
    plan: BlurPlan,
    out_y: int,
    out_x: int,
    taps: int,
)
    requires
        kernel.len() == 2 * plan.pad + 1,
        taps <= kernel.len(),
        forall|y: int, x: int|
            0 <= y < plan.height && out_y - 2 * plan.pad <= y <= out_y && 0 <= x < plan.width
                && out_x - 2 * plan.pad <= x <= out_x ==> #[trigger] coverage_at(
                mask,
                plan.width as int,
                y,
                x,
            ) == coverage_at(other, plan.width as int, y, x),
    ensures
        column_sample(add_byte, add_sample, zero, mask, kernel, plan, out_y, out_x, taps)
            == column_sample(add_byte, add_sample, zero, other, kernel, plan, out_y, out_x, taps),
    decreases taps,
{
    if taps > 0 {
        lemma_column_sample_is_local(
            add_byte,
            add_sample,
            zero,
            mask,
            other,
            kernel,
            plan,
            out_y,
            out_x,
            taps - 1,
        );
        match source_of(out_y, taps - 1, plan.pad as int, plan.height as int) {
            Some(y) => {
                lemma_row_sample_is_local(
                    add_byte,
                    zero,
                    mask,
                    other,
                    kernel,
                    plan,
                    y,
                    out_x,
                    kernel.len() as int,
                );
            },
            None => {},
        }
    }
}

proof fn lemma_mask_index(y: int, x: int, width: int, height: int, len: int)
    requires
        0 <= y < height,
        0 <= x < width,
        width * height <= len,
    ensures
        0 <= y * width,
        y * width + x < len,
        y * width + width <= width * height,
{
    assert(y * width + x < len && 0 <= y * width && y * width + width <= width * height)
        by (nonlinear_arith)
        requires
            0 <= y < height,
            0 <= x < width,
            width * height <= len,
    ;
}

/// Blurs an 8-bit coverage mask with the normalised separable `kernel`, returning the grown
/// tile and its size.
///
/// `mask` is `mask_size.width * mask_size.height` bytes of coverage. Where there is nothing to
/// blur (see [`blurs`]) the mask comes back as it is; otherwise the result is `padding(radius)`
/// pixels larger on every side, and each of its pixels is [`blurred_pixel`]. `add_byte(acc,
/// coverage, weight)` and `add_sample(acc, sample, weight)` accumulate a weighted sample and
/// `finish` rounds a sample to a coverage byte.
pub fn blur_mask_with<S: Copy, M: Fn(S, u8, S) -> S, N: Fn(S, S, S) -> S, R: Fn(S) -> u8>(
    mask: &[u8],
    mask_size: Size<DevicePixels>,
    radius: u8,
    kernel: &[S],
    zero: S,
    add_byte: M,
    add_sample: N,
    finish: R,
) -> (blurred: (Size<DevicePixels>, Vec<u8>))
    requires
        blurs(mask_size.width.0, mask_size.height.0, mask@.len() as usize, radius) ==> kernel@.len()
            == 2 * padding_of(radius) + 1,
        pure3(add_byte),
        pure3(add_sample),
        pure1(finish),
    ensures
        !blurs(mask_size.width.0, mask_size.height.0, mask@.len() as usize, radius) ==> {
            &&& blurred.0 == mask_size
            &&& blurred.1@ == mask@
        },
        blurs(mask_size.width.0, mask_size.height.0, mask@.len() as usize, radius) ==> {
            let plan = plan_of(mask_size.width.0, mask_size.height.0, radius);
            &&& blurred.0.width == DevicePixels(plan.out_width as i32)
            &&& blurred.0.height == DevicePixels(plan.out_height as i32)
            &&& blurred.1@.len() == plan.out_width * plan.out_height
            &&& forall|i: int|
                0 <= i < blurred.1@.len() ==> #[trigger] blurred.1@[i] == blurred_pixel(
                    add_byte,
                    add_sample,
                    finish,
                    zero,
                    mask@,
                    kernel@,
                    plan,
                    i / plan.out_width as int,
                    i % plan.out_width as int,
                )
        },
{
    let plan = match plan_blur(mask_size.width.0, mask_size.height.0, mask.len(), radius) {
        Some(plan) => plan,
        None => {
            return (mask_size, vstd::slice::slice_to_vec(mask));
        },
    };
    let ghost g = plan_of(mask_size.width.0, mask_size.height.0, radius);
    assert(plan == g);
    let width = plan.width;
    let height = plan.height;
    let pad = plan.pad;
    let out_width = plan.out_width;
    let out_height = plan.out_height;
    let taps = kernel.len();
    let ghost k = taps as int;

    // Horizontal pass, one grown row per mask row.
    let mut horizontal: Vec<Vec<S>> = Vec::new();
    let mut y: usize = 0;
    let mut row_start: usize = 0;
    while y < height
        invariant
            plan == g,
            width == plan.width,
            height == plan.height,
            pad == plan.pad,
            out_width == plan.out_width,
            taps == kernel@.len(),
            taps == 2 * pad + 1,
            k == taps,
            0 < width <= 0x7fff_ffff,
            0 < height <= 0x7fff_ffff,
            pad <= 383,
            out_width == width + 2 * pad,
            width * height <= mask@.len(),
            mask@.len() <= usize::MAX,
            y <= height,
            row_start == y * width,
            pure3(add_byte),
            horizontal@.len() == y,
            forall|yy: int| 0 <= yy < y ==> (#[trigger] horizontal@[yy])@.len() == out_width,
            forall|yy: int, xx: int|
                0 <= yy < y && 0 <= xx < out_width ==> #[trigger] horizontal@[yy]@[xx]
                    == row_sample(add_byte, zero, mask@, kernel@, plan, yy, xx, k),
        decreases height - y,
    {
        let mut row: Vec<S> = Vec::new();
        let mut out_x: usize = 0;
        while out_x < out_width
            invariant
                plan == g,
                width == plan.width,
                height == plan.height,
                pad == plan.pad,
                out_width == plan.out_width,
                taps == kernel@.len(),
                taps == 2 * pad + 1,
            k == taps,
            0 < width <= 0x7fff_ffff,
            0 < height <= 0x7fff_ffff,
                pad <= 383,
                out_width == width + 2 * pad,
                width * height <= mask@.len(),
                mask@.len() <= usize::MAX,
            mask@.len() <= usize::MAX,
                y < height,
                row_start == y * width,
                pure3(add_byte),
                out_x <= out_width,
                row@.len() == out_x,
                forall|xx: int|
                    0 <= xx < out_x ==> #[trigger] row@[xx] == row_sample(
                        add_byte,
                        zero,
                        mask@,
                        kernel@,
                        plan,
                        y as int,
                        xx,
                        k,
                    ),
            decreases out_width - out_x,
        {
            let mut sum = zero;
            let mut tap: usize = 0;
            while tap < taps
                invariant
                    plan == g,
                    width == plan.width,
                    height == plan.height,
                    pad == plan.pad,
                    out_width == plan.out_width,
                    taps == kernel@.len(),
                    taps == 2 * pad + 1,
            k == taps,
            0 < width <= 0x7fff_ffff,
            0 < height <= 0x7fff_ffff,
                    pad <= 383,
                    out_width == width + 2 * pad,
                    width * height <= mask@.len(),
                    mask@.len() <= usize::MAX,
                mask@.len() <= usize::MAX,
            mask@.len() <= usize::MAX,
                    y < height,
                    row_start == y * width,
                    pure3(add_byte),
                    out_x < out_width,
                    tap <= taps,
                    sum == row_sample(
                        add_byte,
                        zero,
                        mask@,
                        kernel@,
                        plan,
                        y as int,
                        out_x as int,
                        tap as int,
                    ),
                decreases taps - tap,
            {
                match blur_source(out_x, tap, pad, width) {
                    Some(x) => {
                        proof {
                            lemma_mask_index(
                                y as int,
                                x as int,
                                width as int,
                                height as int,
                                mask@.len() as int,
                            );
                        }
                        let next = add_byte(sum, mask[row_start + x], kernel[tap]);
                        sum = next;
                    },
                    None => {},
                }
                tap = tap + 1;
            }
            row.push(sum);
            out_x = out_x + 1;
        }
        horizontal.push(row);
        proof {
            lemma_mask_index(y as int, 0, width as int, height as int, mask@.len() as int);
            assert((y + 1) * width == y * width + width) by (nonlinear_arith);
        }
        row_start = row_start + width;
        y = y + 1;
    }

    // Vertical pass over the horizontal samples, row by row of the grown tile.
    let mut out: Vec<u8> = Vec::new();
    let mut out_y: usize = 0;
    while out_y < out_height
        invariant
            plan == g,
            width == plan.width,
            height == plan.height,
            pad == plan.pad,
            out_width == plan.out_width,
            out_height == plan.out_height,
            taps == kernel@.len(),
            taps == 2 * pad + 1,
            k == taps,
            0 < width <= 0x7fff_ffff,
            0 < height <= 0x7fff_ffff,
            pad <= 383,
            out_width == width + 2 * pad,
            out_height == height + 2 * pad,
            width > 0,
            pure3(add_byte),
            pure3(add_sample),
            pure1(finish),
            horizontal@.len() == height,
            forall|yy: int| 0 <= yy < height ==> (#[trigger] horizontal@[yy])@.len() == out_width,
            forall|yy: int, xx: int|
                0 <= yy < height && 0 <= xx < out_width ==> #[trigger] horizontal@[yy]@[xx]
                    == row_sample(add_byte, zero, mask@, kernel@, plan, yy, xx, k),
            out_y <= out_height,
            out@.len() == out_y * out_width,
            forall|i: int|
                0 <= i < out@.len() ==> #[trigger] out@[i] == blurred_pixel(
                    add_byte,
                    add_sample,
                    finish,
                    zero,
                    mask@,
                    kernel@,
                    plan,
                    i / out_width as int,
                    i % out_width as int,
                ),
        decreases out_height - out_y,
    {
        let mut out_x: usize = 0;
        while out_x < out_width
            invariant
                plan == g,
                width == plan.width,
                height == plan.height,
                pad == plan.pad,
                out_width == plan.out_width,
                out_height == plan.out_height,
                taps == kernel@.len(),
                taps == 2 * pad + 1,
            k == taps,
            0 < width <= 0x7fff_ffff,
            0 < height <= 0x7fff_ffff,
                pad <= 383,
                out_width == width + 2 * pad,
                out_height == height + 2 * pad,
                width > 0,
                pure3(add_byte),
                pure3(add_sample),
                pure1(finish),
                horizontal@.len() == height,
                forall|yy: int| 0 <= yy < height ==> (#[trigger] horizontal@[yy])@.len() == out_width,
                forall|yy: int, xx: int|
                    0 <= yy < height && 0 <= xx < out_width ==> #[trigger] horizontal@[yy]@[xx]
                        == row_sample(add_byte, zero, mask@, kernel@, plan, yy, xx, k),
                out_y < out_height,
                out_x <= out_width,
                out@.len() == out_y * out_width + out_x,
                forall|i: int|
                    0 <= i < out@.len() ==> #[trigger] out@[i] == blurred_pixel(
                        add_byte,
                        add_sample,
                        finish,
                        zero,
                        mask@,
                        kernel@,
                        plan,
                        i / out_width as int,
                        i % out_width as int,
                    ),
            decreases out_width - out_x,
        {
            let mut sum = zero;
            let mut tap: usize = 0;
            while tap < taps
                invariant
                    plan == g,
                    width == plan.width,
                    height == plan.height,
                    pad == plan.pad,
                    out_width == plan.out_width,
                    out_height == plan.out_height,
                    taps == kernel@.len(),
                    taps == 2 * pad + 1,
            k == taps,
            0 < width <= 0x7fff_ffff,
            0 < height <= 0x7fff_ffff,
                    pad <= 383,
                    out_height == height + 2 * pad,
                    pure3(add_sample),
                    horizontal@.len() == height,
                    forall|yy: int| 0 <= yy < height ==> (#[trigger] horizontal@[yy])@.len() == out_width,
                    forall|yy: int, xx: int|
                        0 <= yy < height && 0 <= xx < out_width ==> #[trigger] horizontal@[yy]@[xx]
                            == row_sample(add_byte, zero, mask@, kernel@, plan, yy, xx, k),
                    out_y < out_height,
                    out_x < out_width,
                    tap <= taps,
                    sum == column_sample(
                        add_byte,
                        add_sample,
                        zero,
                        mask@,
                        kernel@,
                        plan,
                        out_y as int,
                        out_x as int,
                        tap as int,
                    ),
                decreases taps - tap,
            {
                match blur_source(out_y, tap, pad, height) {
                    Some(source_y) => {
                        let sample = horizontal[source_y][out_x];
                        let next = add_sample(sum, sample, kernel[tap]);
                        sum = next;
                    },
                    None => {},
                }
                tap = tap + 1;
            }
            let pixel = finish(sum);
            proof {
                let n = out@.len() as int;
                vstd::arithmetic::div_mod::lemma_fundamental_div_mod_converse(
                    n,
                    out_width as int,
                    out_y as int,
                    out_x as int,
                );
            }
            out.push(pixel);
            out_x = out_x + 1;
        }
        proof {
            assert((out_y + 1) * out_width == out_y * out_width + out_width) by (nonlinear_arith);
        }
        out_y = out_y + 1;
    }
    proof {
        assert(out_height * out_width == out_width * out_height) by (nonlinear_arith);
    }
    (
        Size {
            width: DevicePixels(#[verifier::truncate] (out_width as i32)),
            height: DevicePixels(#[verifier::truncate] (out_height as i32)),
        },
        out,
    )
}

} // verus!
