//! Scaling an image down until it fits a budget of visual tokens.
//!
//! An image is scaled along its longer side. The shorter side follows in proportion, rounded
//! down to whole pixels, and never falls below one pixel.

use super::budget::{
    ceil_div, estimate_image_tokens_wide, image_tokens, law_image_tokens_monotone, PX_PER_TOKEN,
    TARGET_IMAGE_TOKENS,
};
use vstd::arithmetic::div_mod::*;
use vstd::prelude::*;

verus! {

/// The shorter side of an image of `long` by `short` pixels when its longer side is scaled to
/// `side`: in proportion, rounded down, but at least 1.
pub open spec fn other_side(side: int, long: int, short: int) -> int {
    if side * short / long < 1 {
        1
    } else {
        side * short / long
    }
}

/// Whether an image of `long` by `short` pixels fits when its longer side is scaled to `side`.
pub open spec fn fits_at(side: int, long: int, short: int, max_tokens: int) -> bool {
    image_tokens(side, other_side(side, long, short)) <= max_tokens
}

/// Whether `side` is the longest to which the longer side can be scaled down for the image to
/// fit; a single pixel where nothing fits.
pub open spec fn is_longest_side(side: int, long: int, short: int, max_tokens: int) -> bool {
    &&& 1 <= side <= long
    &&& side == 1 || fits_at(side, long, short, max_tokens)
    &&& forall|longer: int|
        side < longer <= long ==> !#[trigger] fits_at(longer, long, short, max_tokens)
}

/// The longest such side.
pub open spec fn longest_side(long: int, short: int, max_tokens: int) -> int {
    choose|side: int| is_longest_side(side, long, short, max_tokens)
}

/// The dimensions at which an image of `w` x `h` pixels is sent under a budget.
pub open spec fn fitted(w: int, h: int, max_tokens: int) -> (int, int) {
    if w == 0 || h == 0 || image_tokens(w, h) <= max_tokens {
        (w, h)
    } else if w >= h {
        let side = longest_side(w, h, max_tokens);
        (side, other_side(side, w, h))
    } else {
        let side = longest_side(h, w, max_tokens);
        (other_side(side, h, w), side)
    }
}

/// The shorter side stays within the image and within the longer side, and follows the longer
/// one but for less than a pixel.
proof fn lemma_other_side(side: int, long: int, short: int)
    requires
        1 <= side <= long,
        1 <= short <= long,
    ensures
        1 <= other_side(side, long, short) <= side,
        other_side(side, long, short) <= short,
        -long < long * other_side(side, long, short) - side * short < long,
        other_side(side, long, short) == 1 || long * other_side(side, long, short) <= side * short,
{
    let (product, q) = (side * short, side * short / long);
    lemma_fundamental_div_mod(product, long);
    lemma_mod_bound(product, long);
    assert(1 <= product <= side * long && product <= long * short) by (nonlinear_arith)
        requires
            product == side * short,
            1 <= side <= long,
            1 <= short <= long,
    ;
    assert(side * long == long * side) by (nonlinear_arith);
    assert(q <= side && q <= short && q >= 0) by (nonlinear_arith)
        requires
            long * q <= long * side,
            long * q <= long * short,
            long * q > -long,
            long >= 1,
    ;
    assert(q < 1 ==> q == 0);
    assert(long * 1 == long && long * 0 == 0) by (nonlinear_arith);
}

/// The shorter side grows with the longer one, by at most a pixel for a pixel.
proof fn lemma_other_side_monotone(side: int, longer: int, long: int, short: int)
    requires
        1 <= side <= longer,
        1 <= short <= long,
    ensures
        other_side(side, long, short) <= other_side(longer, long, short),
        longer == side + 1 ==> other_side(longer, long, short) <= other_side(side, long, short) + 1,
{
    let (p1, p2) = (side * short, longer * short);
    assert(0 <= p1 <= p2 && (longer == side + 1 ==> p2 <= p1 + long)) by (nonlinear_arith)
        requires
            p1 == side * short,
            p2 == longer * short,
            1 <= side <= longer,
            1 <= short <= long,
    ;
    lemma_div_is_ordered(p1, p2, long);
    if longer == side + 1 {
        lemma_div_is_ordered(p2, p1 + long, long);
        lemma_div_plus_one(p1, long);
    }
}

/// What fits at a length fits at every shorter one.
proof fn lemma_fits_at_monotone(side: int, longer: int, long: int, short: int, max_tokens: int)
    requires
        1 <= side <= longer <= long,
        1 <= short <= long,
        fits_at(longer, long, short, max_tokens),
    ensures
        fits_at(side, long, short, max_tokens),
{
    lemma_other_side(side, long, short);
    lemma_other_side_monotone(side, longer, long, short);
    law_image_tokens_monotone(
        side,
        other_side(side, long, short),
        longer,
        other_side(longer, long, short),
    );
}

/// Only one side is the longest.
proof fn lemma_longest_side_unique(side: int, long: int, short: int, max_tokens: int)
    requires
        is_longest_side(side, long, short, max_tokens),
    ensures
        longest_side(long, short, max_tokens) == side,
{
    let other = longest_side(long, short, max_tokens);
    assert(is_longest_side(other, long, short, max_tokens));
    if other < side {
        assert(!fits_at(side, long, short, max_tokens));
    } else if side < other {
        assert(!fits_at(other, long, short, max_tokens));
    }
}

/// There is a longest side: one is found on the way down from a side beyond which nothing fits.
proof fn lemma_longest_side_below(side: int, long: int, short: int, max_tokens: int)
    requires
        1 <= side <= long,
        forall|longer: int|
            side < longer <= long ==> !#[trigger] fits_at(longer, long, short, max_tokens),
    ensures
        is_longest_side(longest_side(long, short, max_tokens), long, short, max_tokens),
    decreases side,
{
    if side == 1 || fits_at(side, long, short, max_tokens) {
        assert(is_longest_side(side, long, short, max_tokens));
    } else {
        lemma_longest_side_below(side - 1, long, short, max_tokens);
    }
}

/// The longest side is what it is said to be.
proof fn lemma_longest_side(long: int, short: int, max_tokens: int)
    requires
        1 <= long,
    ensures
        is_longest_side(longest_side(long, short, max_tokens), long, short, max_tokens),
{
    lemma_longest_side_below(long, long, short, max_tokens);
}

/// A single pixel costs one token.
proof fn lemma_single_pixel()
    ensures
        image_tokens(1, 1) == 1,
{
    let block = ceil_div(1, PX_PER_TOKEN as int);
    assert(block * block == 1) by (nonlinear_arith)
        requires
            block == 1,
    ;
}

/// An image without pixels costs nothing.
proof fn lemma_no_pixels(w: int, h: int)
    requires
        w == 0 || h == 0,
    ensures
        image_tokens(w, h) == 0,
{
    assert(0 * ceil_div(h, PX_PER_TOKEN as int) == 0 && ceil_div(w, PX_PER_TOKEN as int) * 0 == 0)
        by (nonlinear_arith);
}

/// The shorter side when the longer one is scaled to `side`.
fn other_side_exec(side: u32, long: u32, short: u32) -> (r: u32)
    requires
        1 <= side <= long,
        1 <= short <= long,
    ensures
        r == other_side(side as int, long as int, short as int),
{
    proof {
        lemma_other_side(side as int, long as int, short as int);
    }
    assert(side * short <= 0xffff_ffff * 0xffff_ffff) by (nonlinear_arith)
        requires
            0 <= side <= 0xffff_ffff,
            0 <= short <= 0xffff_ffff,
    ;
    let q: u64 = side as u64 * short as u64 / long as u64;
    if q < 1 {
        1
    } else {
        q as u32
    }
}

/// The longest side at which an image that does not fit as it is does fit, by bisection.
fn longest_side_exec(long: u32, short: u32, max_tokens: u32) -> (r: u32)
    requires
        1 <= short <= long,
        image_tokens(long as int, short as int) > max_tokens,
    ensures
        r == longest_side(long as int, short as int, max_tokens as int),
        is_longest_side(r as int, long as int, short as int, max_tokens as int),
{
    let ghost (l, s, max) = (long as int, short as int, max_tokens as int);
    let mut low: u32 = 1;
    let mut high: u32 = long;
    assert(!fits_at(l, l, s, max)) by {
        lemma_div_multiples_vanish(s, l);
    }
    if long > 1 {
        while high - low > 1
            invariant
                1 <= low < high <= long,
                1 <= short <= long,
                (l, s, max) == (long as int, short as int, max_tokens as int),
                low == 1 || fits_at(low as int, l, s, max),
                !fits_at(high as int, l, s, max),
            decreases high - low,
        {
            let mid: u32 = low + (high - low) / 2;
            let other: u32 = other_side_exec(mid, long, short);
            if estimate_image_tokens_wide(mid, other) <= max_tokens as u64 {
                low = mid;
            } else {
                high = mid;
            }
        }
        assert forall|longer: int| low < longer <= l implies !#[trigger] fits_at(
            longer,
            l,
            s,
            max,
        ) by {
            if fits_at(longer, l, s, max) {
                lemma_fits_at_monotone(high as int, longer, l, s, max);
            }
        }
    }
    proof {
        assert(is_longest_side(low as int, l, s, max));
        lemma_longest_side_unique(low as int, l, s, max);
    }
    low
}

/// Largest dimensions with the same aspect ratio whose estimated token count is at most
/// `max_tokens`. Returns the input unchanged if it already fits.
///
/// Dimensions are whole pixels, so the shorter side is rounded down, to no less than one pixel.
/// A budget of no tokens leaves a single pixel.
pub fn fit_dimensions(w: u32, h: u32, max_tokens: u32) -> (r: (u32, u32))
    ensures
        (r.0 as int, r.1 as int) == fitted(w as int, h as int, max_tokens as int),
        image_tokens(w as int, h as int) <= max_tokens ==> r == (w, h),
        max_tokens >= 1 ==> image_tokens(r.0 as int, r.1 as int) <= max_tokens,
        forall|a: int, b: int|
            1 <= w && 1 <= h && image_tokens(w as int, h as int) > max_tokens && a * h == b * w
                && a > r.0 && b > r.1 ==> #[trigger] image_tokens(a, b) > max_tokens,
        r.0 <= w,
        r.1 <= h,
{
    proof {
        if max_tokens >= 1 {
            law_fit_within_budget(w as int, h as int, max_tokens as int);
        }
        law_fit_never_enlarges(w as int, h as int, max_tokens as int);
        law_image_tokens_symmetric(w as int, h as int);
        let (wi, hi, max) = (w as int, h as int, max_tokens as int);
        assert forall|a: int, b: int|
            1 <= w && 1 <= h && image_tokens(wi, hi) > max && a * h == b * w && a > fitted(
                wi,
                hi,
                max,
            ).0 && b > fitted(wi, hi, max).1 implies #[trigger] image_tokens(a, b) > max by {
            law_fit_is_largest(wi, hi, max, a, b);
        }
    }
    if w == 0 || h == 0 || estimate_image_tokens_wide(w, h) <= max_tokens as u64 {
        (w, h)
    } else if w >= h {
        let side: u32 = longest_side_exec(w, h, max_tokens);
        (side, other_side_exec(side, w, h))
    } else {
        let side: u32 = longest_side_exec(h, w, max_tokens);
        (other_side_exec(side, h, w), side)
    }
}

/// Law: an image and its transpose cost the same.
pub proof fn law_image_tokens_symmetric(w: int, h: int)
    ensures
        image_tokens(w, h) == image_tokens(h, w),
{
    let (a, b) = (ceil_div(w, PX_PER_TOKEN as int), ceil_div(h, PX_PER_TOKEN as int));
    assert(a * b == b * a) by (nonlinear_arith);
}

/// Law: neither side of an image is longer than its tokens in one row.
pub proof fn law_tokens_bound_sides(w: int, h: int)
    requires
        1 <= w,
        1 <= h,
    ensures
        w <= PX_PER_TOKEN * image_tokens(w, h),
        h <= PX_PER_TOKEN * image_tokens(w, h),
{
    let (a, b) = (ceil_div(w, PX_PER_TOKEN as int), ceil_div(h, PX_PER_TOKEN as int));
    assert(a <= a * b && b <= a * b) by (nonlinear_arith)
        requires
            1 <= a,
            1 <= b,
    ;
}

/// Law: an image that fits the budget keeps its dimensions.
pub proof fn law_fit_keeps_what_fits(w: int, h: int, max_tokens: int)
    requires
        image_tokens(w, h) <= max_tokens,
    ensures
        fitted(w, h, max_tokens) == (w, h),
{
}

/// Law: fitting an image and transposing it come to the same in either order.
pub proof fn law_fit_symmetric(w: int, h: int, max_tokens: int)
    requires
        0 <= w,
        0 <= h,
    ensures
        fitted(h, w, max_tokens) == (fitted(w, h, max_tokens).1, fitted(w, h, max_tokens).0),
{
    law_image_tokens_symmetric(w, h);
    if w == h && w > 0 {
        let side = longest_side(w, w, max_tokens);
        lemma_longest_side(w, w, max_tokens);
        lemma_div_multiples_vanish(side, w);
        assert(side * w == w * side) by (nonlinear_arith);
    }
}

/// What fitting comes to for an image that is no taller than wide.
proof fn lemma_landscape(w: int, h: int, max_tokens: int)
    requires
        1 <= h <= w,
        image_tokens(w, h) > max_tokens,
    ensures
        is_longest_side(fitted(w, h, max_tokens).0, w, h, max_tokens),
        fitted(w, h, max_tokens).1 == other_side(fitted(w, h, max_tokens).0, w, h),
        1 <= fitted(w, h, max_tokens).1 <= fitted(w, h, max_tokens).0 <= w,
        fitted(w, h, max_tokens).1 <= h,
        max_tokens >= 1 ==> image_tokens(
            fitted(w, h, max_tokens).0,
            fitted(w, h, max_tokens).1,
        ) <= max_tokens,
{
    let side = longest_side(w, h, max_tokens);
    lemma_longest_side(w, h, max_tokens);
    lemma_other_side(side, w, h);
    lemma_single_pixel();
}

/// Law: the fitted dimensions are within any budget of at least one token.
pub proof fn law_fit_within_budget(w: int, h: int, max_tokens: int)
    requires
        0 <= w,
        0 <= h,
        1 <= max_tokens,
    ensures
        image_tokens(fitted(w, h, max_tokens).0, fitted(w, h, max_tokens).1) <= max_tokens,
{
    if w == 0 || h == 0 {
        lemma_no_pixels(w, h);
    } else if image_tokens(w, h) > max_tokens {
        law_image_tokens_symmetric(w, h);
        law_fit_symmetric(w, h, max_tokens);
        law_image_tokens_symmetric(fitted(w, h, max_tokens).0, fitted(w, h, max_tokens).1);
        if w >= h {
            lemma_landscape(w, h, max_tokens);
        } else {
            lemma_landscape(h, w, max_tokens);
        }
    }
}

/// Law: the fitted dimensions are the largest. No dimensions of the same aspect ratio that
/// exceed them both ways are within the budget.
pub proof fn law_fit_is_largest(w: int, h: int, max_tokens: int, a: int, b: int)
    requires
        1 <= w,
        1 <= h,
        image_tokens(w, h) > max_tokens,
        a * h == b * w,
        a > fitted(w, h, max_tokens).0,
        b > fitted(w, h, max_tokens).1,
    ensures
        image_tokens(a, b) > max_tokens,
{
    law_image_tokens_symmetric(w, h);
    law_image_tokens_symmetric(a, b);
    law_fit_symmetric(w, h, max_tokens);
    if w >= h {
        lemma_landscape(w, h, max_tokens);
        lemma_beyond_longest(w, h, max_tokens, a, b);
    } else {
        lemma_landscape(h, w, max_tokens);
        lemma_beyond_longest(h, w, max_tokens, b, a);
    }
}

/// Dimensions of the exact ratio beyond the longest side do not fit.
proof fn lemma_beyond_longest(long: int, short: int, max_tokens: int, a: int, b: int)
    requires
        1 <= short <= long,
        image_tokens(long, short) > max_tokens,
        a * short == b * long,
        a > longest_side(long, short, max_tokens),
        1 <= b,
    ensures
        image_tokens(a, b) > max_tokens,
{
    let side = longest_side(long, short, max_tokens);
    lemma_longest_side(long, short, max_tokens);
    if a <= long {
        lemma_div_multiples_vanish(b, long);
        assert(long * b == a * short) by (nonlinear_arith)
            requires
                a * short == b * long,
        ;
        assert(other_side(a, long, short) == b);
        assert(!fits_at(a, long, short, max_tokens));
    } else {
        assert(b >= short) by (nonlinear_arith)
            requires
                a * short == b * long,
                a > long,
                long >= 1,
                short >= 1,
        ;
        law_image_tokens_monotone(long, short, a, b);
    }
}

/// Law: an image with pixels keeps at least one pixel each way.
pub proof fn law_fit_keeps_pixels(w: int, h: int, max_tokens: int)
    requires
        1 <= w,
        1 <= h,
    ensures
        1 <= fitted(w, h, max_tokens).0,
        1 <= fitted(w, h, max_tokens).1,
{
    if image_tokens(w, h) > max_tokens {
        law_image_tokens_symmetric(w, h);
        law_fit_symmetric(w, h, max_tokens);
        if w >= h {
            lemma_landscape(w, h, max_tokens);
        } else {
            lemma_landscape(h, w, max_tokens);
        }
    }
}

/// Law: a landscape image stays landscape, and so, by [`law_fit_symmetric`], a portrait one
/// portrait and a square one square.
pub proof fn law_fit_keeps_orientation(w: int, h: int, max_tokens: int)
    requires
        0 <= h <= w,
    ensures
        fitted(w, h, max_tokens).0 >= fitted(w, h, max_tokens).1,
{
    if h > 0 && image_tokens(w, h) > max_tokens {
        lemma_landscape(w, h, max_tokens);
    }
}

/// Law: an image is never enlarged, nor does a side become negative.
pub proof fn law_fit_never_enlarges(w: int, h: int, max_tokens: int)
    requires
        0 <= w,
        0 <= h,
    ensures
        0 <= fitted(w, h, max_tokens).0 <= w,
        0 <= fitted(w, h, max_tokens).1 <= h,
{
    if w > 0 && h > 0 && image_tokens(w, h) > max_tokens {
        law_image_tokens_symmetric(w, h);
        law_fit_symmetric(w, h, max_tokens);
        if w >= h {
            lemma_landscape(w, h, max_tokens);
        } else {
            lemma_landscape(h, w, max_tokens);
        }
    }
}

/// Law: fitting again changes nothing.
pub proof fn law_fit_idempotent(w: int, h: int, max_tokens: int)
    requires
        0 <= w,
        0 <= h,
        0 <= max_tokens,
    ensures
        ({
            let r = fitted(w, h, max_tokens);
            fitted(r.0, r.1, max_tokens) == r
        }),
{
    let r = fitted(w, h, max_tokens);
    if max_tokens >= 1 {
        law_fit_within_budget(w, h, max_tokens);
    } else if w > 0 && h > 0 && image_tokens(w, h) > max_tokens {
        let (long, short) = if w >= h {
            (w, h)
        } else {
            (h, w)
        };
        law_image_tokens_symmetric(w, h);
        law_fit_symmetric(w, h, 0);
        lemma_landscape(long, short, 0);
        let side = longest_side(long, short, 0);
        lemma_single_pixel();
        law_image_tokens_monotone(1, 1, side, other_side(side, long, short));
        assert(r == (1int, 1int));
        lemma_landscape(1, 1, 0);
    }
}

/// Law: the fitted dimensions have the aspect ratio of the image, but for less than one pixel
/// of the shorter side.
pub proof fn law_fit_keeps_aspect_ratio(w: int, h: int, max_tokens: int)
    requires
        1 <= w,
        1 <= h,
    ensures
        ({
            let r = fitted(w, h, max_tokens);
            let long = if w >= h {
                w
            } else {
                h
            };
            -long < w * r.1 - h * r.0 < long
        }),
{
    let r = fitted(w, h, max_tokens);
    assert(w * h == h * w && h * r.0 == r.0 * h && w * r.1 == r.1 * w) by (nonlinear_arith);
    if image_tokens(w, h) > max_tokens {
        law_image_tokens_symmetric(w, h);
        law_fit_symmetric(w, h, max_tokens);
        if w >= h {
            lemma_landscape(w, h, max_tokens);
            lemma_other_side(r.0, w, h);
        } else {
            lemma_landscape(h, w, max_tokens);
            lemma_other_side(r.1, h, w);
        }
    }
}

/// Whether an image is at most four times as long as it is wide, either way, and is fitted to
/// at least the target budget.
pub open spec fn is_photo_call(w: int, h: int, max_tokens: int) -> bool {
    &&& 1 <= w
    &&& 1 <= h
    &&& w <= 4 * h
    &&& h <= 4 * w
    &&& TARGET_IMAGE_TOKENS <= max_tokens
}

/// A photo that does not fit keeps 700 pixels of its longer side and a fourth of that of the
/// shorter one.
proof fn lemma_photo_sides(w: int, h: int, max_tokens: int)
    requires
        is_photo_call(w, h, max_tokens),
        h <= w,
        image_tokens(w, h) > max_tokens,
    ensures
        fitted(w, h, max_tokens).0 >= 700,
        fitted(w, h, max_tokens).1 >= 175,
        fitted(w, h, max_tokens).0 < 4 * fitted(w, h, max_tokens).1 + 4,
{
    let r = fitted(w, h, max_tokens);
    lemma_landscape(w, h, max_tokens);
    assert(ceil_div(700, PX_PER_TOKEN as int) == 25);
    assert(25 * 25 == 625) by (nonlinear_arith);
    if w < 700 {
        law_image_tokens_monotone(w, h, 700, 700);
        assert(image_tokens(700, 700) == 625);
    }
    if r.0 < 700 {
        let other = other_side(700, w, h);
        lemma_other_side(700, w, h);
        law_image_tokens_monotone(700, other, 700, 700);
        assert(image_tokens(700, 700) == 625);
        assert(fits_at(700, w, h, max_tokens));
    }
    lemma_other_side(r.0, w, h);
    assert(r.0 < 4 * (r.1 + 1)) by (nonlinear_arith)
        requires
            w * r.1 - r.0 * h > -w,
            w <= 4 * h,
            w >= 1,
            h >= 1,
            r.0 >= 0,
    ;
}

/// Law: a photo that is fitted to at least the target budget keeps its aspect ratio within less
/// than one percent.
pub proof fn law_photo_keeps_aspect_ratio(w: int, h: int, max_tokens: int)
    requires
        is_photo_call(w, h, max_tokens),
    ensures
        ({
            let r = fitted(w, h, max_tokens);
            &&& 100 * (w * r.1 - h * r.0) < w * r.1
            &&& 100 * (h * r.0 - w * r.1) < w * r.1
        }),
{
    let r = fitted(w, h, max_tokens);
    assert(w * h == h * w && w * h >= 1) by (nonlinear_arith)
        requires
            w >= 1,
            h >= 1,
    ;
    if image_tokens(w, h) > max_tokens {
        law_fit_keeps_aspect_ratio(w, h, max_tokens);
        law_image_tokens_symmetric(w, h);
        law_fit_symmetric(w, h, max_tokens);
        if w >= h {
            lemma_photo_sides(w, h, max_tokens);
        } else {
            lemma_photo_sides(h, w, max_tokens);
        }
        assert(w * r.1 >= 175 * w && h * r.0 >= 175 * h) by (nonlinear_arith)
            requires
                r.0 >= 175,
                r.1 >= 175,
                w >= 1,
                h >= 1,
        ;
    }
}

/// Law: a photo that is scaled down to fit at least the target budget uses at least nine tenths
/// of it.
pub proof fn law_photo_uses_budget(w: int, h: int, max_tokens: int)
    requires
        is_photo_call(w, h, max_tokens),
        image_tokens(w, h) > max_tokens,
    ensures
        10 * image_tokens(fitted(w, h, max_tokens).0, fitted(w, h, max_tokens).1) >= 9
            * max_tokens,
{
    law_image_tokens_symmetric(w, h);
    law_fit_symmetric(w, h, max_tokens);
    law_image_tokens_symmetric(fitted(w, h, max_tokens).0, fitted(w, h, max_tokens).1);
    if w >= h {
        lemma_landscape_uses_budget(w, h, max_tokens);
    } else {
        lemma_landscape_uses_budget(h, w, max_tokens);
    }
}

/// A landscape photo uses at least nine tenths of the budget: with one more block each way it
/// would be beyond it.
proof fn lemma_landscape_uses_budget(w: int, h: int, max_tokens: int)
    requires
        is_photo_call(w, h, max_tokens),
        h <= w,
        image_tokens(w, h) > max_tokens,
    ensures
        10 * image_tokens(fitted(w, h, max_tokens).0, fitted(w, h, max_tokens).1) >= 9
            * max_tokens,
{
    let r = fitted(w, h, max_tokens);
    let next = r.0 + 1;
    lemma_landscape(w, h, max_tokens);
    lemma_photo_sides(w, h, max_tokens);
    assert(r.0 < w) by {
        if r.0 == w {
            lemma_div_multiples_vanish(h, w);
        }
    }
    lemma_other_side(next, w, h);
    lemma_other_side_monotone(r.0, next, w, h);
    assert(!fits_at(next, w, h, max_tokens));
    law_image_tokens_monotone(next, other_side(next, w, h), next, r.1 + 1);
    let (a, b) = (ceil_div(r.0, PX_PER_TOKEN as int), ceil_div(r.1, PX_PER_TOKEN as int));
    let (a1, b1) = (ceil_div(next, PX_PER_TOKEN as int), ceil_div(r.1 + 1, PX_PER_TOKEN as int));
    let used = a * b;
    assert(a1 * b1 <= used + a + b + 1) by (nonlinear_arith)
        requires
            0 <= a1 <= a + 1,
            0 <= b1 <= b + 1,
            used == a * b,
    ;
    assert(a <= 4 * b + 1);
    assert(b <= a);
    // a and b are about at most 2 and 1 times the root of the budget
    if 1000 * a > 66 * max_tokens {
        assert(a * a <= 4 * used + a) by (nonlinear_arith)
            requires
                used == a * b,
                0 <= a <= 4 * b + 1,
        ;
        assert(a * a >= 67 * a) by (nonlinear_arith)
            requires
                a >= 67,
        ;
    }
    if 1000 * b > 34 * max_tokens {
        assert(b * b <= used) by (nonlinear_arith)
            requires
                used == a * b,
                0 <= b <= a,
        ;
        assert(b * b >= 35 * b) by (nonlinear_arith)
            requires
                b >= 35,
        ;
    }
}

/// Law: the fitted height of a landscape image is in proportion to its fitted width, rounded
/// down to whole pixels, unless that leaves less than one pixel.
pub proof fn law_fit_rounds_down(w: int, h: int, max_tokens: int)
    requires
        1 <= h <= w,
        image_tokens(w, h) > max_tokens,
    ensures
        ({
            let r = fitted(w, h, max_tokens);
            &&& 1 <= r.0 <= w
            &&& 1 <= r.1 <= h
            &&& r.0 * h < (r.1 + 1) * w
            &&& r.1 * w <= r.0 * h || r.1 == 1
        }),
{
    let r = fitted(w, h, max_tokens);
    lemma_landscape(w, h, max_tokens);
    lemma_other_side(r.0, w, h);
    assert(w * r.1 == r.1 * w && (r.1 + 1) * w == r.1 * w + w) by (nonlinear_arith);
}

/// Law: no wider landscape image of the same proportions fits. If `b` is the height that goes
/// with a width `a`, in proportion and rounded down, but at least one pixel, then the budget is
/// exceeded at every width `a` beyond the fitted one.
pub proof fn law_fit_is_widest(w: int, h: int, max_tokens: int, a: int, b: int)
    requires
        1 <= h <= w,
        image_tokens(w, h) > max_tokens,
        fitted(w, h, max_tokens).0 < a <= w,
        1 <= b,
        a * h < (b + 1) * w,
        b * w <= a * h || b == 1,
    ensures
        image_tokens(a, b) > max_tokens,
{
    let r = fitted(w, h, max_tokens);
    lemma_landscape(w, h, max_tokens);
    lemma_other_side(a, w, h);
    let other = other_side(a, w, h);
    assert(w * other == other * w && w * b == b * w && (b + 1) * w == b * w + w)
        by (nonlinear_arith);
    assert(other == b) by {
        if other < b {
            assert(other * w <= (b - 1) * w) by (nonlinear_arith)
                requires
                    other <= b - 1,
                    w >= 1,
            ;
            assert((b - 1) * w == b * w - w) by (nonlinear_arith);
        } else if other > b {
            assert(other * w >= (b + 1) * w) by (nonlinear_arith)
                requires
                    other >= b + 1,
                    w >= 1,
            ;
        }
    }
    assert(!fits_at(a, w, h, max_tokens));
}

/// Law: a budget of no tokens leaves a single pixel of every image that has any.
pub proof fn law_no_budget_leaves_a_pixel(w: int, h: int)
    requires
        1 <= w,
        1 <= h,
    ensures
        fitted(w, h, 0) == (1int, 1int),
{
    law_image_tokens_symmetric(w, h);
    law_fit_symmetric(w, h, 0);
    lemma_single_pixel();
    law_image_tokens_monotone(1, 1, w, h);
    let (long, short) = if w >= h {
        (w, h)
    } else {
        (h, w)
    };
    lemma_landscape(long, short, 0);
    let side = longest_side(long, short, 0);
    law_image_tokens_monotone(1, 1, side, other_side(side, long, short));
}

} // verus!
