use sherlock_desktop::llm::budget::{
    estimate_image_tokens, estimate_image_tokens_wide, image_token_budget, MIN_IMAGE_TOKENS,
    NUM_CTX, TARGET_IMAGE_TOKENS, TEMPLATE_TOKENS,
};
use sherlock_desktop::llm::fit::fit_dimensions;

#[test]
fn estimate_image_tokens_rounds_up() {
    assert_eq!(estimate_image_tokens(28, 28), 1);
    assert_eq!(estimate_image_tokens(29, 28), 2);
    assert_eq!(estimate_image_tokens(1001, 750), 36 * 27);
}

#[test]
fn fit_dimensions_keeps_small_images() {
    assert_eq!(fit_dimensions(800, 600, 1000), (800, 600));
    assert_eq!(fit_dimensions(0, 0, 1000), (0, 0));
}

#[test]
fn fit_dimensions_downscales_large_photos_within_budget() {
    for (w, h) in [
        (4000, 3000),
        (3000, 4000),
        (3392, 2544),
        (4032, 1908),
        (1654, 2339),
    ] {
        let (nw, nh) = fit_dimensions(w, h, 1000);
        assert!(
            estimate_image_tokens(nw, nh) <= 1000,
            "{w}x{h} -> {nw}x{nh}"
        );
        // Aspect ratio preserved within 1%
        let r0 = w as f64 / h as f64;
        let r1 = nw as f64 / nh as f64;
        assert!((r0 - r1).abs() / r0 < 0.01, "{w}x{h} -> {nw}x{nh}");
        // Not shrunk far below the budget
        assert!(estimate_image_tokens(nw, nh) >= 900, "{w}x{h} -> {nw}x{nh}");
    }
}

#[test]
fn image_token_budget_fits_every_call_in_context() {
    // (prompt length, num_predict) pairs of the classifier
    for (prompt_len, num_predict) in [(1100, 500), (1200, 600), (90, 2000), (900, 260)] {
        let prompt = "x".repeat(prompt_len);
        let budget = image_token_budget(&prompt, num_predict);
        assert!(budget <= TARGET_IMAGE_TOKENS);
        let total = budget + (prompt_len as u32).div_ceil(3) + TEMPLATE_TOKENS + num_predict;
        assert!(
            total <= NUM_CTX,
            "prompt={prompt_len} predict={num_predict}"
        );
    }
}

#[test]
fn image_token_budget_is_target_for_primary_prompt() {
    let prompt = "x".repeat(1100);
    assert_eq!(image_token_budget(&prompt, 500), TARGET_IMAGE_TOKENS);
}

#[test]
fn image_token_budget_never_below_minimum() {
    let prompt = "x".repeat(20_000);
    assert_eq!(image_token_budget(&prompt, 2000), MIN_IMAGE_TOKENS);
}

/// The largest dimensions that fit, found by trying every length of the longer side.
fn fit_by_trial(w: u32, h: u32, max_tokens: u32) -> (u32, u32) {
    if w == 0 || h == 0 || estimate_image_tokens_wide(w, h) <= max_tokens as u64 {
        return (w, h);
    }
    let (long, short) = (w.max(h), w.min(h));
    let other = |side: u32| (side * short / long).max(1);
    let side = (1..=long)
        .rev()
        .find(|&side| estimate_image_tokens(side, other(side)) <= max_tokens)
        .unwrap_or(1);
    if w >= h {
        (side, other(side))
    } else {
        (other(side), side)
    }
}

#[test]
fn fit_dimensions_agrees_with_trial() {
    let mut state = 0x9e37_79b9_7f4a_7c15u64;
    let mut next = move |bits: u32| {
        state ^= state << 13;
        state ^= state >> 7;
        state ^= state << 17;
        (state >> 32) as u32 >> (32 - bits)
    };
    for round in 0..5_000u32 {
        let w = next(1 + round % 12);
        let h = next(1 + (round / 12) % 12);
        let max_tokens = next(1 + (round / 7) % 14);
        assert_eq!(
            fit_dimensions(w, h, max_tokens),
            fit_by_trial(w, h, max_tokens),
            "{w}x{h} in {max_tokens}"
        );
    }
    for round in 0..20_000u32 {
        let w = next(1 + round % 32);
        let h = next(1 + (round / 32) % 32);
        let max_tokens = next(1 + (round / 7) % 32);
        let (nw, nh) = fit_dimensions(w, h, max_tokens);
        assert!(nw <= w && nh <= h, "{w}x{h} in {max_tokens}");
        assert!(
            max_tokens == 0 || estimate_image_tokens_wide(nw, nh) <= max_tokens as u64,
            "{w}x{h} in {max_tokens}"
        );
    }
}

#[test]
fn fit_dimensions_are_the_largest() {
    for (w, h, max_tokens) in [(4000, 4000, 980), (4000, 3000, 1000), (1600, 900, 300), (6, 4, 0)] {
        let (nw, nh) = fit_dimensions(w, h, max_tokens);
        let unit = reduced(w, h);
        for n in 1..=w / unit.0 {
            let (a, b) = (n * unit.0, n * unit.1);
            if a > nw && b > nh {
                assert!(estimate_image_tokens(a, b) > max_tokens, "{a}x{b}");
            }
        }
    }
}

/// A ratio in lowest terms.
fn reduced(w: u32, h: u32) -> (u32, u32) {
    let (mut a, mut b) = (w, h);
    while b != 0 {
        (a, b) = (b, a % b);
    }
    (w / a, h / a)
}

#[test]
fn fit_dimensions_exact_values() {
    // 37 x 27 blocks; one pixel more would need 37 x 28.
    assert_eq!(fit_dimensions(4000, 3000, 1000), (1009, 756));
    assert_eq!(fit_dimensions(3000, 4000, 1000), (756, 1009));
    assert_eq!(fit_dimensions(4000, 4000, 980), (868, 868));
    assert_eq!(fit_dimensions(4000, 3000, 0), (1, 1));
    assert_eq!(fit_dimensions(29, 29, 3), (28, 28));
    // Thin images shrink along their length alone.
    assert_eq!(fit_dimensions(29, 1, 1), (28, 1));
    assert_eq!(fit_dimensions(100_000, 1, 10), (280, 1));
    assert_eq!(fit_dimensions(1, 784, 1), (1, 28));
    assert_eq!(fit_dimensions(7, 112, 1), (1, 28));
    assert_eq!(fit_dimensions(3136, 1, 9), (252, 1));
    assert_eq!(fit_dimensions(56, 2, 1), (28, 1));
    assert_eq!(fit_dimensions(50_176_000, 1, 49_000), (1_372_000, 1));
    assert_eq!(fit_dimensions(0, 5000, 1), (0, 5000));
}

#[test]
fn fit_dimensions_follows_the_orientation() {
    for (w, h) in [(4000, 3000), (5000, 5000), (12_345, 678), (70_000, 3)] {
        let (nw, nh) = fit_dimensions(w, h, 500);
        assert_eq!(fit_dimensions(h, w, 500), (nh, nw));
        assert!(nw >= nh);
    }
}

#[test]
fn fit_dimensions_is_stable() {
    for (w, h, max_tokens) in [(6000, 4000, 700), (9000, 2, 3), (500, 400, 0)] {
        let (nw, nh) = fit_dimensions(w, h, max_tokens);
        assert_eq!(fit_dimensions(nw, nh, max_tokens), (nw, nh));
        assert!(nw <= w && nh <= h);
    }
}

#[test]
fn photos_keep_their_shape_and_use_the_budget() {
    for (w, h) in [(4000, 1000), (1000, 4000), (2400, 2400), (5472, 3648), (1200, 660)] {
        for max_tokens in [1000, 1500, 4000] {
            let (nw, nh) = fit_dimensions(w, h, max_tokens);
            let (across, down) = (u64::from(w) * u64::from(nh), u64::from(h) * u64::from(nw));
            assert!(100 * across.abs_diff(down) < across, "{w}x{h} -> {nw}x{nh}");
            if estimate_image_tokens(w, h) > max_tokens {
                assert!(10 * estimate_image_tokens(nw, nh) >= 9 * max_tokens);
            }
        }
    }
}

#[test]
fn any_image_keeps_its_shape_within_a_pixel() {
    for (w, h, max_tokens) in [(7, 112, 1), (9000, 31, 20), (1, 4000, 3), (640, 480, 2)] {
        let (nw, nh) = fit_dimensions(w, h, max_tokens);
        let (w, h, nw, nh) = (i64::from(w), i64::from(h), i64::from(nw), i64::from(nh));
        assert!((w * nh - h * nw).abs() < w.max(h));
    }
}

#[test]
fn image_token_budget_exact_values() {
    // 90 / 3 + 64 tokens of prompt leave 4096 - 2000 - 94 - 256 = 1746
    assert_eq!(image_token_budget(&"x".repeat(90), 2000), 1000);
    // 100 bytes count as 34 tokens: 4096 - 3000 - 98 - 256
    assert_eq!(image_token_budget(&"x".repeat(100), 3000), 742);
    // bytes are counted, not characters
    assert_eq!(image_token_budget(&"\u{e9}".repeat(50), 3000), 742);
    assert_eq!(image_token_budget("", 3712), MIN_IMAGE_TOKENS);
    assert_eq!(image_token_budget("", 3711), 65);
    assert_eq!(image_token_budget("", u32::MAX), MIN_IMAGE_TOKENS);
    assert_eq!(image_token_budget("x", u32::MAX - 300), MIN_IMAGE_TOKENS);
}

#[test]
fn image_tokens_grow_with_the_image() {
    assert_eq!(estimate_image_tokens(0, 500), 0);
    assert_eq!(estimate_image_tokens(1, 1), 1);
    assert!(estimate_image_tokens(100, 100) <= estimate_image_tokens(101, 113));
    assert_eq!(
        estimate_image_tokens_wide(u32::MAX, u32::MAX),
        153_391_690u64 * 153_391_690
    );
}
