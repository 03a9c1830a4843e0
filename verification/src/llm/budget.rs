//! Token accounting for one call: what an image costs, and what it may cost.

use vstd::prelude::*;

verus! {

/// Context window requested from Ollama on every call.
///
/// It does not depend on the GPU: the image budget bounds the size of a request (image tokens,
/// prompt and `num_predict`), so one constant fits every call, and Ollama never reloads the
/// model because the requested context changed.
pub const NUM_CTX: u32 = 4096;

/// Visual tokens aimed at for each image. Qwen2.5-VL maps each block of 28x28 pixels to one
/// token, so this is about 0.78 megapixels (1009x756 for a 4:3 photo).
pub const TARGET_IMAGE_TOKENS: u32 = 1000;

/// Pixels per side of the block that makes one visual token (14px patches merged 2x2).
pub const PX_PER_TOKEN: u32 = 28;

/// Lower bound of the budget, so that a long prompt never collapses the image to nothing.
pub const MIN_IMAGE_TOKENS: u32 = 64;

/// Chat template and special tokens that Ollama adds around the prompt.
pub const TEMPLATE_TOKENS: u32 = 64;

/// Slack for differences between the estimate and the tokenizer.
pub const CTX_SAFETY_MARGIN: u32 = 256;

/// Bytes of prompt that are counted as one token; conservative for English and OCR text.
pub const BYTES_PER_TOKEN: u32 = 3;

/// `n / d` rounded up.
pub open spec fn ceil_div(n: int, d: int) -> int {
    (n + d - 1) / d
}

/// Visual tokens of an image of `w` x `h` pixels: one for each block that it touches.
pub open spec fn image_tokens(w: int, h: int) -> int {
    ceil_div(w, PX_PER_TOKEN as int) * ceil_div(h, PX_PER_TOKEN as int)
}

/// Tokens that a prompt of `len` bytes is counted as, with the template around it.
pub open spec fn prompt_tokens(len: int) -> int {
    ceil_div(len, BYTES_PER_TOKEN as int) + TEMPLATE_TOKENS
}

/// Length of a prompt in bytes, in UTF-8.
pub open spec fn prompt_bytes(prompt: Seq<char>) -> int {
    vstd::utf8::encode_utf8(prompt).len() as int
}

/// Tokens left for an image beside the prompt, the reply and the safety margin.
pub open spec fn available_tokens(len: int, num_predict: int) -> int {
    NUM_CTX - (num_predict + prompt_tokens(len) + CTX_SAFETY_MARGIN)
}

/// The visual-token budget: what is left, but at most the target and at least the minimum.
pub open spec fn token_budget(len: int, num_predict: int) -> int {
    let available = available_tokens(len, num_predict);
    if available < MIN_IMAGE_TOKENS {
        MIN_IMAGE_TOKENS as int
    } else if available > TARGET_IMAGE_TOKENS {
        TARGET_IMAGE_TOKENS as int
    } else {
        available
    }
}

/// `n / d` rounded up.
pub fn div_ceil(n: u32, d: u32) -> (r: u32)
    requires
        d > 0,
    ensures
        r == ceil_div(n as int, d as int),
{
    let q: u32 = n / d;
    proof {
        let (ni, di) = (n as int, d as int);
        vstd::arithmetic::div_mod::lemma_fundamental_div_mod(ni, di);
        if ni % di == 0 {
            vstd::arithmetic::div_mod::lemma_fundamental_div_mod_converse(
                ni + di - 1,
                di,
                ni / di,
                di - 1,
            );
        } else {
            assert(di * (ni / di + 1) == di * (ni / di) + di) by (nonlinear_arith);
            vstd::arithmetic::div_mod::lemma_fundamental_div_mod_converse(
                ni + di - 1,
                di,
                ni / di + 1,
                ni % di - 1,
            );
            assert(di > 1 ==> ni / di < u32::MAX) by (nonlinear_arith)
                requires
                    0 <= ni <= u32::MAX,
                    ni == di * (ni / di) + ni % di,
                    0 <= ni % di < di,
            ;
        }
    }
    if n % d == 0 {
        q
    } else {
        q + 1
    }
}

/// Estimated visual tokens for an image of `w` x `h` pixels.
pub fn estimate_image_tokens(w: u32, h: u32) -> (r: u32)
    requires
        image_tokens(w as int, h as int) <= u32::MAX,
    ensures
        r == image_tokens(w as int, h as int),
{
    let (across, down): (u32, u32) = (div_ceil(w, PX_PER_TOKEN), div_ceil(h, PX_PER_TOKEN));
    assert(0 <= across * down) by (nonlinear_arith);
    across * down
}

/// The same estimate, wide enough for images of any size.
pub fn estimate_image_tokens_wide(w: u32, h: u32) -> (r: u64)
    ensures
        r == image_tokens(w as int, h as int),
{
    let (across, down): (u32, u32) = (div_ceil(w, PX_PER_TOKEN), div_ceil(h, PX_PER_TOKEN));
    assert(0 <= across * down <= 0xffff_ffff * 0xffff_ffff) by (nonlinear_arith)
        requires
            0 <= across <= 0xffff_ffff,
            0 <= down <= 0xffff_ffff,
    ;
    across as u64 * down as u64
}

/// Visual-token budget for one call: the target, capped so that image, prompt and generated
/// tokens fit in [`NUM_CTX`], but never under [`MIN_IMAGE_TOKENS`].
pub fn image_token_budget(prompt: &str, num_predict: u32) -> (r: u32)
    ensures
        r == token_budget(prompt_bytes(prompt@), num_predict as int),
{
    let len: u64 = prompt.as_bytes().len() as u64;
    let whole: u64 = len / BYTES_PER_TOKEN as u64;
    let rest: u64 = if len % BYTES_PER_TOKEN as u64 == 0 {
        0
    } else {
        1
    };
    let prompt_tokens: u64 = whole + rest + TEMPLATE_TOKENS as u64;
    let used: u64 = num_predict as u64 + prompt_tokens + CTX_SAFETY_MARGIN as u64;
    let available: u64 = (NUM_CTX as u64).saturating_sub(used);
    if available < MIN_IMAGE_TOKENS as u64 {
        MIN_IMAGE_TOKENS
    } else if available > TARGET_IMAGE_TOKENS as u64 {
        TARGET_IMAGE_TOKENS
    } else {
        available as u32
    }
}

/// Law: wherever the smallest image still fits beside the prompt and the reply, the image that
/// the budget allows fits too.
pub proof fn law_budget_fits_context(len: int, num_predict: int)
    requires
        0 <= len,
        0 <= num_predict,
        MIN_IMAGE_TOKENS + prompt_tokens(len) + num_predict <= NUM_CTX,
    ensures
        token_budget(len, num_predict) + prompt_tokens(len) + num_predict <= NUM_CTX,
{
}

/// Law: the budget always lies between the minimum and the target.
pub proof fn law_budget_bounds(len: int, num_predict: int)
    ensures
        MIN_IMAGE_TOKENS <= token_budget(len, num_predict) <= TARGET_IMAGE_TOKENS,
{
}

/// Law: a larger image never costs fewer tokens.
pub proof fn law_image_tokens_monotone(w1: int, h1: int, w2: int, h2: int)
    requires
        0 <= w1 <= w2,
        0 <= h1 <= h2,
    ensures
        0 <= image_tokens(w1, h1) <= image_tokens(w2, h2),
{
    let (a1, a2) = (ceil_div(w1, PX_PER_TOKEN as int), ceil_div(w2, PX_PER_TOKEN as int));
    let (b1, b2) = (ceil_div(h1, PX_PER_TOKEN as int), ceil_div(h2, PX_PER_TOKEN as int));
    assert(0 <= a1 * b1 <= a2 * b2) by (nonlinear_arith)
        requires
            0 <= a1 <= a2,
            0 <= b1 <= b2,
    ;
}

/// Law: rounding a quotient up gives the least number of parts that cover the whole.
pub proof fn law_ceil_div_covers(n: int, d: int)
    requires
        0 <= n,
        0 < d,
    ensures
        (ceil_div(n, d) - 1) * d < n <= ceil_div(n, d) * d,
{
    let q = ceil_div(n, d);
    vstd::arithmetic::div_mod::lemma_fundamental_div_mod(n + d - 1, d);
    vstd::arithmetic::div_mod::lemma_mod_bound(n + d - 1, d);
    assert(d * q == q * d && (q - 1) * d == q * d - d) by (nonlinear_arith);
}

/// Law: an image costs one token for each block of 28 by 28 pixels that it touches. If it takes
/// `across` blocks to cover its width and `down` blocks to cover its height, and fewer do not
/// cover them, it costs their product.
pub proof fn law_image_tokens_count_blocks(w: int, h: int, across: int, down: int)
    requires
        28 * (across - 1) < w <= 28 * across,
        28 * (down - 1) < h <= 28 * down,
    ensures
        image_tokens(w, h) == across * down,
{
}

/// Law: a prompt counts as one token for every three bytes begun, and 64 more.
pub proof fn law_prompt_tokens_count_bytes(prompt: Seq<char>, tokens: int)
    requires
        3 * (tokens - 1) < vstd::utf8::encode_utf8(prompt).len() <= 3 * tokens,
    ensures
        prompt_tokens(prompt_bytes(prompt)) == tokens + 64,
{
}

/// Law: the budget is what a context of 4096 tokens leaves beside the prompt, its template of 64
/// tokens, the reply and a margin of 256 tokens. It is less only at the target of 1000, and more
/// only at the minimum of 64.
pub proof fn law_budget_fills_context(prompt: Seq<char>, num_predict: int, tokens: int)
    requires
        3 * (tokens - 1) < vstd::utf8::encode_utf8(prompt).len() <= 3 * tokens,
    ensures
        ({
            let budget = token_budget(prompt_bytes(prompt), num_predict);
            let total = budget + tokens + 64 + 256 + num_predict;
            &&& 64 <= budget <= 1000
            &&& total < 4096 ==> budget == 1000
            &&& total > 4096 ==> budget == 64
        }),
{
}

/// Law: a longer prompt or a longer reply never leaves more for the image.
pub proof fn law_budget_never_grows(len1: int, len2: int, num_predict1: int, num_predict2: int)
    requires
        len1 <= len2,
        num_predict1 <= num_predict2,
    ensures
        token_budget(len2, num_predict2) <= token_budget(len1, num_predict1),
{
}

} // verus!
