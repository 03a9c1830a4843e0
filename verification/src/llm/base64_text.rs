//! Base64 text of binary data, as it travels inside JSON.

use vstd::prelude::*;

verus! {

/// The digit of the standard alphabet for six bits.
pub open spec fn base64_digit(v: int) -> char {
    if v < 26 {
        ('A' as int + v) as char
    } else if v < 52 {
        ('a' as int + (v - 26)) as char
    } else if v < 62 {
        ('0' as int + (v - 52)) as char
    } else if v == 62 {
        '+'
    } else {
        '/'
    }
}

/// The byte at `i`, and zero beyond the end.
pub open spec fn byte_or_zero(bytes: Seq<u8>, i: int) -> int {
    if i < bytes.len() {
        bytes[i] as int
    } else {
        0
    }
}

/// The 24 bits of the three bytes from `i` on.
pub open spec fn base64_group(bytes: Seq<u8>, i: int) -> int {
    0x1_0000 * byte_or_zero(bytes, i) + 0x100 * byte_or_zero(bytes, i + 1) + byte_or_zero(
        bytes,
        i + 2,
    )
}

/// The character at `j`: six bits of a group, most significant first, or padding where these
/// lie wholly beyond the data.
pub open spec fn base64_char(bytes: Seq<u8>, j: int) -> char {
    let i = 3 * (j / 4);
    let group = base64_group(bytes, i);
    if i + j % 4 > bytes.len() {
        '='
    } else if j % 4 == 0 {
        base64_digit(group / 0x4_0000)
    } else if j % 4 == 1 {
        base64_digit(group / 0x1000 % 64)
    } else if j % 4 == 2 {
        base64_digit(group / 64 % 64)
    } else {
        base64_digit(group % 64)
    }
}

/// Length of the Base64 text of `n` bytes.
pub open spec fn base64_len(n: int) -> int {
    4 * ((n + 2) / 3)
}

/// The Base64 text of some bytes, with padding.
pub open spec fn base64_text(bytes: Seq<u8>) -> Seq<char> {
    Seq::new(base64_len(bytes.len() as int) as nat, |j: int| base64_char(bytes, j))
}

/// `base64::Engine::encode` of `base64::engine::general_purpose::STANDARD`: the text in the
/// standard alphabet, padded to a multiple of four. The text must fit in memory.
#[verifier::external_body]
pub(crate) fn encode_base64(bytes: &[u8]) -> (r: String)
    requires
        base64_len(bytes@.len() as int) <= isize::MAX,
    ensures
        r@ == base64_text(bytes@),
{
    base64::Engine::encode(&base64::engine::general_purpose::STANDARD, bytes)
}

/// The six bits for which a digit of the standard alphabet stands.
pub open spec fn base64_value(c: char) -> int {
    if 'A' <= c <= 'Z' {
        c as int - 65
    } else if 'a' <= c <= 'z' {
        c as int - 71
    } else if '0' <= c <= '9' {
        c as int + 4
    } else if c == '+' {
        62
    } else if c == '/' {
        63
    } else {
        -1
    }
}

/// Every six bits have a digit, from which they can be read.
proof fn lemma_digit_value(v: int)
    requires
        0 <= v < 64,
    ensures
        base64_value(base64_digit(v)) == v,
{
}

/// Law: the text has four characters for every three bytes begun.
pub proof fn law_base64_length(bytes: Seq<u8>, groups: int)
    requires
        3 * (groups - 1) < bytes.len() <= 3 * groups,
    ensures
        base64_text(bytes).len() == 4 * groups,
{
}

/// The four parts of 24 bits, of six bits each.
proof fn lemma_six_bits(group: int)
    requires
        0 <= group < 0x100_0000,
    ensures
        0 <= group / 0x4_0000 < 64,
        0x4_0000 * (group / 0x4_0000) + 0x1000 * (group / 0x1000 % 64) + 64 * (group / 64 % 64)
            + group % 64 == group,
{
    let (a, b) = (group / 64, group / 0x1000);
    assert(b == a / 64);
    assert(group / 0x4_0000 == b / 64);
}

/// The values of the four characters of a group, as far as they are digits.
proof fn lemma_group_values(bytes: Seq<u8>, k: int)
    requires
        0 <= k,
        3 * k < bytes.len(),
    ensures
        ({
            let (text, group) = (base64_text(bytes), base64_group(bytes, 3 * k));
            &&& 4 * k + 4 <= text.len()
            &&& 0 <= group < 0x100_0000
            &&& base64_value(text[4 * k]) == group / 0x4_0000
            &&& base64_value(text[4 * k + 1]) == group / 0x1000 % 64
            &&& 3 * k + 2 <= bytes.len() ==> base64_value(text[4 * k + 2]) == group / 64 % 64
            &&& 3 * k + 3 <= bytes.len() ==> base64_value(text[4 * k + 3]) == group % 64
            &&& 3 * k + 2 > bytes.len() ==> text[4 * k + 2] == '='
            &&& 3 * k + 3 > bytes.len() ==> text[4 * k + 3] == '='
        }),
{
    let group = base64_group(bytes, 3 * k);
    assert(0 <= group < 0x100_0000);
    lemma_six_bits(group);
    lemma_digit_value(group / 0x4_0000);
    lemma_digit_value(group / 0x1000 % 64);
    lemma_digit_value(group / 64 % 64);
    lemma_digit_value(group % 64);
    assert((4 * k) / 4 == k && (4 * k) % 4 == 0);
    assert((4 * k + 1) / 4 == k && (4 * k + 1) % 4 == 1);
    assert((4 * k + 2) / 4 == k && (4 * k + 2) % 4 == 2);
    assert((4 * k + 3) / 4 == k && (4 * k + 3) % 4 == 3);
}

/// Law: the four characters of a group of three bytes read back as its 24 bits.
pub proof fn law_base64_group_reads_back(bytes: Seq<u8>, k: int)
    requires
        0 <= k,
        3 * k + 3 <= bytes.len(),
    ensures
        ({
            let text = base64_text(bytes);
            &&& 4 * k + 4 <= text.len()
            &&& 0 <= base64_value(text[4 * k]) < 64
            &&& 0 <= base64_value(text[4 * k + 1]) < 64
            &&& 0 <= base64_value(text[4 * k + 2]) < 64
            &&& 0 <= base64_value(text[4 * k + 3]) < 64
            &&& 0x4_0000 * base64_value(text[4 * k]) + 0x1000 * base64_value(text[4 * k + 1]) + 64
                * base64_value(text[4 * k + 2]) + base64_value(text[4 * k + 3]) == 0x1_0000
                * bytes[3 * k] + 0x100 * bytes[3 * k + 1] + bytes[3 * k + 2]
        }),
{
    lemma_group_values(bytes, k);
    lemma_six_bits(base64_group(bytes, 3 * k));
}

/// The bits of one or two bytes, as far as they lie in the first digits.
proof fn lemma_rest_bits(first: int, second: int)
    requires
        0 <= first < 256,
        0 <= second < 256,
    ensures
        ({
            let group = 0x1_0000 * first + 0x100 * second;
            &&& 0x1000 * (group / 0x4_0000) + 64 * (group / 0x1000 % 64) + group / 64 % 64 == 4 * (
            0x100 * first + second)
            &&& second == 0 ==> 64 * (group / 0x4_0000) + group / 0x1000 % 64 == 16 * first
        }),
{
    let group = 0x1_0000 * first + 0x100 * second;
    lemma_six_bits(group);
    assert(group % 64 == 0);
    if second == 0 {
        assert(group / 64 == 0x400 * first);
        assert(group / 64 % 64 == 0);
    }
}

/// Law: one or two bytes beyond the groups of three are written as two or three digits, which
/// read back as their bits, and padding.
pub proof fn law_base64_rest_reads_back(bytes: Seq<u8>, k: int)
    requires
        0 <= k,
        3 * k < bytes.len() < 3 * k + 3,
    ensures
        ({
            let text = base64_text(bytes);
            &&& text.len() == 4 * k + 4
            &&& text[4 * k + 3] == '='
            &&& bytes.len() == 3 * k + 1 ==> text[4 * k + 2] == '=' && 64 * base64_value(
                text[4 * k],
            ) + base64_value(text[4 * k + 1]) == 16 * bytes[3 * k]
            &&& bytes.len() == 3 * k + 2 ==> 0x1000 * base64_value(text[4 * k]) + 64
                * base64_value(text[4 * k + 1]) + base64_value(text[4 * k + 2]) == 4 * (0x100
                * bytes[3 * k] + bytes[3 * k + 1])
        }),
{
    lemma_group_values(bytes, k);
    law_base64_length(bytes, k + 1);
    lemma_rest_bits(byte_or_zero(bytes, 3 * k), byte_or_zero(bytes, 3 * k + 1));
}

/// A number is made of three bytes in only one way.
proof fn lemma_bytes_of_number(a: (u8, u8, u8), b: (u8, u8, u8))
    requires
        0x1_0000 * a.0 + 0x100 * a.1 + a.2 == 0x1_0000 * b.0 + 0x100 * b.1 + b.2,
    ensures
        a == b,
{
}

/// The bytes of a group can be told from its characters.
proof fn lemma_group_distinguishes(a: Seq<u8>, b: Seq<u8>, k: int)
    requires
        a.len() == b.len(),
        base64_text(a) == base64_text(b),
        0 <= k,
        3 * k < a.len(),
    ensures
        forall|i: int| 3 * k <= i < 3 * k + 3 && i < a.len() ==> a[i] == b[i],
{
    let (x, y, z) = (3 * k, 3 * k + 1, 3 * k + 2);
    if z < a.len() {
        law_base64_group_reads_back(a, k);
        law_base64_group_reads_back(b, k);
        lemma_bytes_of_number((a[x], a[y], a[z]), (b[x], b[y], b[z]));
    } else {
        law_base64_rest_reads_back(a, k);
        law_base64_rest_reads_back(b, k);
        if y < a.len() {
            lemma_bytes_of_number((a[x], a[y], 0), (b[x], b[y], 0));
        }
    }
    assert forall|i: int| x <= i < x + 3 && i < a.len() implies a[i] == b[i] by {
        assert(i == x || i == y || i == z);
    }
}

/// Law: different bytes of the same number have different texts.
pub proof fn law_base64_distinguishes(a: Seq<u8>, b: Seq<u8>)
    requires
        a.len() == b.len(),
        base64_text(a) == base64_text(b),
    ensures
        a == b,
{
    assert forall|i: int| 0 <= i < a.len() implies a[i] == b[i] by {
        lemma_group_distinguishes(a, b, i / 3);
    }
    assert(a =~= b);
}

} // verus!
