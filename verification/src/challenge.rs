//! Authentication challenges: 128 bits of entropy, shown as 32 hexadecimal
//! digits.

use vstd::prelude::*;
use vstd::string::*;

verus! {

/// The number of hexadecimal digits of a challenge.
pub const CHALLENGE_DIGITS: u32 = 32;

/// The sixteen hexadecimal digits, in lower case.
pub open spec fn hex_digits() -> Seq<char> {
    seq!['0', '1', '2', '3', '4', '5', '6', '7', '8', '9', 'a', 'b', 'c', 'd', 'e', 'f']
}

/// The `position`-th group of four bits of `value`, counted from the most
/// significant one, which is group 0.
pub open spec fn nibble(value: u128, position: int) -> u128 {
    (value >> ((4 * (31 - position)) as u128)) & 0xf
}

/// `value` in 32 hexadecimal digits, the most significant first.
pub open spec fn hex_text(value: u128) -> Seq<char> {
    Seq::new(32, |position: int| hex_digits()[nibble(value, position) as int])
}

/// Whether `text` is a challenge in its transport form: 32 lower-case
/// hexadecimal digits.
pub open spec fn is_challenge_text(text: Seq<char>) -> bool {
    &&& text.len() == CHALLENGE_DIGITS
    &&& forall|i: int| 0 <= i < CHALLENGE_DIGITS ==> hex_digits().contains(#[trigger] text[i])
}

/// The text of one hexadecimal digit.
fn hex_digit(digit: u8) -> (text: &'static str)
    requires
        digit < 16,
    ensures
        text@ == seq![hex_digits()[digit as int]],
{
    let digits: &'static str = "0123456789abcdef";
    proof {
        reveal_strlit("0123456789abcdef");
        assert(digits@ =~= hex_digits());
    }
    let from: usize = digit as usize;
    let text: &'static str = digits.substring_ascii(from, from + 1);
    assert(text@ =~= seq![hex_digits()[digit as int]]);
    text
}

/// Writes `entropy` out as a challenge.
pub fn challenge_text(entropy: u128) -> (text: String)
    ensures
        text@ == hex_text(entropy),
{
    let mut text = String::new();
    let mut position: u32 = 0;
    while position < CHALLENGE_DIGITS
        invariant
            position <= CHALLENGE_DIGITS,
            text@.len() == position,
            forall|i: int| 0 <= i < position ==> text@[i] == hex_text(entropy)[i],
        decreases CHALLENGE_DIGITS - position,
    {
        let shift: u32 = 4 * (CHALLENGE_DIGITS - 1 - position);
        let group: u128 = (entropy >> shift) & 0xf;
        assert(group < 16) by (bit_vector)
            requires
                group == (entropy >> shift) & 0xf,
        ;
        assert(group == nibble(entropy, position as int));
        let digit = hex_digit(group as u8);
        text.append(digit);
        position = position + 1;
    }
    assert(text@ =~= hex_text(entropy));
    text
}

/// Every group of four bits is a number below sixteen.
pub proof fn lemma_nibble_bound(value: u128, position: int)
    requires
        0 <= position < 32,
    ensures
        nibble(value, position) < 16,
{
    let shift: u128 = (4 * (31 - position)) as u128;
    assert((value >> shift) & 0xf < 16) by (bit_vector);
}

/// What `hex_text` writes is a challenge in its transport form: it has 32
/// digits, each of them a lower-case hexadecimal digit.
pub proof fn lemma_hex_text_is_challenge(value: u128)
    ensures
        is_challenge_text(hex_text(value)),
{
    assert forall|i: int| 0 <= i < 32 implies hex_digits().contains(
        #[trigger] hex_text(value)[i],
    ) by {
        lemma_nibble_bound(value, i);
    }
}

/// The first `count` groups of four bits of `value`, read as one number.
spec fn leading(value: u128, count: int) -> u128 {
    value >> ((4 * (32 - count)) as u128)
}

/// Two values that agree in each of their 32 groups of four bits agree in
/// what their first `count` groups make together.
proof fn lemma_leading_groups_agree(a: u128, b: u128, count: int)
    requires
        forall|position: int| 0 <= position < 32 ==> nibble(a, position) == nibble(b, position),
        1 <= count <= 32,
    ensures
        leading(a, count) == leading(b, count),
    decreases count,
{
    assert(nibble(a, count - 1) == nibble(b, count - 1));
    if count == 1 {
        assert((a >> 124u128) & 0xf == a >> 124u128) by (bit_vector);
        assert((b >> 124u128) & 0xf == b >> 124u128) by (bit_vector);
    } else {
        lemma_leading_groups_agree(a, b, count - 1);
        let shift: u128 = (4 * (32 - count)) as u128;
        assert(leading(a, count - 1) == a >> ((shift + 4) as u128));
        assert(leading(b, count - 1) == b >> ((shift + 4) as u128));
        assert(a >> shift == ((a >> ((shift + 4) as u128)) << 4u128) | ((a >> shift) & 0xf))
            by (bit_vector)
            requires
                shift <= 120,
        ;
        assert(b >> shift == ((b >> ((shift + 4) as u128)) << 4u128) | ((b >> shift) & 0xf))
            by (bit_vector)
            requires
                shift <= 120,
        ;
    }
}

/// Two values with the same 32 groups of four bits are the same value.
proof fn lemma_nibbles_determine_value(a: u128, b: u128)
    requires
        forall|position: int| 0 <= position < 32 ==> nibble(a, position) == nibble(b, position),
    ensures
        a == b,
{
    lemma_leading_groups_agree(a, b, 32);
    assert(a >> 0u128 == a) by (bit_vector);
    assert(b >> 0u128 == b) by (bit_vector);
}

/// No two draws of entropy are written as the same challenge: whoever reads
/// a challenge reads the draw it was made from, and no other.
pub proof fn lemma_hex_text_injective(a: u128, b: u128)
    requires
        hex_text(a) == hex_text(b),
    ensures
        a == b,
{
    assert forall|position: int| 0 <= position < 32 implies nibble(a, position) == nibble(
        b,
        position,
    ) by {
        lemma_nibble_bound(a, position);
        lemma_nibble_bound(b, position);
        assert(hex_text(a)[position] == hex_digits()[nibble(a, position) as int]);
        assert(hex_text(b)[position] == hex_digits()[nibble(b, position) as int]);
    }
    lemma_nibbles_determine_value(a, b);
}

} // verus!
