use vstd::prelude::*;

verus! {

/// The thread-local random number generator of `rand`.
#[verifier::external_type_specification]
#[verifier::external_body]
pub struct ExThreadRng(rand::rngs::ThreadRng);

/// `rand::thread_rng`: a handle to this thread's generator, which the system
/// seeds. Nothing is claimed of the handle. The call fails only where the
/// system cannot seed the generator.
#[verifier::external_body]
fn thread_rng() -> (rng: rand::rngs::ThreadRng) {
    rand::thread_rng()
}

/// `rand::Rng::gen_range` on an inclusive range of bytes: the value drawn lies
/// in the range. Which value it is depends on the generator's state, so
/// nothing more is claimed. The call panics on an empty range, which
/// `requires` leaves out; beyond that it fails only where the generator is
/// due for new seed and the system cannot give it.
#[verifier::external_body]
fn random_between(rng: &mut rand::rngs::ThreadRng, low: u8, high: u8) -> (value: u8)
    requires
        low <= high,
    ensures
        low <= value <= high,
{
    rand::Rng::gen_range(rng, low..=high)
}

/// `String::push`: the character is appended at the end.
#[verifier::external_body]
fn push_char(text: &mut String, c: char)
    ensures
        final(text)@ == old(text)@.push(c),
{
    text.push(c)
}

/// Whether `c` is one of the ten decimal digits.
pub open spec fn is_decimal_digit(c: char) -> bool {
    '0' <= c <= '9'
}

/// Whether `text` is made of decimal digits only.
pub open spec fn is_numeric_string(text: Seq<char>) -> bool {
    forall|i: int| 0 <= i < text.len() ==> is_decimal_digit(#[trigger] text[i])
}

/// Whether every draw is a digit value, 0 to 9.
pub open spec fn are_digit_draws(draws: Seq<u8>) -> bool {
    forall|i: int| 0 <= i < draws.len() ==> #[trigger] draws[i] <= 9
}

/// The character that stands for a digit value: `'0'` for 0, up to `'9'` for
/// 9.
pub open spec fn digit_char(draw: u8) -> char {
    ((48 + draw) as u8) as char
}

/// The text that a sequence of draws spells: character `i` stands for draw
/// `i`.
pub open spec fn numeric_text(draws: Seq<u8>) -> Seq<char> {
    Seq::new(draws.len(), |i: int| digit_char(draws[i]))
}

/// The text of digit draws is a numeric string.
pub proof fn lemma_numeric_text_is_numeric(draws: Seq<u8>)
    requires
        are_digit_draws(draws),
    ensures
        numeric_text(draws).len() == draws.len(),
        is_numeric_string(numeric_text(draws)),
{
    assert forall|i: int| 0 <= i < draws.len() implies is_decimal_digit(
        #[trigger] numeric_text(draws)[i],
    ) by {
        assert(draws[i] <= 9);
    }
}

/// Draws that differ anywhere spell different texts, and equal draws spell
/// the same text.
pub proof fn lemma_numeric_text_injective(first: Seq<u8>, second: Seq<u8>)
    requires
        are_digit_draws(first),
        are_digit_draws(second),
    ensures
        (numeric_text(first) == numeric_text(second)) <==> first == second,
{
    if numeric_text(first) == numeric_text(second) {
        assert(first.len() == numeric_text(first).len());
        assert(second.len() == numeric_text(second).len());
        assert forall|i: int| 0 <= i < first.len() implies first[i] == second[i] by {
            assert(first[i] <= 9 && second[i] <= 9);
            assert(numeric_text(first)[i] == digit_char(first[i]));
            assert(numeric_text(second)[i] == digit_char(second[i]));
            assert(digit_char(first[i]) as u8 == 48 + first[i]);
            assert(digit_char(second[i]) as u8 == 48 + second[i]);
        }
        assert(first =~= second);
    }
}

/// The string that the draws spell, one decimal digit for each draw, in the
/// order of the draws.
pub fn numeric_string_of(draws: &Vec<u8>) -> (text: String)
    requires
        are_digit_draws(draws@),
    ensures
        text@ == numeric_text(draws@),
        text@.len() == draws@.len(),
        forall|i: int| 0 <= i < draws@.len() ==> #[trigger] text@[i] == digit_char(draws@[i]),
{
    let mut text = String::new();
    let mut i: usize = 0;
    while i < draws.len()
        invariant
            i <= draws@.len(),
            are_digit_draws(draws@),
            text@ == numeric_text(draws@.take(i as int)),
        decreases draws@.len() - i,
    {
        let draw: u8 = draws[i];
        let c: char = (48u8 + draw) as char;
        push_char(&mut text, c);
        assert(text@ =~= numeric_text(draws@.take(i + 1)));
        i = i + 1;
    }
    assert(draws@.take(i as int) =~= draws@);
    text
}

/// A string of `length` decimal digits, each drawn at random. Leading zeros
/// are kept. The string is the one that [`numeric_string_of`] spells from
/// `length` draws between 0 and 9.
pub fn generate_numeric_string(length: usize) -> (result: String)
    ensures
        result@.len() == length,
        is_numeric_string(result@),
        exists|draws: Seq<u8>|
            draws.len() == length && are_digit_draws(draws) && result@ == #[trigger] numeric_text(
                draws,
            ),
{
    let mut rng = thread_rng();
    let mut draws: Vec<u8> = Vec::new();
    while draws.len() < length
        invariant
            draws@.len() <= length,
            are_digit_draws(draws@),
        decreases length - draws@.len(),
    {
        let draw: u8 = random_between(&mut rng, 0, 9);
        draws.push(draw);
    }
    proof {
        lemma_numeric_text_is_numeric(draws@);
    }
    numeric_string_of(&draws)
}

} // verus!
