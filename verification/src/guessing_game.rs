use rand::Rng;
use rand::rngs::ThreadRng;
use vstd::prelude::*;
use vstd::string::StrSliceExecFns;

verus! {

/// `rand::rngs::ThreadRng`, the thread-local random number generator, held
/// opaquely.
#[verifier::external_type_specification]
#[verifier::external_body]
pub struct ExThreadRng(ThreadRng);

/// Calls `rand::thread_rng`, which hands out the thread-local generator seeded
/// by the system. Nothing is claimed of the generator.
#[verifier::external_body]
fn thread_rng() -> ThreadRng {
    rand::thread_rng()
}

/// Calls `Rng::gen_range` on the half-open range `low..high` (it panics on an
/// empty range, hence the `requires`). The claim is that the value lies in
/// the range; which value it is depends on chance.
#[verifier::external_body]
fn gen_range_u32(rng: &mut ThreadRng, low: u32, high: u32) -> (r: u32)
    requires
        low < high,
    ensures
        low <= r < high,
{
    rng.gen_range(low..high)
}

/// Picks the number to guess: a random number from 1 to 100.
pub fn secret_number() -> (r: u32)
    ensures
        1 <= r <= 100,
{
    let mut rng = thread_rng();
    gen_range_u32(&mut rng, 1, 101)
}

/// How a guess compares with the secret number.
#[derive(Clone, Copy, Debug, PartialEq, Eq, Structural)]
pub enum Hint {
    TooSmall,
    TooLarge,
    Win,
}

/// The hint for `guess` when the number to guess is `secret_number`.
pub open spec fn hint_for(guess: u32, secret_number: u32) -> Hint {
    if guess < secret_number {
        Hint::TooSmall
    } else if guess > secret_number {
        Hint::TooLarge
    } else {
        Hint::Win
    }
}

/// Compares `guess` with `secret_number`.
pub fn check_guess(guess: u32, secret_number: u32) -> (h: Hint)
    ensures
        h == hint_for(guess, secret_number),
        guess < secret_number <==> h == Hint::TooSmall,
        guess > secret_number <==> h == Hint::TooLarge,
        guess == secret_number <==> h == Hint::Win,
{
    if guess < secret_number {
        Hint::TooSmall
    } else if guess > secret_number {
        Hint::TooLarge
    } else {
        Hint::Win
    }
}

/// `c` is one of the ASCII digits `0` to `9`.
pub open spec fn is_digit(c: char) -> bool {
    '0' <= c <= '9'
}

/// The number written by the decimal digits `s`.
pub open spec fn digits_value(s: Seq<char>) -> int
    decreases s.len(),
{
    if s.len() == 0 {
        0
    } else {
        digits_value(s.drop_last()) * 10 + (s.last() as int - '0' as int)
    }
}

/// `s` is a non-empty run of decimal digits.
pub open spec fn all_digits(s: Seq<char>) -> bool {
    s.len() > 0 && forall|i: int| 0 <= i < s.len() ==> is_digit(#[trigger] s[i])
}

/// The digits of a numeral for an unsigned number: a leading `+` is dropped.
pub open spec fn unsigned_digits(s: Seq<char>) -> Seq<char> {
    if s.len() > 0 && s[0] == '+' {
        s.drop_first()
    } else {
        s
    }
}

/// The `u32` that `s` writes in decimal, with an optional leading `+`, if it
/// writes one; `None` for anything else, and for a number above `u32::MAX`.
pub open spec fn numeral_value(s: Seq<char>) -> Option<u32> {
    let d = unsigned_digits(s);
    if all_digits(d) && digits_value(d) <= u32::MAX {
        Some(digits_value(d) as u32)
    } else {
        None
    }
}

/// How a numeral is read: each further digit multiplies the number so far by
/// ten and adds the digit's value; a leading `+` is skipped; the empty line,
/// a lone `+`, and any line with a character other than a digit after the
/// optional `+` are not numbers; a run of digits is read as the number it
/// writes if that fits in a `u32`.
pub proof fn lemma_numeral_rules(s: Seq<char>, c: char)
    ensures
        digits_value(Seq::<char>::empty()) == 0,
        digits_value(s.push(c)) == 10 * digits_value(s) + (c as int - '0' as int),
        numeral_value(Seq::<char>::empty()) is None,
        numeral_value(seq!['+']) is None,
        all_digits(s) ==> numeral_value(seq!['+'] + s) == numeral_value(s),
        all_digits(s) && digits_value(s) <= u32::MAX ==> numeral_value(s) == Some(digits_value(s) as u32),
        (exists|i: int| 0 <= i < s.len() && !is_digit(s[i]) && !(i == 0 && s[i] == '+'))
            ==> numeral_value(s) is None,
{
    assert(s.push(c).drop_last() =~= s);
    assert((seq!['+'] + s).drop_first() =~= s);
    assert(seq!['+'].drop_first() =~= Seq::<char>::empty());
    if exists|i: int| 0 <= i < s.len() && !is_digit(s[i]) && !(i == 0 && s[i] == '+') {
        let i = choose|i: int| 0 <= i < s.len() && !is_digit(s[i]) && !(i == 0 && s[i] == '+');
        let d = unsigned_digits(s);
        if s.len() > 0 && s[0] == '+' {
            assert(d[i - 1] == s[i]);
        } else {
            assert(d[i] == s[i]);
        }
    }
}

/// Appending digits never makes the number smaller.
proof fn lemma_digits_value_grows(s: Seq<char>, i: int)
    requires
        0 <= i <= s.len(),
        forall|k: int| 0 <= k < s.len() ==> is_digit(#[trigger] s[k]),
    ensures
        digits_value(s.take(i)) <= digits_value(s),
        0 <= digits_value(s),
    decreases s.len(),
{
    if s.len() > 0 {
        if i == s.len() {
            assert(s.take(i) =~= s);
        } else {
            assert(s.drop_last().take(i) =~= s.take(i));
        }
        if i < s.len() {
            lemma_digits_value_grows(s.drop_last(), i);
        } else {
            lemma_digits_value_grows(s.drop_last(), 0);
        }
    }
}

/// Reads a guess typed by the player: the number that the (already
/// trimmed) `input` writes in decimal, as `str::parse` reads a `u32`.
pub fn parse_guess(input: &str) -> (r: Option<u32>)
    ensures
        r == numeral_value(input@),
{
    let len = input.unicode_len();
    let mut start: usize = 0;
    if len > 0 && input.get_char(0) == '+' {
        start = 1;
    }
    let ghost d = unsigned_digits(input@);
    assert(d =~= input@.skip(start as int));
    if start == len {
        return None;
    }
    let mut value: u64 = 0;
    let mut i: usize = start;
    while i < len
        invariant
            len == input@.len(),
            start <= i <= len,
            start < len,
            d =~= input@.skip(start as int),
            d == unsigned_digits(input@),
            forall|k: int| 0 <= k < i - start ==> is_digit(#[trigger] d[k]),
            value == digits_value(d.take(i - start)),
            value <= u32::MAX,
        decreases len - i,
    {
        let c = input.get_char(i);
        assert(d[i - start] == c);
        if !('0' <= c && c <= '9') {
            assert(!is_digit(d[i - start]));
            return None;
        }
        assert(d.take(i - start + 1).drop_last() =~= d.take(i - start));
        assert(d.take(i - start + 1).last() == c);
        let next: u64 = value * 10 + (c as u64 - '0' as u64);
        assert(next == digits_value(d.take(i - start + 1)));
        if next > 4294967295u64 {
            proof {
                if all_digits(d) {
                    lemma_digits_value_grows(d, i - start + 1);
                }
            }
            return None;
        }
        value = next;
        i = i + 1;
    }
    assert(d.take(len - start) =~= d);
    Some(value as u32)
}

/// The outcome of one line typed by the player.
#[derive(Clone, Copy, Debug, PartialEq, Eq, Structural)]
pub enum Turn {
    /// The line is not a number; the player is asked again.
    NotANumber,
    /// The line is the guess `guess`, answered with `hint`; the game ends
    /// when the hint is `Win`.
    Guessed { guess: u32, hint: Hint },
}

/// Decides one turn of the game: reads the player's (trimmed) line and
/// compares the guess with the secret number.
pub fn play_turn(secret_number: u32, input: &str) -> (t: Turn)
    ensures
        numeral_value(input@) is None ==> t == Turn::NotANumber,
        numeral_value(input@) matches Some(g) ==> t == (Turn::Guessed {
            guess: g,
            hint: hint_for(g, secret_number),
        }),
{
    match parse_guess(input) {
        None => Turn::NotANumber,
        Some(guess) => Turn::Guessed { guess, hint: check_guess(guess, secret_number) },
    }
}

} // verus!
