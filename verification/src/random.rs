//! Names that are drawn at random: the name under which a schedule is kept
//! and the name of a new folder to work in.

use vstd::prelude::*;
use rand::RngExt;
use crate::archive_job::opt_text;
use crate::paste::contains_text;
use crate::schedule::{schedule_id, upper_hex};
use crate::text::{string_of, texts};

verus! {

/// A number drawn at random.
///
/// Trusted: this is `rand::random` for a `u32`. Nothing is promised of the
/// result, which is drawn anew with every call. The generator gives up
/// where the system has no seed for it, which no argument can rule out.
#[verifier::external_body]
fn random_number() -> u32 {
    rand::random::<u32>()
}

/// Whether the byte `b` is a letter or a digit of ASCII.
pub open spec fn is_alphanumeric(b: u8) -> bool {
    (0x30 <= b <= 0x39) || (0x41 <= b <= 0x5a) || (0x61 <= b <= 0x7a)
}

/// A letter or a digit drawn at random.
///
/// Trusted: this is `RngExt::sample` of the generator `rand::rng()` with
/// the distribution `rand::distr::Alphanumeric`, which gives a letter or a
/// digit of ASCII. Which one is drawn anew with every call. The generator
/// gives up where the system has no seed for it, which no argument can
/// rule out.
#[verifier::external_body]
fn random_alphanumeric() -> (b: u8)
    ensures
        is_alphanumeric(b),
{
    rand::rng().sample(rand::distr::Alphanumeric)
}

/// The name of the first of the numbers `draws` whose name no schedule of
/// `existing` has; nothing where each name is taken.
pub open spec fn first_fresh_of(existing: Seq<Seq<char>>, draws: Seq<u32>) -> Option<Seq<char>>
    decreases draws.len(),
{
    if draws.len() == 0 {
        None
    } else if !existing.contains(upper_hex(draws[0] as nat, 8)) {
        Some(upper_hex(draws[0] as nat, 8))
    } else {
        first_fresh_of(existing, draws.drop_first())
    }
}

/// The name of the first of the numbers `draws` whose name no schedule of
/// `existing` has.
pub fn first_fresh(existing: &Vec<String>, draws: &Vec<u32>) -> (id: Option<String>)
    ensures
        opt_text(id) == first_fresh_of(texts(existing@), draws@),
{
    let mut i: usize = 0;
    assert(draws@.subrange(0, draws@.len() as int) =~= draws@);
    while i < draws.len()
        invariant
            i <= draws@.len(),
            first_fresh_of(texts(existing@), draws@) == first_fresh_of(
                texts(existing@),
                draws@.subrange(i as int, draws@.len() as int),
            ),
        decreases draws@.len() - i,
    {
        let ghost rest = draws@.subrange(i as int, draws@.len() as int);
        assert(rest[0] == draws@[i as int]);
        assert(rest.drop_first() =~= draws@.subrange(i + 1, draws@.len() as int));
        let candidate = schedule_id(draws[i]);
        if !contains_text(existing, candidate.as_str()) {
            return Some(candidate);
        }
        i += 1;
    }
    None
}

/// With one more number at the end, the first fresh name is that of the
/// numbers before, where they have one, and else that of the last number,
/// where it is fresh.
pub proof fn lemma_one_more_draw(existing: Seq<Seq<char>>, draws: Seq<u32>, n: u32)
    ensures
        first_fresh_of(existing, draws.push(n)) == (match first_fresh_of(existing, draws) {
            Some(id) => Some(id),
            None => if !existing.contains(upper_hex(n as nat, 8)) {
                Some(upper_hex(n as nat, 8))
            } else {
                None
            },
        }),
    decreases draws.len(),
{
    if draws.len() == 0 {
        assert(draws.push(n).drop_first() =~= draws);
    } else {
        assert(draws.push(n)[0] == draws[0]);
        assert(draws.push(n).drop_first() =~= draws.drop_first().push(n));
        lemma_one_more_draw(existing, draws.drop_first(), n);
    }
}

/// Draws a name for a new schedule that no schedule of `existing` has:
/// numbers are drawn until the name of one is fresh, but no more than
/// `tries` of them.
pub fn fresh_schedule_id(existing: &Vec<String>, tries: usize) -> (id: Option<String>)
    ensures
        exists|draws: Seq<u32>|
            draws.len() <= tries && opt_text(id) == #[trigger] first_fresh_of(
                texts(existing@),
                draws,
            ) && (id is None ==> draws.len() == tries),
{
    let ghost mut draws: Seq<u32> = Seq::empty();
    let mut left: usize = tries;
    while left > 0
        invariant
            left <= tries,
            draws.len() == tries - left,
            first_fresh_of(texts(existing@), draws) is None,
        decreases left,
    {
        let n = random_number();
        let candidate = schedule_id(n);
        proof {
            lemma_one_more_draw(texts(existing@), draws, n);
            draws = draws.push(n);
        }
        if !contains_text(existing, candidate.as_str()) {
            assert(opt_text(Some(candidate)) == first_fresh_of(texts(existing@), draws));
            return Some(candidate);
        }
        left -= 1;
    }
    assert(opt_text(None::<String>) == first_fresh_of(texts(existing@), draws));
    None
}

/// The character that the byte `b` stands for in a name: a capital letter
/// of ASCII is made small, any other byte stands for itself.
pub open spec fn small_of(b: u8) -> char {
    if 0x41 <= b <= 0x5a {
        (b + 32) as char
    } else {
        b as char
    }
}

/// The name that the bytes `letters` spell, capital letters made small.
pub open spec fn name_of(letters: Seq<u8>) -> Seq<char> {
    Seq::new(letters.len(), |i: int| small_of(letters[i]))
}

/// Spells the name of the bytes `letters`, capital letters made small.
pub fn name_of_letters(letters: &Vec<u8>) -> (name: String)
    ensures
        name@ == name_of(letters@),
{
    let mut out: Vec<char> = Vec::new();
    let mut i: usize = 0;
    while i < letters.len()
        invariant
            i <= letters@.len(),
            out@ == name_of(letters@.subrange(0, i as int)),
        decreases letters@.len() - i,
    {
        let b = letters[i];
        let c = if 0x41 <= b && b <= 0x5a {
            (b + 32) as char
        } else {
            b as char
        };
        out.push(c);
        assert(out@ =~= name_of(letters@.subrange(0, i + 1)));
        i += 1;
    }
    assert(letters@.subrange(0, letters@.len() as int) =~= letters@);
    string_of(&out)
}

/// Draws the name of a new folder to work in: eight letters and digits
/// drawn at random, the letters made small.
pub fn workspace_name() -> (name: String)
    ensures
        exists|letters: Seq<u8>|
            letters.len() == 8 && (forall|i: int| 0 <= i < 8 ==> is_alphanumeric(
                #[trigger] letters[i],
            )) && name@ == #[trigger] name_of(letters),
{
    let mut letters: Vec<u8> = Vec::new();
    while letters.len() < 8
        invariant
            letters@.len() <= 8,
            forall|i: int| 0 <= i < letters@.len() ==> is_alphanumeric(#[trigger] letters@[i]),
        decreases 8 - letters@.len(),
    {
        letters.push(random_alphanumeric());
    }
    name_of_letters(&letters)
}

} // verus!
