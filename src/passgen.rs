use rand::seq::SliceRandom;
use rand::SeedableRng;
use crate::error::VaultError;
use crate::text::string_from_chars;
use vstd::prelude::*;

verus! {

/// The length of a generated password when none is asked for.
pub const DEFAULT_GENERATED_LEN: usize = 20;

/// The shortest password that the generator produces.
pub const MIN_GENERATED_LEN: usize = 12;

/// Upper-case letters, without the look-alikes `I` and `O`.
pub open spec fn upper_class() -> Seq<char> {
    seq!['A', 'B', 'C', 'D', 'E', 'F', 'G', 'H', 'J', 'K', 'L', 'M', 'N', 'P', 'Q', 'R', 'S', 'T', 'U', 'V', 'W', 'X', 'Y', 'Z']
}

/// Lower-case letters, without the look-alike `l`.
pub open spec fn lower_class() -> Seq<char> {
    seq!['a', 'b', 'c', 'd', 'e', 'f', 'g', 'h', 'i', 'j', 'k', 'm', 'n', 'o', 'p', 'q', 'r', 's', 't', 'u', 'v', 'w', 'x', 'y', 'z']
}

/// Digits, without the look-alikes `0` and `1`.
pub open spec fn digit_class() -> Seq<char> {
    seq!['2', '3', '4', '5', '6', '7', '8', '9']
}

/// Punctuation.
pub open spec fn special_class() -> Seq<char> {
    seq!['!', '@', '#', '$', '%', '^', '&', '*', '(', ')', '-', '_', '=', '+', '[', ']', '{', '}', ';', ':', ',', '.', '?']
}

pub open spec fn any_class() -> Seq<char> {
    upper_class() + lower_class() + digit_class() + special_class()
}

pub open spec fn generated_len(len: usize) -> nat {
    if len < MIN_GENERATED_LEN { MIN_GENERATED_LEN as nat } else { len as nat }
}

/// A password as the generator promises it: of the asked length (at least
/// twelve), drawn from the four classes, with one character of each.
pub open spec fn strong_password(p: Seq<char>, len: usize) -> bool {
    &&& p.len() == generated_len(len)
    &&& forall|i: int| 0 <= i < p.len() ==> any_class().contains(#[trigger] p[i])
    &&& exists|i: int| 0 <= i < p.len() && upper_class().contains(#[trigger] p[i])
    &&& exists|i: int| 0 <= i < p.len() && lower_class().contains(#[trigger] p[i])
    &&& exists|i: int| 0 <= i < p.len() && digit_class().contains(#[trigger] p[i])
    &&& exists|i: int| 0 <= i < p.len() && special_class().contains(#[trigger] p[i])
}

#[verifier::external_type_specification]
#[verifier::external_body]
pub struct ExStdRng(rand::rngs::StdRng);

/// Relies on rand's `SeedableRng::from_rng` with `OsRng`: a ChaCha12
/// generator seeded from the operating system's secure source, or an error
/// if that source fails.
#[verifier::external_body]
fn seeded_rng() -> (r: Result<rand::rngs::StdRng, rand::Error>) {
    rand::rngs::StdRng::from_rng(rand::rngs::OsRng)
}

/// Relies on rand's `SeedableRng::seed_from_u64`: a ChaCha12 generator
/// determined by the seed.
#[verifier::external_body]
fn rng_from_seed(seed: u64) -> (r: rand::rngs::StdRng) {
    rand::rngs::StdRng::seed_from_u64(seed)
}

/// Relies on rand's `SliceRandom::choose`: one element of the non-empty
/// slice, drawn uniformly.
#[verifier::external_body]
fn choose_char(set: &[char], rng: &mut rand::rngs::StdRng) -> (r: char)
    requires
        set@.len() > 0,
    ensures
        set@.contains(r),
{
    *set.choose(rng).unwrap()
}

/// Relies on rand's `SliceRandom::shuffle`: a uniform random permutation
/// of the same characters.
#[verifier::external_body]
fn shuffle_chars(v: &mut Vec<char>, rng: &mut rand::rngs::StdRng)
    ensures
        final(v)@.to_multiset() == old(v)@.to_multiset(),
{
    v.shuffle(rng)
}

proof fn lemma_kept_by_permutation(a: Seq<char>, b: Seq<char>, x: char)
    requires
        a.to_multiset() == b.to_multiset(),
        a.contains(x),
    ensures
        b.contains(x),
{
    a.to_multiset_ensures();
    b.to_multiset_ensures();
    assert(a.to_multiset().count(x) > 0);
    assert(b.to_multiset().count(x) > 0);
}

/// A random password of `max(len, 12)` characters with at least one
/// upper-case letter, lower-case letter, digit and punctuation mark, the
/// rest drawn from all four classes and the order shuffled; the generator
/// is seeded from the operating system's secure source.
pub fn generate_strong_password(len: usize) -> (r: Result<String, VaultError>)
    ensures
        r matches Ok(p) ==> strong_password(p@, len),
        r matches Err(e) ==> e == VaultError::RandomSource,
{
    match seeded_rng() {
        Ok(mut rng) => Ok(generate_with(len, &mut rng)),
        Err(_) => Err(VaultError::RandomSource),
    }
}

/// The same construction driven by a generator determined by `seed`, for
/// reproducible output.
pub fn generate_strong_password_seeded(len: usize, seed: u64) -> (r: String)
    ensures
        strong_password(r@, len),
{
    let mut rng = rng_from_seed(seed);
    generate_with(len, &mut rng)
}

fn generate_with(len: usize, rng: &mut rand::rngs::StdRng) -> (r: String)
    ensures
        strong_password(r@, len),
{
    let target_len = if len < MIN_GENERATED_LEN { MIN_GENERATED_LEN } else { len };
    let upper = vec!['A', 'B', 'C', 'D', 'E', 'F', 'G', 'H', 'J', 'K', 'L', 'M', 'N', 'P', 'Q', 'R', 'S', 'T', 'U', 'V', 'W', 'X', 'Y', 'Z'];
    let lower = vec!['a', 'b', 'c', 'd', 'e', 'f', 'g', 'h', 'i', 'j', 'k', 'm', 'n', 'o', 'p', 'q', 'r', 's', 't', 'u', 'v', 'w', 'x', 'y', 'z'];
    let digits = vec!['2', '3', '4', '5', '6', '7', '8', '9'];
    let special = vec!['!', '@', '#', '$', '%', '^', '&', '*', '(', ')', '-', '_', '=', '+', '[', ']', '{', '}', ';', ':', ',', '.', '?'];
    assert(upper@ == upper_class());
    assert(lower@ == lower_class());
    assert(digits@ == digit_class());
    assert(special@ == special_class());
    let mut chars: Vec<char> = Vec::new();
    chars.push(choose_char(upper.as_slice(), rng));
    chars.push(choose_char(lower.as_slice(), rng));
    chars.push(choose_char(digits.as_slice(), rng));
    chars.push(choose_char(special.as_slice(), rng));
    let mut all: Vec<char> = Vec::new();
    let mut part = upper.clone();
    all.append(&mut part);
    let mut part = lower.clone();
    all.append(&mut part);
    let mut part = digits.clone();
    all.append(&mut part);
    let mut part = special.clone();
    all.append(&mut part);
    assert(all@ =~= any_class());
    proof {
        assert forall|x: char| #![auto] upper_class().contains(x) ==> any_class().contains(x) by {
            if upper_class().contains(x) {
                let k = choose|k: int| 0 <= k < upper_class().len() && upper_class()[k] == x;
                assert(any_class()[k] == x);
            }
        }
        assert forall|x: char| #![auto] lower_class().contains(x) ==> any_class().contains(x) by {
            if lower_class().contains(x) {
                let k = choose|k: int| 0 <= k < lower_class().len() && lower_class()[k] == x;
                assert(any_class()[k + 24] == x);
            }
        }
        assert forall|x: char| #![auto] digit_class().contains(x) ==> any_class().contains(x) by {
            if digit_class().contains(x) {
                let k = choose|k: int| 0 <= k < digit_class().len() && digit_class()[k] == x;
                assert(any_class()[k + 49] == x);
            }
        }
        assert forall|x: char| #![auto] special_class().contains(x) ==> any_class().contains(x) by {
            if special_class().contains(x) {
                let k = choose|k: int| 0 <= k < special_class().len() && special_class()[k] == x;
                assert(any_class()[k + 57] == x);
            }
        }
    }
    while chars.len() < target_len
        invariant
            all@ == any_class(),
            4 <= chars@.len() <= target_len,
            upper_class().contains(chars@[0]),
            lower_class().contains(chars@[1]),
            digit_class().contains(chars@[2]),
            special_class().contains(chars@[3]),
            forall|i: int| 0 <= i < chars@.len() ==> any_class().contains(#[trigger] chars@[i]),
        decreases target_len - chars@.len(),
    {
        chars.push(choose_char(all.as_slice(), rng));
    }
    let ghost before = chars@;
    shuffle_chars(&mut chars, rng);
    proof {
        before.to_multiset_ensures();
        chars@.to_multiset_ensures();
        assert(chars@.len() == before.len());
        assert forall|i: int| 0 <= i < chars@.len() implies any_class().contains(#[trigger] chars@[i]) by {
            lemma_kept_by_permutation(chars@, before, chars@[i]);
            let k = choose|k: int| 0 <= k < before.len() && before[k] == chars@[i];
            assert(any_class().contains(before[k]));
        }
        assert(before.contains(before[0]));
        lemma_kept_by_permutation(before, chars@, before[0]);
        assert(before.contains(before[1]));
        lemma_kept_by_permutation(before, chars@, before[1]);
        assert(before.contains(before[2]));
        lemma_kept_by_permutation(before, chars@, before[2]);
        assert(before.contains(before[3]));
        lemma_kept_by_permutation(before, chars@, before[3]);
    }
    string_from_chars(&chars)
}

} // verus!
