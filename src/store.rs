use vstd::prelude::*;
use crate::error::VaultError;
use crate::text::{chars_of, push_char};
use crate::unlock::StoreRead;

verus! {

/// Service under which the external secret store keeps this program's
/// entries.
pub const STORE_SERVICE: &'static str = "terminal-vault";

/// Entry holding the legacy raw key, in base64.
pub const LEGACY_KEY_ENTRY: &'static str = "vault-key";

/// Entry holding the trusted revision, in decimal.
pub const REVISION_ENTRY: &'static str = "vault-revision";

pub open spec fn decimal_chars() -> Seq<char> {
    seq!['0', '1', '2', '3', '4', '5', '6', '7', '8', '9']
}

pub open spec fn is_digit(c: char) -> bool {
    '0' <= c && c <= '9'
}

pub open spec fn digit_value(c: char) -> nat {
    ((c as u32) - 48) as nat
}

/// The value of a string of decimal digits.
pub open spec fn decimal_value(s: Seq<char>) -> nat
    decreases s.len(),
{
    if s.len() == 0 {
        0
    } else {
        decimal_value(s.drop_last()) * 10 + digit_value(s.last())
    }
}

/// The decimal text of a number, without leading zeros.
pub open spec fn decimal_text(n: nat) -> Seq<char>
    decreases n,
{
    if n < 10 {
        seq![decimal_chars()[n as int]]
    } else {
        decimal_text(n / 10).push(decimal_chars()[(n % 10) as int])
    }
}

pub open spec fn all_digits(s: Seq<char>) -> bool {
    forall|i: int| 0 <= i < s.len() ==> is_digit(#[trigger] s[i])
}

/// The digits of an unsigned number's text, after an optional `+`.
pub open spec fn unsigned_digits(s: Seq<char>) -> Seq<char> {
    if s.len() > 0 && s[0] == '+' {
        s.drop_first()
    } else {
        s
    }
}

/// An unsigned 64-bit number read from text: an optional `+`, then one or
/// more decimal digits whose value fits.
pub open spec fn parsed_u64(s: Seq<char>) -> Option<u64> {
    let d = unsigned_digits(s);
    if d.len() > 0 && all_digits(d) && decimal_value(d) <= u64::MAX {
        Some(decimal_value(d) as u64)
    } else {
        None
    }
}

proof fn lemma_value_grows(s: Seq<char>, k: int)
    requires
        all_digits(s),
        0 <= k <= s.len(),
    ensures
        decimal_value(s.subrange(0, k)) <= decimal_value(s),
    decreases s.len(),
{
    if k < s.len() {
        let t = s.drop_last();
        assert(all_digits(t));
        lemma_value_grows(t, k);
        assert(t.subrange(0, k) =~= s.subrange(0, k));
    } else {
        assert(s.subrange(0, k) =~= s);
    }
}

proof fn lemma_digit(k: nat)
    requires
        k < 10,
    ensures
        digit_value(decimal_chars()[k as int]) == k,
        is_digit(decimal_chars()[k as int]),
        decimal_chars()[k as int] != '+',
{
    if k == 0 {} else if k == 1 {} else if k == 2 {} else if k == 3 {} else if k == 4 {}
    else if k == 5 {} else if k == 6 {} else if k == 7 {} else if k == 8 {} else {}
}

proof fn lemma_decimal_text(n: nat)
    ensures
        decimal_text(n).len() > 0,
        all_digits(decimal_text(n)),
        decimal_text(n)[0] != '+',
        decimal_value(decimal_text(n)) == n,
    decreases n,
{
    lemma_digit(n % 10);
    assert(decimal_value(Seq::<char>::empty()) == 0);
    if n < 10 {
        assert(decimal_text(n).drop_last() =~= Seq::<char>::empty());
        assert(decimal_text(n).last() == decimal_chars()[n as int]);
    } else {
        lemma_decimal_text(n / 10);
        let t = decimal_text(n);
        assert(t.drop_last() =~= decimal_text(n / 10));
        assert(t.last() == decimal_chars()[(n % 10) as int]);
        assert(decimal_value(t) == decimal_value(decimal_text(n / 10)) * 10 + n % 10);
        assert(all_digits(t)) by {
            assert forall|i: int| 0 <= i < t.len() implies is_digit(#[trigger] t[i]) by {
                if i < t.len() - 1 {
                    assert(t[i] == decimal_text(n / 10)[i]);
                }
            }
        }
        assert(t[0] == decimal_text(n / 10)[0]);
    }
}

/// Reading back the decimal text of a number gives the number.
pub proof fn lemma_revision_text_round_trip(n: u64)
    ensures
        parsed_u64(decimal_text(n as nat)) == Some(n),
{
    lemma_decimal_text(n as nat);
}

fn write_decimal(n: u64, out: &mut String)
    ensures
        final(out)@ == old(out)@ + decimal_text(n as nat),
    decreases n,
{
    let digits = vec!['0', '1', '2', '3', '4', '5', '6', '7', '8', '9'];
    assert(digits@ == decimal_chars());
    if n >= 10 {
        write_decimal(n / 10, out);
    }
    let ghost mid = out@;
    push_char(out, digits[(n % 10) as usize]);
    proof {
        if n >= 10 {
            assert(out@ =~= old(out)@ + decimal_text(n as nat));
        } else {
            assert(out@ =~= old(out)@ + decimal_text(n as nat));
        }
    }
}

/// The decimal text under which a trusted revision is stored.
pub fn revision_text(revision: u64) -> (r: String)
    ensures
        r@ == decimal_text(revision as nat),
{
    let mut out = String::new();
    write_decimal(revision, &mut out);
    assert(out@ =~= decimal_text(revision as nat));
    out
}

/// Reads an unsigned 64-bit number from text.
pub fn parse_u64(s: &str) -> (r: Option<u64>)
    ensures
        r == parsed_u64(s@),
{
    let chars = chars_of(s);
    let n = chars.len();
    let start: usize = if n > 0 && chars[0] == '+' { 1 } else { 0 };
    let ghost d = unsigned_digits(s@);
    assert(d =~= s@.subrange(start as int, n as int));
    if start == n {
        return None;
    }
    let mut acc: u64 = 0;
    let mut i: usize = start;
    while i < n
        invariant
            chars@ == s@,
            n == s@.len(),
            start <= i <= n,
            start < n,
            d == unsigned_digits(s@),
            d == s@.subrange(start as int, n as int),
            all_digits(d.subrange(0, i - start)),
            acc as nat == decimal_value(d.subrange(0, i - start)),
        decreases n - i,
    {
        let c = chars[i];
        assert(d[i - start] == c);
        if !('0' <= c && c <= '9') {
            assert(!is_digit(d[i - start]));
            assert(!all_digits(d));
            return None;
        }
        assert(is_digit(c));
        let v: u64 = ((c as u32) - 48) as u64;
        assert(d.subrange(0, i + 1 - start).drop_last() =~= d.subrange(0, i - start));
        assert(d.subrange(0, i + 1 - start).last() == c);
        if acc > (u64::MAX - v) / 10 {
            proof {
                let p = d.subrange(0, i + 1 - start);
                assert(decimal_value(p) == acc * 10 + v);
                assert(decimal_value(p) > u64::MAX) by (nonlinear_arith)
                    requires acc > (u64::MAX - v) / 10, decimal_value(p) == acc * 10 + v, v <= 9;
                if all_digits(d) {
                    lemma_value_grows(d, i + 1 - start);
                    assert(decimal_value(d) > u64::MAX);
                }
                assert(parsed_u64(s@) is None);
            }
            return None;
        }
        assert(acc * 10 + v <= u64::MAX) by (nonlinear_arith)
            requires acc <= (u64::MAX - v) / 10, v <= 9;
        acc = acc * 10 + v;
        assert(all_digits(d.subrange(0, i + 1 - start))) by {
            let p = d.subrange(0, i + 1 - start);
            assert forall|j: int| 0 <= j < p.len() implies is_digit(#[trigger] p[j]) by {
                if j < p.len() - 1 {
                    assert(p[j] == d.subrange(0, i - start)[j]);
                }
            }
        }
        i += 1;
    }
    assert(d.subrange(0, n - start) =~= d);
    Some(acc)
}

/// Interprets the store's trusted-revision entry: absent, a number, or a
/// store failure (which includes text that is not a number).
pub fn load_trusted_revision(read: &StoreRead) -> (r: Result<Option<u64>, VaultError>)
    ensures
        match *read {
            StoreRead::Absent => r == Ok::<Option<u64>, VaultError>(None),
            StoreRead::Failed => r == Err::<Option<u64>, VaultError>(VaultError::ExternalStore),
            StoreRead::Present(s) => match parsed_u64(s@) {
                Some(v) => r == Ok::<Option<u64>, VaultError>(Some(v)),
                None => r == Err::<Option<u64>, VaultError>(VaultError::ExternalStore),
            },
        },
{
    match read {
        StoreRead::Absent => Ok(None),
        StoreRead::Failed => Err(VaultError::ExternalStore),
        StoreRead::Present(s) => match parse_u64(s.as_str()) {
            Some(v) => Ok(Some(v)),
            None => Err(VaultError::ExternalStore),
        },
    }
}

} // verus!
