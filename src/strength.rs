use vstd::prelude::*;
use vstd::string::StringSliceAdditionalSpecFns;

verus! {

/// A password's strength, for display: a label and a level from 1 to 4.
#[derive(Debug, Clone)]
pub struct StatusStrength {
    pub label: String,
    pub level: u8,
}

/// Why a new master passphrase is refused.
#[derive(Debug, Clone, Copy, PartialEq, Eq, Structural)]
pub enum PassphraseIssue {
    TooShort,
    NoUppercase,
    NoDigit,
    NoSpecial,
}

impl PassphraseIssue {
    /// The message shown for each reason.
    pub open spec fn text(self) -> Seq<char> {
        match self {
            PassphraseIssue::TooShort => "Password should be at least 8 characters."@,
            PassphraseIssue::NoUppercase => "Password should include at least one uppercase letter."@,
            PassphraseIssue::NoDigit => "Password should include at least one number."@,
            PassphraseIssue::NoSpecial => "Password should include at least one special character."@,
        }
    }

    pub fn message(&self) -> (r: String)
        ensures
            r@ == self.text(),
    {
        match self {
            PassphraseIssue::TooShort => String::from_str("Password should be at least 8 characters."),
            PassphraseIssue::NoUppercase => String::from_str("Password should include at least one uppercase letter."),
            PassphraseIssue::NoDigit => String::from_str("Password should include at least one number."),
            PassphraseIssue::NoSpecial => String::from_str("Password should include at least one special character."),
        }
    }
}

pub open spec fn ascii_lower(c: char) -> bool {
    'a' <= c && c <= 'z'
}

pub open spec fn ascii_upper(c: char) -> bool {
    'A' <= c && c <= 'Z'
}

pub open spec fn ascii_digit(c: char) -> bool {
    '0' <= c && c <= '9'
}

/// Characters with the Unicode White_Space property.
pub open spec fn unicode_whitespace(c: char) -> bool {
    let u = c as u32;
    (0x09 <= u && u <= 0x0D) || u == 0x20 || u == 0x85 || u == 0xA0 || u == 0x1680 || (0x2000 <= u && u <= 0x200A)
        || u == 0x2028 || u == 0x2029 || u == 0x202F || u == 0x205F || u == 0x3000
}

/// Whether a character is alphabetic or numeric in Unicode's sense.
pub uninterp spec fn unicode_alphanumeric(c: char) -> bool;

/// Relies on std's `char::is_alphanumeric`: Unicode Alphabetic or Numeric,
/// which includes the ASCII letters and digits.
#[verifier::external_body]
fn is_alphanumeric(c: char) -> (r: bool)
    ensures
        r == unicode_alphanumeric(c),
        (ascii_lower(c) || ascii_upper(c) || ascii_digit(c)) ==> r,
{
    c.is_alphanumeric()
}

fn is_whitespace(c: char) -> (r: bool)
    ensures
        r == unicode_whitespace(c),
{
    let u = c as u32;
    (0x09 <= u && u <= 0x0D) || u == 0x20 || u == 0x85 || u == 0xA0 || u == 0x1680 || (0x2000 <= u && u <= 0x200A)
        || u == 0x2028 || u == 0x2029 || u == 0x202F || u == 0x205F || u == 0x3000
}

pub open spec fn any_char(p: Seq<char>, f: spec_fn(char) -> bool) -> bool {
    exists|i: int| 0 <= i < p.len() && f(#[trigger] p[i])
}

pub open spec fn strength_special(c: char) -> bool {
    !(ascii_lower(c) || ascii_upper(c) || ascii_digit(c)) && !unicode_whitespace(c)
}

pub open spec fn passphrase_special(c: char) -> bool {
    !unicode_alphanumeric(c) && !unicode_whitespace(c)
}

/// The rule for a new master passphrase: at least 8 bytes, an upper-case
/// letter, a digit and a character that is neither alphanumeric nor
/// whitespace, checked in that order.
pub open spec fn passphrase_verdict(p: &str) -> Result<(), PassphraseIssue> {
    if p.spec_bytes().len() < 8 {
        Err(PassphraseIssue::TooShort)
    } else if !any_char(p@, |c: char| ascii_upper(c)) {
        Err(PassphraseIssue::NoUppercase)
    } else if !any_char(p@, |c: char| ascii_digit(c)) {
        Err(PassphraseIssue::NoDigit)
    } else if !any_char(p@, |c: char| passphrase_special(c)) {
        Err(PassphraseIssue::NoSpecial)
    } else {
        Ok(())
    }
}

/// Checks a new master passphrase against the rule.
pub fn validate_master_passphrase(passphrase: &str) -> (r: Result<(), PassphraseIssue>)
    ensures
        r == passphrase_verdict(passphrase),
{
    if passphrase.as_bytes().len() < 8 {
        return Err(PassphraseIssue::TooShort);
    }
    let n = passphrase.unicode_len();
    let mut upper = false;
    let mut digit = false;
    let mut special = false;
    let mut i: usize = 0;
    while i < n
        invariant
            n == passphrase@.len(),
            i <= n,
            upper == exists|j: int| 0 <= j < i && ascii_upper(#[trigger] passphrase@[j]),
            digit == exists|j: int| 0 <= j < i && ascii_digit(#[trigger] passphrase@[j]),
            special == exists|j: int| 0 <= j < i && passphrase_special(#[trigger] passphrase@[j]),
        decreases n - i,
    {
        let c = passphrase.get_char(i);
        if 'A' <= c && c <= 'Z' {
            upper = true;
        }
        if '0' <= c && c <= '9' {
            digit = true;
        }
        if !is_alphanumeric(c) && !is_whitespace(c) {
            special = true;
        }
        i += 1;
    }
    if !upper {
        return Err(PassphraseIssue::NoUppercase);
    }
    if !digit {
        return Err(PassphraseIssue::NoDigit);
    }
    if !special {
        return Err(PassphraseIssue::NoSpecial);
    }
    Ok(())
}

pub open spec fn flag(b: bool) -> nat {
    if b { 1 } else { 0 }
}

/// The strength score: one point for each class present (lower, upper,
/// digit, other non-space) and one for each length step of 8, 12, 16, 20.
pub open spec fn strength_score(p: Seq<char>) -> nat {
    flag(any_char(p, |c: char| ascii_lower(c))) + flag(any_char(p, |c: char| ascii_upper(c)))
        + flag(any_char(p, |c: char| ascii_digit(c))) + flag(any_char(p, |c: char| strength_special(c)))
        + flag(p.len() >= 8) + flag(p.len() >= 12) + flag(p.len() >= 16) + flag(p.len() >= 20)
}

pub open spec fn strength_level(p: Seq<char>) -> u8 {
    if p.len() < 8 {
        1
    } else if strength_score(p) <= 3 {
        1
    } else if strength_score(p) <= 5 {
        2
    } else if strength_score(p) <= 7 {
        3
    } else {
        4
    }
}

pub open spec fn level_label(level: u8) -> Seq<char> {
    if level == 1 {
        "Weak"@
    } else if level == 2 {
        "Average"@
    } else if level == 3 {
        "Strong"@
    } else {
        "Excellent"@
    }
}

/// Rates a password for display.
pub fn classify_password_strength(password: &str) -> (r: StatusStrength)
    ensures
        r.level == strength_level(password@),
        r.label@ == level_label(r.level),
{
    let n = password.unicode_len();
    let mut lower = false;
    let mut upper = false;
    let mut digit = false;
    let mut special = false;
    let mut i: usize = 0;
    while i < n
        invariant
            n == password@.len(),
            i <= n,
            lower == exists|j: int| 0 <= j < i && ascii_lower(#[trigger] password@[j]),
            upper == exists|j: int| 0 <= j < i && ascii_upper(#[trigger] password@[j]),
            digit == exists|j: int| 0 <= j < i && ascii_digit(#[trigger] password@[j]),
            special == exists|j: int| 0 <= j < i && strength_special(#[trigger] password@[j]),
        decreases n - i,
    {
        let c = password.get_char(i);
        let is_l = 'a' <= c && c <= 'z';
        let is_u = 'A' <= c && c <= 'Z';
        let is_d = '0' <= c && c <= '9';
        if is_l {
            lower = true;
        }
        if is_u {
            upper = true;
        }
        if is_d {
            digit = true;
        }
        if !(is_l || is_u || is_d) && !is_whitespace(c) {
            special = true;
        }
        i += 1;
    }
    let mut score: u8 = 0;
    if lower { score += 1; }
    if upper { score += 1; }
    if digit { score += 1; }
    if special { score += 1; }
    if n >= 8 { score += 1; }
    if n >= 12 { score += 1; }
    if n >= 16 { score += 1; }
    if n >= 20 { score += 1; }
    assert(score as nat == strength_score(password@));
    let level: u8 = if n < 8 { 1 } else if score <= 3 { 1 } else if score <= 5 { 2 } else if score <= 7 { 3 } else { 4 };
    let label = if level == 1 {
        String::from_str("Weak")
    } else if level == 2 {
        String::from_str("Average")
    } else if level == 3 {
        String::from_str("Strong")
    } else {
        String::from_str("Excellent")
    };
    StatusStrength { label, level }
}

} // verus!
