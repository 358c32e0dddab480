//! Strings the contract works with: NEAR account ids and decimal numbers.

use vstd::prelude::*;

verus! {

/// `-`, `_` and `.` separate the parts of a NEAR account id.
pub open spec fn is_account_separator(c: char) -> bool {
    c == '-' || c == '_' || c == '.'
}

/// Lower-case ASCII letters, ASCII digits and the separators.
pub open spec fn is_account_char(c: char) -> bool {
    ||| ('a' as u32 <= c as u32 && c as u32 <= 'z' as u32)
    ||| ('0' as u32 <= c as u32 && c as u32 <= '9' as u32)
    ||| is_account_separator(c)
}

/// The rules a NEAR account id obeys: 2 to 64 characters from `is_account_char`,
/// neither starting nor ending with a separator, and no two separators in a row.
pub open spec fn near_account_id_rules(s: Seq<char>) -> bool {
    &&& 2 <= s.len() <= 64
    &&& forall|i: int| 0 <= i < s.len() ==> is_account_char(#[trigger] s[i])
    &&& !is_account_separator(s[0])
    &&& !is_account_separator(s.last())
    &&& forall|i: int|
        0 <= i < s.len() - 1 ==> !(is_account_separator(#[trigger] s[i]) && is_account_separator(
            s[i + 1],
        ))
}

/// Checks `s` as a NEAR account id with `near_sdk::AccountId::try_from` and hands
/// back the id's text. The contract claims that the conversion succeeds exactly on
/// the strings that obey `near_account_id_rules` (near-sdk's `is_valid_account_id`
/// checks the byte length, then each byte against those rules; a non-ASCII
/// character fails either way) and that the id keeps the string unchanged.
#[verifier::external_body]
pub(crate) fn checked_account_id(s: String) -> (r: Option<String>)
    ensures
        r is Some <==> near_account_id_rules(s@),
        r matches Some(t) ==> t@ == s@,
{
    match near_sdk::AccountId::try_from(s) {
        Ok(id) => Some(String::from(id)),
        Err(_) => None,
    }
}

/// Whether two strings hold the same characters.
pub fn str_eq(a: &str, b: &str) -> (r: bool)
    ensures
        r == (a@ == b@),
{
    let n = a.unicode_len();
    if n != b.unicode_len() {
        return false;
    }
    let mut i: usize = 0;
    while i < n
        invariant
            n == a@.len(),
            n == b@.len(),
            i <= n,
            forall|j: int| 0 <= j < i ==> a@[j] == b@[j],
        decreases n - i,
    {
        if a.get_char(i) != b.get_char(i) {
            return false;
        }
        i = i + 1;
    }
    assert(a@ =~= b@);
    true
}

/// The character of a decimal digit.
pub open spec fn digit_char(d: nat) -> char
    recommends
        d < 10,
{
    if d == 0 {
        '0'
    } else if d == 1 {
        '1'
    } else if d == 2 {
        '2'
    } else if d == 3 {
        '3'
    } else if d == 4 {
        '4'
    } else if d == 5 {
        '5'
    } else if d == 6 {
        '6'
    } else if d == 7 {
        '7'
    } else if d == 8 {
        '8'
    } else {
        '9'
    }
}

/// The decimal notation of `n`, without leading zeros.
pub open spec fn decimal(n: nat) -> Seq<char>
    decreases n,
{
    if n < 10 {
        seq![digit_char(n)]
    } else {
        decimal(n / 10).push(digit_char(n % 10))
    }
}

fn digit_str(d: u64) -> (s: &'static str)
    requires
        d < 10,
    ensures
        s@ == seq![digit_char(d as nat)],
{
    if d == 0 {
        proof { reveal_strlit("0"); }
        "0"
    } else if d == 1 {
        proof { reveal_strlit("1"); }
        "1"
    } else if d == 2 {
        proof { reveal_strlit("2"); }
        "2"
    } else if d == 3 {
        proof { reveal_strlit("3"); }
        "3"
    } else if d == 4 {
        proof { reveal_strlit("4"); }
        "4"
    } else if d == 5 {
        proof { reveal_strlit("5"); }
        "5"
    } else if d == 6 {
        proof { reveal_strlit("6"); }
        "6"
    } else if d == 7 {
        proof { reveal_strlit("7"); }
        "7"
    } else if d == 8 {
        proof { reveal_strlit("8"); }
        "8"
    } else {
        proof { reveal_strlit("9"); }
        "9"
    }
}

/// Appends the decimal notation of `n` to `s`.
pub fn push_decimal(s: &mut String, n: u64)
    ensures
        final(s)@ == old(s)@ + decimal(n as nat),
    decreases n,
{
    if n >= 10 {
        push_decimal(s, n / 10);
    }
    s.append(digit_str(n % 10));
    proof {
        if n >= 10 {
            assert(decimal(n as nat) == decimal((n / 10) as nat).push(digit_char((n % 10) as nat)));
        }
    }
}

} // verus!
