//! Fresh random values: client ids, connection codes and passwords.
use vstd::prelude::*;
use vstd::string::*;

use crate::signaling::model::is_digits;

verus! {

/// A random decimal digit.
///
/// Calls `rand::random_range(0..10)`, which draws uniformly from the range
/// with the thread-local generator; all that is claimed is that the value
/// lies in the range. `rand` documents a panic if seeding the thread-local
/// generator from the system fails; that case is not excluded here.
#[verifier::external_body]
fn random_digit() -> (d: u32)
    ensures
        d < 10,
{
    rand::random_range(0..10u32)
}

/// Appends the decimal digit `d` to `s`.
fn push_digit(s: &mut String, d: u32)
    requires
        d < 10,
    ensures
        final(s)@ == old(s)@.push(((48 + d) as char)),
{
    proof {
        reveal_strlit("0");
        reveal_strlit("1");
        reveal_strlit("2");
        reveal_strlit("3");
        reveal_strlit("4");
        reveal_strlit("5");
        reveal_strlit("6");
        reveal_strlit("7");
        reveal_strlit("8");
        reveal_strlit("9");
    }
    let ghost s0 = s@;
    match d {
        0 => s.append("0"),
        1 => s.append("1"),
        2 => s.append("2"),
        3 => s.append("3"),
        4 => s.append("4"),
        5 => s.append("5"),
        6 => s.append("6"),
        7 => s.append("7"),
        8 => s.append("8"),
        _ => s.append("9"),
    }
    assert(s@ =~= s0.push(((48 + d) as char)));
}

/// A string of `n` random decimal digits.
pub fn random_digits(n: usize) -> (r: String)
    ensures
        is_digits(r@, n as nat),
{
    let mut s = String::new();
    let mut i: usize = 0;
    while i < n
        invariant
            i <= n,
            is_digits(s@, i as nat),
        decreases n - i,
    {
        let d: u32 = random_digit();
        push_digit(&mut s, d);
        i = i + 1;
    }
    s
}

/// `c` is a lower-case hexadecimal digit.
pub open spec fn is_lower_hex(c: char) -> bool {
    ('0' <= c <= '9') || ('a' <= c <= 'f')
}

/// `s` is a UUID in its hyphenated lower-case text form:
/// five groups of 8, 4, 4, 4 and 12 hex digits separated by hyphens.
pub open spec fn is_uuid_text(s: Seq<char>) -> bool {
    &&& s.len() == 36
    &&& forall|i: int|
        0 <= i < 36 ==> if i == 8 || i == 13 || i == 18 || i == 23 {
            #[trigger] s[i] == '-'
        } else {
            is_lower_hex(s[i])
        }
}

/// A fresh random client id.
///
/// Calls `uuid::Uuid::new_v4` and formats it with `to_string`, whose
/// `Display` writes the hyphenated lower-case form. The value is random;
/// that it differs from every id handed out before is not claimed.
#[verifier::external_body]
pub(crate) fn new_client_id() -> (id: String)
    ensures
        is_uuid_text(id@),
{
    uuid::Uuid::new_v4().to_string()
}

} // verus!
