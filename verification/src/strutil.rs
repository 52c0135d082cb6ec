//! Small verified helpers on strings and identifiers that the rest of the
//! library shares: character-exact string comparison, decimal rendering of
//! identifiers for error messages, and cloning of optional strings.

use vstd::prelude::*;

verus! {

/// Compares two string slices character by character.
pub fn str_eq(a: &str, b: &str) -> (r: bool)
    ensures
        r == (a@ == b@),
{
    let n = a.unicode_len();
    if n != b.unicode_len() {
        return false;
    }
    let mut i: usize = 0;
    while i < n
        invariant
            n == a@.len(),
            n == b@.len(),
            0 <= i <= n,
            forall|k: int| 0 <= k < i ==> a@[k] == b@[k],
        decreases n - i,
    {
        if a.get_char(i) != b.get_char(i) {
            return false;
        }
        i += 1;
    }
    proof {
        assert(a@ =~= b@);
    }
    true
}

/// The decimal digit character for a value below ten.
pub open spec fn digit_char(d: int) -> char {
    if d == 0 {
        '0'
    } else if d == 1 {
        '1'
    } else if d == 2 {
        '2'
    } else if d == 3 {
        '3'
    } else if d == 4 {
        '4'
    } else if d == 5 {
        '5'
    } else if d == 6 {
        '6'
    } else if d == 7 {
        '7'
    } else if d == 8 {
        '8'
    } else {
        '9'
    }
}

/// The decimal rendering of a number, most significant digit first.
pub open spec fn dec_digits(n: int) -> Seq<char>
    decreases n,
{
    if n < 10 {
        seq![digit_char(n)]
    } else {
        dec_digits(n / 10).push(digit_char(n % 10))
    }
}

fn digit_str(d: u128) -> (r: &'static str)
    requires
        d < 10,
    ensures
        r@ == seq![digit_char(d as int)],
{
    proof {
        reveal_strlit("0");
        reveal_strlit("1");
        reveal_strlit("2");
        reveal_strlit("3");
        reveal_strlit("4");
        reveal_strlit("5");
        reveal_strlit("6");
        reveal_strlit("7");
        reveal_strlit("8");
        reveal_strlit("9");
    }
    if d == 0 {
        "0"
    } else if d == 1 {
        "1"
    } else if d == 2 {
        "2"
    } else if d == 3 {
        "3"
    } else if d == 4 {
        "4"
    } else if d == 5 {
        "5"
    } else if d == 6 {
        "6"
    } else if d == 7 {
        "7"
    } else if d == 8 {
        "8"
    } else {
        "9"
    }
}

/// Renders an identifier in decimal, for use in error messages.
pub fn dec_string(n: u128) -> (s: String)
    ensures
        s@ == dec_digits(n as int),
    decreases n,
{
    if n < 10 {
        digit_str(n).to_owned()
    } else {
        let mut s = dec_string(n / 10);
        s.append(digit_str(n % 10));
        s
    }
}

/// Builds a message of the shape `prefix id suffix`.
pub fn msg_id(prefix: &str, id: u128, suffix: &str) -> (m: String)
    ensures
        m@ == prefix@ + dec_digits(id as int) + suffix@,
{
    let mut m = prefix.to_owned();
    m.append(dec_string(id).as_str());
    m.append(suffix);
    m
}

/// Builds a message of the shape `prefix a mid b`.
pub fn msg_id_id(prefix: &str, a: u128, mid: &str, b: u128) -> (m: String)
    ensures
        m@ == prefix@ + dec_digits(a as int) + mid@ + dec_digits(b as int),
{
    let mut m = prefix.to_owned();
    m.append(dec_string(a).as_str());
    m.append(mid);
    m.append(dec_string(b).as_str());
    m
}

/// Builds a message of the shape `prefix text suffix`.
pub fn msg_str(prefix: &str, text: &str, suffix: &str) -> (m: String)
    ensures
        m@ == prefix@ + text@ + suffix@,
{
    let mut m = prefix.to_owned();
    m.append(text);
    m.append(suffix);
    m
}

/// Clones an optional string, keeping the exact value.
pub fn clone_opt_string(o: &Option<String>) -> (r: Option<String>)
    ensures
        r == *o,
{
    match o {
        None => None,
        Some(s) => Some(s.clone()),
    }
}

/// Copies a vector of identifiers, keeping the exact contents.
pub fn clone_ids(v: &Vec<u128>) -> (r: Vec<u128>)
    ensures
        r@ == v@,
{
    let mut r: Vec<u128> = Vec::new();
    let mut i: usize = 0;
    while i < v.len()
        invariant
            0 <= i <= v@.len(),
            r@ == v@.subrange(0, i as int),
        decreases v@.len() - i,
    {
        r.push(v[i]);
        proof {
            assert(r@ =~= v@.subrange(0, i + 1 as int));
        }
        i += 1;
    }
    proof {
        assert(r@ =~= v@);
    }
    r
}

/// Clones an optional identifier list, keeping the same view.
pub fn clone_opt_ids(o: &Option<Vec<u128>>) -> (r: Option<Vec<u128>>)
    ensures
        match o {
            None => r is None,
            Some(v) => r is Some && r->0@ == v@,
        },
{
    match o {
        None => None,
        Some(v) => Some(clone_ids(v)),
    }
}

} // verus!
