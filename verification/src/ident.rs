//! Interned names. Equality and environment lookup go by name content.

use vstd::prelude::*;

verus! {

use vstd::string::StringExecFns;
use crate::Dup;

/// An interned name; two idents are equal exactly when their text is equal.
#[derive(Debug, Eq, Hash)]
pub struct Ident(pub String);

impl View for Ident {
    type V = Seq<char>;

    open spec fn view(&self) -> Seq<char> {
        self.0@
    }
}

impl PartialEq for Ident {
    fn eq(&self, other: &Ident) -> (r: bool) {
        self.0 == other.0
    }
}

impl vstd::std_specs::cmp::PartialEqSpecImpl for Ident {
    open spec fn obeys_eq_spec() -> bool {
        true
    }

    open spec fn eq_spec(&self, other: &Ident) -> bool {
        self.0@ == other.0@
    }
}

impl Dup for Ident {
    fn dup(&self) -> (r: Self)
        ensures
            r@ == self@,
    {
        Ident(self.0.clone())
    }
}

/// The decimal digit character for `d` (meaningful for `d < 10`).
pub open spec fn digit_char(d: u64) -> char {
    if d == 0 {
        '0'
    } else if d == 1 {
        '1'
    } else if d == 2 {
        '2'
    } else if d == 3 {
        '3'
    } else if d == 4 {
        '4'
    } else if d == 5 {
        '5'
    } else if d == 6 {
        '6'
    } else if d == 7 {
        '7'
    } else if d == 8 {
        '8'
    } else {
        '9'
    }
}

/// The decimal digits of `n`, most significant first, no leading zeros
/// (except for `n == 0`, which is the single digit `0`).
pub open spec fn dec_digits(n: u64) -> Seq<char>
    decreases n,
{
    if n < 10 {
        seq![digit_char(n)]
    } else {
        dec_digits(n / 10).push(digit_char(n % 10))
    }
}

/// Appends the decimal digits of `n` to `s`.
fn push_dec(s: &mut String, n: u64)
    ensures
        final(s)@ == old(s)@ + dec_digits(n),
    decreases n,
{
    if n >= 10 {
        push_dec(s, n / 10);
    }
    let d: u64 = n % 10;
    let c: &str = if d == 0 {
        "0"
    } else if d == 1 {
        "1"
    } else if d == 2 {
        "2"
    } else if d == 3 {
        "3"
    } else if d == 4 {
        "4"
    } else if d == 5 {
        "5"
    } else if d == 6 {
        "6"
    } else if d == 7 {
        "7"
    } else if d == 8 {
        "8"
    } else {
        "9"
    };
    proof {
        reveal_strlit("0");
        reveal_strlit("1");
        reveal_strlit("2");
        reveal_strlit("3");
        reveal_strlit("4");
        reveal_strlit("5");
        reveal_strlit("6");
        reveal_strlit("7");
        reveal_strlit("8");
        reveal_strlit("9");
        assert(c@ =~= seq![digit_char(d)]);
    }
    s.append(c);
    proof {
        if n < 10 {
            assert(old(s)@ + dec_digits(n) =~= final(s)@);
        } else {
            assert(old(s)@ + dec_digits(n) =~= final(s)@);
        }
    }
}

impl Ident {
    /// Makes an ident from the given text.
    pub fn new(name: &str) -> (r: Ident)
        ensures
            r@ == name@,
    {
        Ident(name.to_owned())
    }

    /// A name of the shape `tuple<counter>`, used by auxiliary passes to coin
    /// fresh names; the caller supplies (and advances) the counter.
    pub fn fresh_tuple_name(counter: u64) -> (r: Ident)
        ensures
            r@ == "tuple"@ + dec_digits(counter),
    {
        let mut s = String::from_str("tuple");
        push_dec(&mut s, counter);
        Ident(s)
    }
}

} // verus!
