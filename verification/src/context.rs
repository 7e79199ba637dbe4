//! What the code generator knows of the place it works for, and the names it gives
//! to temporaries.

use crate::ast::Span;
use vstd::prelude::*;

verus! {

/// The place in the host program for which code is generated.
#[derive(Debug, PartialEq, Eq, Hash)]
pub struct Context {
    /// Where the assembly was written. Nodes that stand for no piece of it get this span.
    pub call_site: Span,
    /// How many temporaries were named so far.
    pub temporaries: u64,
}

/// The decimal digit for `d`.
pub open spec fn digit(d: nat) -> char {
    if d == 0 {
        '0'
    } else if d == 1 {
        '1'
    } else if d == 2 {
        '2'
    } else if d == 3 {
        '3'
    } else if d == 4 {
        '4'
    } else if d == 5 {
        '5'
    } else if d == 6 {
        '6'
    } else if d == 7 {
        '7'
    } else if d == 8 {
        '8'
    } else {
        '9'
    }
}

/// `n` in decimal, without leading zeros.
pub open spec fn decimal(n: nat) -> Seq<char>
    decreases n,
{
    if n < 10 {
        seq![digit(n)]
    } else {
        decimal(n / 10).push(digit(n % 10))
    }
}

/// The name of temporary number `k`: `temp` for the first one, then `temp1`,
/// `temp2` and so on.
pub open spec fn temp_name(k: nat) -> Seq<char> {
    if k == 0 {
        "temp"@
    } else {
        "temp"@ + decimal(k)
    }
}

/// A number in decimal has at least one digit.
proof fn lemma_decimal_len(n: nat)
    ensures
        decimal(n).len() >= 1,
        n >= 10 ==> decimal(n).len() >= 2,
    decreases n,
{
    if n >= 10 {
        lemma_decimal_len(n / 10);
    }
}

/// Different numbers are written differently.
proof fn lemma_decimal_injective(a: nat, b: nat)
    requires
        decimal(a) == decimal(b),
    ensures
        a == b,
    decreases a,
{
    lemma_decimal_len(a);
    lemma_decimal_len(b);
    if a < 10 {
        assert(decimal(a)[0] == digit(a));
        assert(decimal(b)[0] == digit(b));
    } else {
        let da = decimal(a / 10);
        let db = decimal(b / 10);
        assert(decimal(a).last() == digit(a % 10));
        assert(decimal(b).last() == digit(b % 10));
        assert(decimal(a).drop_last() =~= da);
        assert(decimal(b).drop_last() =~= db);
        lemma_decimal_injective(a / 10, b / 10);
    }
}

/// No two temporaries have the same name.
pub proof fn lemma_temp_names_differ(j: nat, k: nat)
    requires
        j != k,
    ensures
        temp_name(j) != temp_name(k),
{
    let stem = "temp"@;
    if temp_name(j) == temp_name(k) {
        lemma_decimal_len(j);
        lemma_decimal_len(k);
        if j != 0 && k != 0 {
            assert((stem + decimal(j)).skip(stem.len() as int) =~= decimal(j));
            assert((stem + decimal(k)).skip(stem.len() as int) =~= decimal(k));
            lemma_decimal_injective(j, k);
        } else if j == 0 {
            assert((stem + decimal(k)).len() == stem.len() + decimal(k).len());
        } else {
            assert((stem + decimal(j)).len() == stem.len() + decimal(j).len());
        }
    }
}

/// The digit for `d` as a string.
fn digit_str(d: u64) -> (s: &'static str)
    requires
        d < 10,
    ensures
        s@ == seq![digit(d as nat)],
{
    proof {
        reveal_strlit("0");
        reveal_strlit("1");
        reveal_strlit("2");
        reveal_strlit("3");
        reveal_strlit("4");
        reveal_strlit("5");
        reveal_strlit("6");
        reveal_strlit("7");
        reveal_strlit("8");
        reveal_strlit("9");
    }
    let s = if d == 0 {
        "0"
    } else if d == 1 {
        "1"
    } else if d == 2 {
        "2"
    } else if d == 3 {
        "3"
    } else if d == 4 {
        "4"
    } else if d == 5 {
        "5"
    } else if d == 6 {
        "6"
    } else if d == 7 {
        "7"
    } else if d == 8 {
        "8"
    } else {
        "9"
    };
    assert(s@ =~= seq![digit(d as nat)]);
    s
}

/// Appends `n` in decimal to `text`.
fn push_decimal(text: &mut String, n: u64)
    ensures
        final(text)@ == old(text)@ + decimal(n as nat),
    decreases n,
{
    if n >= 10 {
        push_decimal(text, n / 10);
    }
    text.append(digit_str(n % 10));
    assert(text@ =~= old(text)@ + decimal(n as nat));
}

impl Context {
    /// A context in which no temporary was named yet.
    pub fn new(call_site: Span) -> (cx: Context)
        ensures
            cx.call_site == call_site,
            cx.temporaries == 0,
    {
        Context { call_site, temporaries: 0 }
    }

    /// Whether another temporary can be named.
    pub fn has_fresh_temp(&self) -> (b: bool)
        ensures
            b == (self.temporaries < u64::MAX),
    {
        self.temporaries < u64::MAX
    }

    /// A name that no earlier call on this context has returned.
    pub fn fresh_temp(&mut self) -> (name: String)
        requires
            old(self).temporaries < u64::MAX,
        ensures
            name@ == temp_name(old(self).temporaries as nat),
            final(self).temporaries == old(self).temporaries + 1,
            final(self).call_site == old(self).call_site,
    {
        let mut name = String::from_str("temp");
        if self.temporaries > 0 {
            push_decimal(&mut name, self.temporaries);
        }
        self.temporaries = self.temporaries + 1;
        name
    }
}

} // verus!
