use vstd::prelude::*;
use vstd::string::*;

verus! {

/// One level of indentation in emitted code.
pub open spec fn indent() -> Seq<char> {
    "    "@
}

pub open spec fn digit_char(d: nat) -> char {
    if d == 0 {
        '0'
    } else if d == 1 {
        '1'
    } else if d == 2 {
        '2'
    } else if d == 3 {
        '3'
    } else if d == 4 {
        '4'
    } else if d == 5 {
        '5'
    } else if d == 6 {
        '6'
    } else if d == 7 {
        '7'
    } else if d == 8 {
        '8'
    } else {
        '9'
    }
}

/// The decimal spelling of `n`, without leading zeros.
pub open spec fn decimal(n: nat) -> Seq<char>
    decreases n,
{
    if n < 10 {
        seq![digit_char(n)]
    } else {
        decimal(n / 10).push(digit_char(n % 10))
    }
}

fn digit_str(d: usize) -> (r: &'static str)
    requires
        d < 10,
    ensures
        r@ == seq![digit_char(d as nat)],
{
    proof {
        reveal_strlit("0");
        reveal_strlit("1");
        reveal_strlit("2");
        reveal_strlit("3");
        reveal_strlit("4");
        reveal_strlit("5");
        reveal_strlit("6");
        reveal_strlit("7");
        reveal_strlit("8");
        reveal_strlit("9");
    }
    if d == 0 {
        "0"
    } else if d == 1 {
        "1"
    } else if d == 2 {
        "2"
    } else if d == 3 {
        "3"
    } else if d == 4 {
        "4"
    } else if d == 5 {
        "5"
    } else if d == 6 {
        "6"
    } else if d == 7 {
        "7"
    } else if d == 8 {
        "8"
    } else {
        "9"
    }
}

pub fn decimal_string(n: usize) -> (r: String)
    ensures
        r@ == decimal(n as nat),
    decreases n,
{
    if n < 10 {
        let r = String::from_str(digit_str(n));
        r
    } else {
        let mut r = decimal_string(n / 10);
        r.append(digit_str(n % 10));
        proof {
            assert(r@ =~= decimal(n as nat));
        }
        r
    }
}

/// `k` levels of indentation.
pub open spec fn indents(k: nat) -> Seq<char>
    decreases k,
{
    if k == 0 {
        Seq::empty()
    } else {
        indents((k - 1) as nat) + indent()
    }
}

/// Appends `indentations` levels of indentation.
pub fn write_indents(indentations: usize, buf: &mut String)
    ensures
        final(buf)@ == old(buf)@ + indents(indentations as nat),
{
    let mut i: usize = 0;
    while i < indentations
        invariant
            i <= indentations,
            buf@ == old(buf)@ + indents(i as nat),
        decreases indentations - i,
    {
        buf.append("    ");
        i = i + 1;
        proof {
            assert(buf@ =~= old(buf)@ + indents(i as nat));
        }
    }
    proof {
        assert(buf@ =~= old(buf)@ + indents(indentations as nat));
    }
}

} // verus!
