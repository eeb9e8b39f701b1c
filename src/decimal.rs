use vstd::prelude::*;

verus! {

/// The character of a decimal digit.
pub open spec fn digit_char(d: nat) -> char {
    if d == 0 {
        '0'
    } else if d == 1 {
        '1'
    } else if d == 2 {
        '2'
    } else if d == 3 {
        '3'
    } else if d == 4 {
        '4'
    } else if d == 5 {
        '5'
    } else if d == 6 {
        '6'
    } else if d == 7 {
        '7'
    } else if d == 8 {
        '8'
    } else {
        '9'
    }
}

/// The digits of `n` in base ten, most significant first, without leading zeros.
pub open spec fn digits(n: nat) -> Seq<char>
    decreases n,
{
    if n < 10 {
        seq![digit_char(n)]
    } else {
        digits(n / 10).push(digit_char(n % 10))
    }
}

/// The decimal numeral of `n`, with a leading `-` when it is negative.
pub open spec fn decimal(n: int) -> Seq<char> {
    if n < 0 {
        seq!['-'] + digits((-n) as nat)
    } else {
        digits(n as nat)
    }
}

fn digit_str(d: u64) -> (r: &'static str)
    requires
        d < 10,
    ensures
        r@ == seq![digit_char(d as nat)],
{
    proof {
        reveal_strlit("0");
        reveal_strlit("1");
        reveal_strlit("2");
        reveal_strlit("3");
        reveal_strlit("4");
        reveal_strlit("5");
        reveal_strlit("6");
        reveal_strlit("7");
        reveal_strlit("8");
        reveal_strlit("9");
    }
    if d == 0 {
        "0"
    } else if d == 1 {
        "1"
    } else if d == 2 {
        "2"
    } else if d == 3 {
        "3"
    } else if d == 4 {
        "4"
    } else if d == 5 {
        "5"
    } else if d == 6 {
        "6"
    } else if d == 7 {
        "7"
    } else if d == 8 {
        "8"
    } else {
        "9"
    }
}

fn append_digits(out: &mut String, n: u64)
    ensures
        final(out)@ == old(out)@ + digits(n as nat),
    decreases n,
{
    if n >= 10 {
        append_digits(out, n / 10);
    }
    out.append(digit_str(n % 10));
    proof {
        if n >= 10 {
            assert(old(out)@ + digits(n as nat) =~= old(out)@ + digits((n / 10) as nat) + seq![
                digit_char((n % 10) as nat),
            ]);
        } else {
            assert(digits(n as nat) == seq![digit_char(n as nat)]);
        }
    }
}

/// Renders `n` as a decimal numeral.
pub fn decimal_string(n: i64) -> (r: String)
    ensures
        r@ == decimal(n as int),
{
    proof {
        reveal_strlit("");
        reveal_strlit("-");
    }
    if n < 0 {
        let mut out = String::from_str("-");
        let magnitude: u64 = (-(n as i128)) as u64;
        append_digits(&mut out, magnitude);
        out
    } else {
        let mut out = String::from_str("");
        append_digits(&mut out, n as u64);
        assert(out@ =~= decimal(n as int));
        out
    }
}

} // verus!
