use vstd::prelude::*;

verus! {

/// The decimal digit character for a value below ten.
pub open spec fn spec_digit_char(d: int) -> char {
    if d == 0 {
        '0'
    } else if d == 1 {
        '1'
    } else if d == 2 {
        '2'
    } else if d == 3 {
        '3'
    } else if d == 4 {
        '4'
    } else if d == 5 {
        '5'
    } else if d == 6 {
        '6'
    } else if d == 7 {
        '7'
    } else if d == 8 {
        '8'
    } else {
        '9'
    }
}

/// The decimal numeral of a non-negative number, most significant digit
/// first, with no leading zero except for zero itself.
pub open spec fn spec_unsigned_decimal(n: nat) -> Seq<char>
    decreases n,
{
    if n < 10 {
        seq![spec_digit_char(n as int)]
    } else {
        spec_unsigned_decimal(n / 10).push(spec_digit_char((n % 10) as int))
    }
}

/// The decimal numeral of a number, with a leading minus sign when it is
/// negative.
pub open spec fn spec_signed_decimal(n: int) -> Seq<char> {
    if n < 0 {
        seq!['-'] + spec_unsigned_decimal((-n) as nat)
    } else {
        spec_unsigned_decimal(n as nat)
    }
}

fn digit_str(d: u64) -> (r: &'static str)
    requires
        d < 10,
    ensures
        r@ == seq![spec_digit_char(d as int)],
{
    proof {
        reveal_strlit("0");
        reveal_strlit("1");
        reveal_strlit("2");
        reveal_strlit("3");
        reveal_strlit("4");
        reveal_strlit("5");
        reveal_strlit("6");
        reveal_strlit("7");
        reveal_strlit("8");
        reveal_strlit("9");
    }
    if d == 0 {
        proof {
            assert("0"@ =~= seq![spec_digit_char(d as int)]);
        }
        "0"
    } else if d == 1 {
        proof {
            assert("1"@ =~= seq![spec_digit_char(d as int)]);
        }
        "1"
    } else if d == 2 {
        proof {
            assert("2"@ =~= seq![spec_digit_char(d as int)]);
        }
        "2"
    } else if d == 3 {
        proof {
            assert("3"@ =~= seq![spec_digit_char(d as int)]);
        }
        "3"
    } else if d == 4 {
        proof {
            assert("4"@ =~= seq![spec_digit_char(d as int)]);
        }
        "4"
    } else if d == 5 {
        proof {
            assert("5"@ =~= seq![spec_digit_char(d as int)]);
        }
        "5"
    } else if d == 6 {
        proof {
            assert("6"@ =~= seq![spec_digit_char(d as int)]);
        }
        "6"
    } else if d == 7 {
        proof {
            assert("7"@ =~= seq![spec_digit_char(d as int)]);
        }
        "7"
    } else if d == 8 {
        proof {
            assert("8"@ =~= seq![spec_digit_char(d as int)]);
        }
        "8"
    } else {
        proof {
            assert("9"@ =~= seq![spec_digit_char(d as int)]);
        }
        "9"
    }
}

/// Renders a non-negative number as its decimal numeral.
pub fn unsigned_decimal(n: u64) -> (r: String)
    ensures
        r@ == spec_unsigned_decimal(n as nat),
    decreases n,
{
    if n < 10 {
        digit_str(n).to_owned()
    } else {
        let mut s = unsigned_decimal(n / 10);
        s.append(digit_str(n % 10));
        proof {
            assert(s@ =~= spec_unsigned_decimal(n as nat));
        }
        s
    }
}

/// Renders a number as its decimal numeral, minus sign included.
pub fn signed_decimal(n: i64) -> (r: String)
    ensures
        r@ == spec_signed_decimal(n as int),
{
    if n >= 0 {
        unsigned_decimal(n as u64)
    } else {
        let magnitude: u64 = if n == i64::MIN {
            9223372036854775808u64
        } else {
            (-n) as u64
        };
        let mut s = "-".to_owned();
        s.append(unsigned_decimal(magnitude).as_str());
        proof {
            reveal_strlit("-");
            assert(s@ =~= spec_signed_decimal(n as int));
        }
        s
    }
}

/// A currency amount in cents rendered as dollars: a `$` sign, a minus sign
/// for a negative amount, the whole dollars, a point, and exactly two cent
/// digits.
pub open spec fn spec_dollars(cents: int) -> Seq<char> {
    let magnitude = if cents < 0 {
        -cents
    } else {
        cents
    };
    let sign = if cents < 0 {
        seq!['-']
    } else {
        Seq::<char>::empty()
    };
    seq!['$'] + sign + spec_unsigned_decimal((magnitude / 100) as nat) + seq!['.']
        + seq![spec_digit_char(magnitude % 100 / 10), spec_digit_char(magnitude % 100 % 10)]
}

/// Renders an amount of cents as a dollar figure with two decimal places.
pub fn render_cents(cents: i64) -> (r: String)
    ensures
        r@ == spec_dollars(cents as int),
{
    let magnitude: u64 = if cents >= 0 {
        cents as u64
    } else if cents == i64::MIN {
        9223372036854775808u64
    } else {
        (-cents) as u64
    };
    let mut s = if cents < 0 {
        "$-".to_owned()
    } else {
        "$".to_owned()
    };
    s.append(unsigned_decimal(magnitude / 100).as_str());
    s.append(".");
    s.append(digit_str(magnitude % 100 / 10));
    s.append(digit_str(magnitude % 100 % 10));
    proof {
        reveal_strlit("$");
        reveal_strlit("$-");
        reveal_strlit(".");
        assert(s@ =~= spec_dollars(cents as int));
    }
    s
}

} // verus!
