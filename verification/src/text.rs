//! Building the status strings, including a verified decimal rendering of
//! the score.
use vstd::prelude::*;
use vstd::string::StringExecFns;

verus! {

/// The decimal digit character for `d` in [0, 9].
pub open spec fn digit_char(d: int) -> char {
    if d == 0 {
        '0'
    } else if d == 1 {
        '1'
    } else if d == 2 {
        '2'
    } else if d == 3 {
        '3'
    } else if d == 4 {
        '4'
    } else if d == 5 {
        '5'
    } else if d == 6 {
        '6'
    } else if d == 7 {
        '7'
    } else if d == 8 {
        '8'
    } else {
        '9'
    }
}

/// The decimal digits of `n` (for `n >= 0`), most significant first, with
/// no leading zero except for `n == 0` itself.
pub open spec fn dec_digits(n: int) -> Seq<char>
    decreases n,
{
    if n < 10 {
        seq![digit_char(n)]
    } else {
        dec_digits(n / 10).push(digit_char(n % 10))
    }
}

/// The in-game status line: a fixed prompt, then the score in decimal.
pub open spec fn spec_score_line(score: int) -> Seq<char> {
    "Press SPACE to flap... Score: "@ + dec_digits(score) + "..!"@
}

/// The game-over banner: a fixed message, then the score in decimal.
pub open spec fn spec_over_line(score: int) -> Seq<char> {
    "You are dead!.. Score: "@ + dec_digits(score) + "..!"@
}

/// The one-character string for a decimal digit.
fn digit_str(d: i32) -> (s: &'static str)
    requires
        0 <= d < 10,
    ensures
        s@ == seq![digit_char(d as int)],
{
    proof {
        reveal_strlit("0");
        reveal_strlit("1");
        reveal_strlit("2");
        reveal_strlit("3");
        reveal_strlit("4");
        reveal_strlit("5");
        reveal_strlit("6");
        reveal_strlit("7");
        reveal_strlit("8");
        reveal_strlit("9");
    }
    let s: &'static str = if d == 0 {
        "0"
    } else if d == 1 {
        "1"
    } else if d == 2 {
        "2"
    } else if d == 3 {
        "3"
    } else if d == 4 {
        "4"
    } else if d == 5 {
        "5"
    } else if d == 6 {
        "6"
    } else if d == 7 {
        "7"
    } else if d == 8 {
        "8"
    } else {
        "9"
    };
    proof {
        assert(s@ =~= seq![digit_char(d as int)]);
    }
    s
}

/// Renders `n >= 0` in decimal, exactly as `dec_digits` describes.
pub fn decimal_string(n: i32) -> (s: String)
    requires
        n >= 0,
    ensures
        s@ == dec_digits(n as int),
    decreases n,
{
    if n < 10 {
        digit_str(n).to_owned()
    } else {
        proof {
            assert(n / 10 < n) by (nonlinear_arith)
                requires
                    n >= 10,
            ;
        }
        let mut s = decimal_string(n / 10);
        s.append(digit_str(n % 10));
        proof {
            assert(s@ =~= dec_digits(n as int));
        }
        s
    }
}

/// The in-game status line with the score filled in.
pub fn score_line(score: i32) -> (s: String)
    requires
        score >= 0,
    ensures
        s@ == spec_score_line(score as int),
{
    let mut s = "Press SPACE to flap... Score: ".to_owned();
    let digits = decimal_string(score);
    s.append(digits.as_str());
    s.append("..!");
    proof {
        assert(s@ =~= spec_score_line(score as int));
    }
    s
}

/// The game-over banner with the score filled in.
pub fn over_line(score: i32) -> (s: String)
    requires
        score >= 0,
    ensures
        s@ == spec_over_line(score as int),
{
    let mut s = "You are dead!.. Score: ".to_owned();
    let digits = decimal_string(score);
    s.append(digits.as_str());
    s.append("..!");
    proof {
        assert(s@ =~= spec_over_line(score as int));
    }
    s
}

} // verus!
