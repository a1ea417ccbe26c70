//! Text helpers: decimal numerals and amounts of SOL.
use vstd::prelude::*;

verus! {

pub open spec fn digit_char(d: nat) -> char {
    if d == 0 { '0' } else if d == 1 { '1' } else if d == 2 { '2' } else if d == 3 { '3' }
    else if d == 4 { '4' } else if d == 5 { '5' } else if d == 6 { '6' } else if d == 7 { '7' }
    else if d == 8 { '8' } else { '9' }
}

/// The decimal digits of `n`, most significant first, without leading zeros.
pub open spec fn decimal(n: nat) -> Seq<char>
    decreases n,
{
    if n < 10 {
        seq![digit_char(n)]
    } else {
        decimal(n / 10).push(digit_char(n % 10))
    }
}

fn digit_str(d: u64) -> (r: &'static str)
    requires
        d < 10,
    ensures
        r@ == seq![digit_char(d as nat)],
{
    let r = if d == 0 { "0" } else if d == 1 { "1" } else if d == 2 { "2" } else if d == 3 { "3" }
    else if d == 4 { "4" } else if d == 5 { "5" } else if d == 6 { "6" } else if d == 7 { "7" }
    else if d == 8 { "8" } else { "9" };
    proof {
        reveal_strlit("0");
        reveal_strlit("1");
        reveal_strlit("2");
        reveal_strlit("3");
        reveal_strlit("4");
        reveal_strlit("5");
        reveal_strlit("6");
        reveal_strlit("7");
        reveal_strlit("8");
        reveal_strlit("9");
        assert(r@ =~= seq![digit_char(d as nat)]);
    }
    r
}

/// The decimal text of `n`.
pub fn decimal_string(n: u64) -> (r: String)
    ensures
        r@ == decimal(n as nat),
    decreases n,
{
    if n < 10 {
        String::from_str(digit_str(n))
    } else {
        let mut s = decimal_string(n / 10);
        s.append(digit_str(n % 10));
        s
    }
}

/// The decimal text of `n`, with a minus sign when negative.
pub open spec fn signed_decimal(n: int) -> Seq<char> {
    if n < 0 {
        seq!['-'] + decimal((-n) as nat)
    } else {
        decimal(n as nat)
    }
}

pub fn signed_decimal_string(n: i64) -> (r: String)
    ensures
        r@ == signed_decimal(n as int),
{
    if n < 0 {
        let a: u64 = (-(n + 1)) as u64 + 1;
        let mut out = String::from_str("-");
        let digits = decimal_string(a);
        out.append(digits.as_str());
        proof {
            reveal_strlit("-");
            assert(out@ =~= signed_decimal(n as int));
        }
        out
    } else {
        decimal_string(n as u64)
    }
}

/// Lamports in one SOL.
pub const LAMPORTS_PER_SOL: u64 = 1_000_000_000;

/// `lamports` as SOL with nine decimals: an optional minus sign, the whole
/// part, a point, the nine-digit fraction, and ` SOL`.
pub open spec fn sol_text(lamports: int) -> Seq<char> {
    let a: nat = if lamports < 0 {
        (-lamports) as nat
    } else {
        lamports as nat
    };
    let sign: Seq<char> = if lamports < 0 {
        seq!['-']
    } else {
        seq![]
    };
    let whole = decimal(a / LAMPORTS_PER_SOL as nat);
    let frac = decimal(a % LAMPORTS_PER_SOL as nat + LAMPORTS_PER_SOL as nat).drop_first();
    sign + whole + seq!['.'] + frac + " SOL"@
}

/// Formats a lamport amount as SOL with nine decimals, exactly.
pub fn format_sol_amount(lamports: i64) -> (r: String)
    ensures
        r@ == sol_text(lamports as int),
{
    let a: u64 = if lamports < 0 {
        (-(lamports + 1)) as u64 + 1
    } else {
        lamports as u64
    };
    let mut out = if lamports < 0 {
        String::from_str("-")
    } else {
        String::new()
    };
    proof {
        reveal_strlit("-");
        reveal_strlit(".");
    }
    let whole = decimal_string(a / LAMPORTS_PER_SOL);
    out.append(whole.as_str());
    out.append(".");
    let padded = decimal_string(a % LAMPORTS_PER_SOL + LAMPORTS_PER_SOL);
    let n = padded.as_str().unicode_len();
    let frac = padded.as_str().substring_char(1, n);
    out.append(frac);
    out.append(" SOL");
    proof {
        let sign: Seq<char> = if lamports < 0 {
            seq!['-']
        } else {
            seq![]
        };
        assert(frac@ =~= padded@.drop_first());
        assert(out@ =~= sign + whole@ + seq!['.'] + frac@ + " SOL"@);
    }
    out
}

} // verus!
