//! Names that schema provisioning picks for a run.
use rand::Rng;
use vstd::prelude::*;

verus! {

/// The character of a decimal digit.
pub open spec fn digit_char(d: nat) -> char {
    if d == 0 { '0' }
    else if d == 1 { '1' }
    else if d == 2 { '2' }
    else if d == 3 { '3' }
    else if d == 4 { '4' }
    else if d == 5 { '5' }
    else if d == 6 { '6' }
    else if d == 7 { '7' }
    else if d == 8 { '8' }
    else { '9' }
}

/// The decimal digits of a number, most significant first, without leading
/// zeros (`0` is written `0`).
pub open spec fn decimal_digits(n: nat) -> Seq<char>
    decreases n,
{
    if n < 10 {
        seq![digit_char(n)]
    } else {
        decimal_digits(n / 10).push(digit_char(n % 10))
    }
}

/// The prefix of every datafile name of the movie tablespace.
pub open spec fn datafile_prefix() -> Seq<char> {
    "movie_db_tbs_"@
}

fn digit_str(d: u32) -> (r: &'static str)
    requires
        d < 10,
    ensures
        r@ == seq![digit_char(d as nat)],
{
    proof {
        reveal_strlit("0");
        reveal_strlit("1");
        reveal_strlit("2");
        reveal_strlit("3");
        reveal_strlit("4");
        reveal_strlit("5");
        reveal_strlit("6");
        reveal_strlit("7");
        reveal_strlit("8");
        reveal_strlit("9");
    }
    let r = match d {
        0 => "0",
        1 => "1",
        2 => "2",
        3 => "3",
        4 => "4",
        5 => "5",
        6 => "6",
        7 => "7",
        8 => "8",
        _ => "9",
    };
    assert(r@ =~= seq![digit_char(d as nat)]);
    r
}

fn push_decimal(s: &mut String, n: u32)
    ensures
        final(s)@ == old(s)@ + decimal_digits(n as nat),
    decreases n,
{
    if n >= 10 {
        push_decimal(s, n / 10);
    }
    s.append(digit_str(n % 10));
    assert(old(s)@ + decimal_digits(n as nat) =~= if n >= 10 {
        old(s)@ + decimal_digits((n / 10) as nat) + seq![digit_char((n % 10) as nat)]
    } else {
        old(s)@ + seq![digit_char((n % 10) as nat)]
    });
}

/// The datafile name for a suffix: the prefix, then the suffix in decimal.
pub fn datafile_name(suffix: u32) -> (r: String)
    ensures
        r@ == datafile_prefix() + decimal_digits(suffix as nat),
{
    let mut s = String::from_str("movie_db_tbs_");
    push_decimal(&mut s, suffix);
    s
}

/// Relies on rand's `Rng::gen_range` on the thread-local generator: a number
/// drawn from `1..10000`, that is at least 1 and below 10000.
#[verifier::external_body]
fn random_datafile_suffix() -> (n: u32)
    ensures
        1 <= n < 10000,
{
    rand::thread_rng().gen_range(1..10000u32)
}

/// A fresh datafile name for the movie tablespace, so that a run does not
/// collide with a file that an earlier run left behind.
pub fn new_datafile_name() -> (r: String)
    ensures
        exists|n: nat| 1 <= n < 10000 && r@ == datafile_prefix() + decimal_digits(n),
{
    let n = random_datafile_suffix();
    datafile_name(n)
}

} // verus!
