//! Verified text helpers for building log messages: decimal rendering of
//! numbers and phase names.

use vstd::prelude::*;
use vstd::string::StringExecFns;

use crate::models::GamePhase;

verus! {

/// The character for one decimal digit.
pub open spec fn digit_char(d: int) -> char {
    if d == 0 {
        '0'
    } else if d == 1 {
        '1'
    } else if d == 2 {
        '2'
    } else if d == 3 {
        '3'
    } else if d == 4 {
        '4'
    } else if d == 5 {
        '5'
    } else if d == 6 {
        '6'
    } else if d == 7 {
        '7'
    } else if d == 8 {
        '8'
    } else {
        '9'
    }
}

/// The decimal representation of `n`, most significant digit first.
pub open spec fn decimal(n: nat) -> Seq<char>
    decreases n,
{
    if n < 10 {
        seq![digit_char(n as int)]
    } else {
        decimal(n / 10).push(digit_char((n % 10) as int))
    }
}

/// The one-character string for a decimal digit.
fn digit_str(d: u32) -> (r: &'static str)
    requires
        d < 10,
    ensures
        r@ == seq![digit_char(d as int)],
{
    proof {
        reveal_strlit("0");
        reveal_strlit("1");
        reveal_strlit("2");
        reveal_strlit("3");
        reveal_strlit("4");
        reveal_strlit("5");
        reveal_strlit("6");
        reveal_strlit("7");
        reveal_strlit("8");
        reveal_strlit("9");
    }
    let r = match d {
        0 => "0",
        1 => "1",
        2 => "2",
        3 => "3",
        4 => "4",
        5 => "5",
        6 => "6",
        7 => "7",
        8 => "8",
        _ => "9",
    };
    proof {
        assert(r@ =~= seq![digit_char(d as int)]);
    }
    r
}

/// Renders `n` in decimal.
pub fn u32_to_string(n: u32) -> (r: String)
    ensures
        r@ == decimal(n as nat),
    decreases n,
{
    if n < 10 {
        String::from_str(digit_str(n))
    } else {
        let head = u32_to_string(n / 10);
        let tail = digit_str(n % 10);
        let r = head.concat(tail);
        proof {
            assert(r@ =~= decimal(n as nat));
        }
        r
    }
}

/// The name of a phase, as spec-level text.
pub open spec fn spec_phase_name(p: GamePhase) -> Seq<char> {
    match p {
        GamePhase::Draw => "Draw"@,
        GamePhase::Placement => "Placement"@,
        GamePhase::Attack => "Attack"@,
        GamePhase::EndTurn => "EndTurn"@,
    }
}

/// The name of a phase.
pub fn phase_name(p: GamePhase) -> (r: &'static str)
    ensures
        r@ == spec_phase_name(p),
{
    match p {
        GamePhase::Draw => "Draw",
        GamePhase::Placement => "Placement",
        GamePhase::Attack => "Attack",
        GamePhase::EndTurn => "EndTurn",
    }
}

} // verus!
