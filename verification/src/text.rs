//! Numbers and record identifiers as text.

use vstd::prelude::*;

verus! {

/// The character that stands for one decimal digit.
pub open spec fn digit_char(d: nat) -> char {
    if d == 0 {
        '0'
    } else if d == 1 {
        '1'
    } else if d == 2 {
        '2'
    } else if d == 3 {
        '3'
    } else if d == 4 {
        '4'
    } else if d == 5 {
        '5'
    } else if d == 6 {
        '6'
    } else if d == 7 {
        '7'
    } else if d == 8 {
        '8'
    } else {
        '9'
    }
}

/// A number in base ten, most significant digit first, without leading
/// zeros; zero is `"0"`.
pub open spec fn decimal(n: nat) -> Seq<char>
    decreases n,
{
    if n < 10 {
        seq![digit_char(n)]
    } else {
        decimal(n / 10).push(digit_char(n % 10))
    }
}

/// The identifier of the record that `borrower` opens at block `height`: the
/// height in base ten, a hyphen, and the borrower's address.
///
/// Two deposits get the same identifier only if the same borrower makes both
/// in the same block.
pub open spec fn collateral_id_text(height: nat, borrower: Seq<char>) -> Seq<char> {
    decimal(height) + seq!['-'] + borrower
}

fn digit_str(d: u8) -> (s: &'static str)
    requires
        d < 10,
    ensures
        s@ == seq![digit_char(d as nat)],
{
    proof {
        reveal_strlit("0");
        reveal_strlit("1");
        reveal_strlit("2");
        reveal_strlit("3");
        reveal_strlit("4");
        reveal_strlit("5");
        reveal_strlit("6");
        reveal_strlit("7");
        reveal_strlit("8");
        reveal_strlit("9");
    }
    match d {
        0 => "0",
        1 => "1",
        2 => "2",
        3 => "3",
        4 => "4",
        5 => "5",
        6 => "6",
        7 => "7",
        8 => "8",
        _ => "9",
    }
}

/// Writes a number in base ten.
pub fn decimal_string(n: u128) -> (s: String)
    ensures
        s@ == decimal(n as nat),
    decreases n,
{
    if n < 10 {
        String::from_str(digit_str(n as u8))
    } else {
        let mut s: String = decimal_string(n / 10);
        s.append(digit_str((n % 10) as u8));
        s
    }
}

/// Makes the identifier of the record that `borrower` opens at block `height`.
pub fn collateral_id(height: u64, borrower: &String) -> (id: String)
    ensures
        id@ == collateral_id_text(height as nat, borrower@),
{
    let mut id: String = decimal_string(height as u128);
    proof {
        reveal_strlit("-");
    }
    id.append("-");
    id.append(borrower.as_str());
    id
}

} // verus!
