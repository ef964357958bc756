//! Numbers written in decimal, for the names of per-record variables.

use vstd::prelude::*;
use vstd::string::StringExecFns;

verus! {

/// The text of one decimal digit.
pub open spec fn digit_text(digit: nat) -> Seq<char> {
    if digit == 0 {
        "0"@
    } else if digit == 1 {
        "1"@
    } else if digit == 2 {
        "2"@
    } else if digit == 3 {
        "3"@
    } else if digit == 4 {
        "4"@
    } else if digit == 5 {
        "5"@
    } else if digit == 6 {
        "6"@
    } else if digit == 7 {
        "7"@
    } else if digit == 8 {
        "8"@
    } else {
        "9"@
    }
}

/// The decimal text of a number, without leading zeros.
pub open spec fn decimal_text(number: nat) -> Seq<char>
    decreases number,
{
    if number < 10 {
        digit_text(number)
    } else {
        decimal_text(number / 10) + digit_text(number % 10)
    }
}

/// `name` with an underscore and the decimal text of `index` behind it: the
/// name of what belongs to the record at `index`.
pub open spec fn indexed_name(name: Seq<char>, index: nat) -> Seq<char> {
    name + "_"@ + decimal_text(index)
}

/// Computes `digit_text`.
fn digit(value: usize) -> (res: &'static str)
    requires
        value < 10,
    ensures
        res@ == digit_text(value as nat),
{
    let digit = value;
    if digit == 0 {
        "0"
    } else if digit == 1 {
        "1"
    } else if digit == 2 {
        "2"
    } else if digit == 3 {
        "3"
    } else if digit == 4 {
        "4"
    } else if digit == 5 {
        "5"
    } else if digit == 6 {
        "6"
    } else if digit == 7 {
        "7"
    } else if digit == 8 {
        "8"
    } else {
        "9"
    }
}

/// Computes `decimal_text`.
pub fn decimal(number: usize) -> (res: String)
    ensures
        res@ == decimal_text(number as nat),
    decreases number,
{
    if number < 10 {
        String::from_str(digit(number))
    } else {
        let mut res = decimal(number / 10);
        res.append(digit(number % 10));
        res
    }
}

/// Computes `indexed_name`.
pub fn with_index(name: &String, index: usize) -> (res: String)
    ensures
        res@ == indexed_name(name@, index as nat),
{
    let mut res = name.clone();
    res.append("_");
    let number = decimal(index);
    res.append(number.as_str());
    res
}

} // verus!
