//! Emphasis and colour for text that goes to a terminal, and decimal
//! numerals.
use owo_colors::OwoColorize;
use vstd::prelude::*;

verus! {

/// The character that stands for one decimal digit.
pub open spec fn digit_char(d: nat) -> char {
    if d == 0 {
        '0'
    } else if d == 1 {
        '1'
    } else if d == 2 {
        '2'
    } else if d == 3 {
        '3'
    } else if d == 4 {
        '4'
    } else if d == 5 {
        '5'
    } else if d == 6 {
        '6'
    } else if d == 7 {
        '7'
    } else if d == 8 {
        '8'
    } else {
        '9'
    }
}

/// The decimal numeral of `n`, most significant digit first, without leading
/// zeros (`0` is written as one digit).
pub open spec fn digits(n: nat) -> Seq<char>
    decreases n,
{
    if n < 10 {
        seq![digit_char(n)]
    } else {
        digits(n / 10).push(digit_char(n % 10))
    }
}

/// Text set in bold for a terminal: the escape sequence that switches bold on,
/// the text, and the sequence that resets every attribute.
pub open spec fn emboldened(text: Seq<char>) -> Seq<char> {
    seq!['\x1b', '[', '1', 'm'] + text + seq!['\x1b', '[', '0', 'm']
}

/// Text set in red: the escape sequence that sets the foreground colour to
/// red, the text, and the sequence that sets the default foreground colour.
pub open spec fn reddened(text: Seq<char>) -> Seq<char> {
    seq!['\x1b', '[', '3', '1', 'm'] + text + seq!['\x1b', '[', '3', '9', 'm']
}

/// Text set in green: as `reddened`, with the code of green.
pub open spec fn greened(text: Seq<char>) -> Seq<char> {
    seq!['\x1b', '[', '3', '2', 'm'] + text + seq!['\x1b', '[', '3', '9', 'm']
}

/// A count as it is shown: its decimal numeral, in bold when it is positive.
pub open spec fn emphasized(n: nat) -> Seq<char> {
    if n > 0 {
        emboldened(digits(n))
    } else {
        digits(n)
    }
}

/// Calls `owo_colors::OwoColorize::bold` on a string slice and formats the
/// result. The contract claims what the `Display` impl of
/// `owo_colors::styles::BoldDisplay` writes: `ESC [ 1 m`, the text as it
/// stands, `ESC [ 0 m`.
#[verifier::external_body]
pub(crate) fn bold(text: &str) -> (styled: String)
    ensures
        styled@ == emboldened(text@),
{
    text.bold().to_string()
}

/// Calls `owo_colors::OwoColorize::red` on a string slice and formats the
/// result. The contract claims what the `Display` impl of
/// `owo_colors::FgColorDisplay` writes for the colour `Red`: `ESC [ 3 1 m`,
/// the text as it stands, `ESC [ 3 9 m`.
#[verifier::external_body]
pub(crate) fn red(text: &str) -> (styled: String)
    ensures
        styled@ == reddened(text@),
{
    text.red().to_string()
}

/// Calls `owo_colors::OwoColorize::green` on a string slice and formats the
/// result. The contract claims what the `Display` impl of
/// `owo_colors::FgColorDisplay` writes for the colour `Green`: `ESC [ 3 2 m`,
/// the text as it stands, `ESC [ 3 9 m`.
#[verifier::external_body]
pub(crate) fn green(text: &str) -> (styled: String)
    ensures
        styled@ == greened(text@),
{
    text.green().to_string()
}

fn digit_text(d: u64) -> (text: &'static str)
    requires
        d < 10,
    ensures
        text@ == seq![digit_char(d as nat)],
{
    proof {
        reveal_strlit("0");
        reveal_strlit("1");
        reveal_strlit("2");
        reveal_strlit("3");
        reveal_strlit("4");
        reveal_strlit("5");
        reveal_strlit("6");
        reveal_strlit("7");
        reveal_strlit("8");
        reveal_strlit("9");
    }
    let text = match d {
        0 => "0",
        1 => "1",
        2 => "2",
        3 => "3",
        4 => "4",
        5 => "5",
        6 => "6",
        7 => "7",
        8 => "8",
        _ => "9",
    };
    assert(text@ =~= seq![digit_char(d as nat)]);
    text
}

/// Writes a number as a decimal numeral.
pub fn decimal(n: u64) -> (text: String)
    ensures
        text@ == digits(n as nat),
    decreases n,
{
    let last = digit_text(n % 10);
    if n < 10 {
        String::from_str(last)
    } else {
        let text = decimal(n / 10).concat(last);
        assert(text@ =~= digits(n as nat));
        text
    }
}

/// Writes a count as a decimal numeral, in bold when it is positive.
pub fn bold_if_greater_than_zero(input: u32) -> (text: String)
    ensures
        text@ == emphasized(input as nat),
        input > 0 ==> text@ == emboldened(digits(input as nat)),
        input == 0 ==> text@ == seq!['0'],
{
    let plain = decimal(input as u64);
    if input > 0 {
        bold(plain.as_str())
    } else {
        plain
    }
}

} // verus!
