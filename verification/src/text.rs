//! Numbered lists of lines, as the listings of units and of history show
//! them.

use vstd::prelude::*;
use vstd::string::StringExecFns;

verus! {

/// The texts held by a sequence of strings.
pub open spec fn texts(lines: Seq<String>) -> Seq<Seq<char>> {
    Seq::new(lines.len(), |i: int| lines[i]@)
}

/// The digit that stands for a number below ten.
pub open spec fn digit(d: nat) -> Seq<char>
    recommends
        d < 10,
{
    if d == 0 {
        "0"@
    } else if d == 1 {
        "1"@
    } else if d == 2 {
        "2"@
    } else if d == 3 {
        "3"@
    } else if d == 4 {
        "4"@
    } else if d == 5 {
        "5"@
    } else if d == 6 {
        "6"@
    } else if d == 7 {
        "7"@
    } else if d == 8 {
        "8"@
    } else {
        "9"@
    }
}

/// A number written in decimal digits, without leading zeros.
pub open spec fn decimal(n: nat) -> Seq<char>
    decreases n,
{
    if n < 10 {
        digit(n)
    } else {
        decimal(n / 10) + digit(n % 10)
    }
}

/// The line of a numbered list: the number, a full stop, a space, the item.
pub open spec fn numbered_line(number: nat, item: Seq<char>) -> Seq<char> {
    decimal(number) + ". "@ + item
}

/// The items as a numbered list, the first item bearing the number one.
pub open spec fn numbered_lines(items: Seq<Seq<char>>) -> Seq<Seq<char>> {
    Seq::new(items.len(), |i: int| numbered_line((i + 1) as nat, items[i]))
}

/// The digit that stands for a number below ten.
fn digit_text(d: usize) -> (text: &'static str)
    requires
        d < 10,
    ensures
        text@ == digit(d as nat),
{
    if d == 0 {
        "0"
    } else if d == 1 {
        "1"
    } else if d == 2 {
        "2"
    } else if d == 3 {
        "3"
    } else if d == 4 {
        "4"
    } else if d == 5 {
        "5"
    } else if d == 6 {
        "6"
    } else if d == 7 {
        "7"
    } else if d == 8 {
        "8"
    } else {
        "9"
    }
}

/// A number written in decimal digits, without leading zeros.
pub fn number_text(n: usize) -> (text: String)
    ensures
        text@ == decimal(n as nat),
    decreases n,
{
    if n < 10 {
        String::from_str(digit_text(n))
    } else {
        number_text(n / 10).concat(digit_text(n % 10))
    }
}

/// The items as a numbered list, the first item bearing the number one.
pub fn numbered(items: &Vec<String>) -> (lines: Vec<String>)
    ensures
        texts(lines@) == numbered_lines(texts(items@)),
{
    let mut lines: Vec<String> = Vec::new();
    let mut index: usize = 0;
    while index < items.len()
        invariant
            index <= items.len(),
            lines.len() == index,
            forall|i: int|
                0 <= i < index ==> (#[trigger] lines[i])@ == numbered_line(
                    (i + 1) as nat,
                    items[i]@,
                ),
        decreases items.len() - index,
    {
        let line = number_text(index + 1).concat(". ").concat(items[index].as_str());
        lines.push(line);
        index = index + 1;
    }
    assert(texts(lines@) =~= numbered_lines(texts(items@)));
    lines
}

} // verus!
