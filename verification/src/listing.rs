//! The text in which a store is shown: one numbered line for each task.

use vstd::prelude::*;
use vstd::string::StringExecFns;

use crate::task::{Task, TaskView};

verus! {

/// The character of a decimal digit.
pub open spec fn digit(d: nat) -> char {
    if d == 0 {
        '0'
    } else if d == 1 {
        '1'
    } else if d == 2 {
        '2'
    } else if d == 3 {
        '3'
    } else if d == 4 {
        '4'
    } else if d == 5 {
        '5'
    } else if d == 6 {
        '6'
    } else if d == 7 {
        '7'
    } else if d == 8 {
        '8'
    } else {
        '9'
    }
}

/// A number in decimal, without leading zeros.
pub open spec fn decimal(n: nat) -> Seq<char>
    decreases n,
{
    if n < 10 {
        seq![digit(n)]
    } else {
        decimal(n / 10).push(digit(n % 10))
    }
}

/// A text, with spaces put before it until it is `width` characters long. A
/// text that is as long or longer stays as it is.
pub open spec fn right_aligned(text: Seq<char>, width: nat) -> Seq<char> {
    if text.len() >= width {
        text
    } else {
        Seq::new((width - text.len()) as nat, |i: int| ' ') + text
    }
}

/// The mark of a task: `x` where it is complete, a space where it is not.
pub open spec fn mark(complete: bool) -> char {
    if complete {
        'x'
    } else {
        ' '
    }
}

/// The line of a task: its number, right-aligned to `width` characters, a
/// full stop, its mark in square brackets, and its name.
pub open spec fn task_line(number: nat, width: nat, task: TaskView) -> Seq<char> {
    right_aligned(decimal(number), width) + ". ["@ + seq![mark(task.complete)] + "] "@ + task.name
}

/// What is shown for a store without tasks.
pub open spec fn no_tasks() -> Seq<char> {
    "There are no tasks!"@
}

/// The lines in which a sequence of tasks is shown. The tasks are numbered
/// from 1, and every number is given the width of the largest.
pub open spec fn listing(tasks: Seq<TaskView>) -> Seq<Seq<char>> {
    if tasks.len() == 0 {
        seq![no_tasks()]
    } else {
        Seq::new(
            tasks.len(),
            |i: int| task_line((i + 1) as nat, decimal(tasks.len()).len(), tasks[i]),
        )
    }
}

/// What a vector of strings holds: the characters of each, in order.
pub open spec fn texts(lines: Seq<String>) -> Seq<Seq<char>> {
    lines.map_values(|line: String| line@)
}

/// The text of one decimal digit.
fn digit_text(d: usize) -> (s: &'static str)
    requires
        d < 10,
    ensures
        s@ == seq![digit(d as nat)],
{
    proof {
        reveal_strlit("0");
        reveal_strlit("1");
        reveal_strlit("2");
        reveal_strlit("3");
        reveal_strlit("4");
        reveal_strlit("5");
        reveal_strlit("6");
        reveal_strlit("7");
        reveal_strlit("8");
        reveal_strlit("9");
    }
    let s = if d == 0 {
        "0"
    } else if d == 1 {
        "1"
    } else if d == 2 {
        "2"
    } else if d == 3 {
        "3"
    } else if d == 4 {
        "4"
    } else if d == 5 {
        "5"
    } else if d == 6 {
        "6"
    } else if d == 7 {
        "7"
    } else if d == 8 {
        "8"
    } else {
        "9"
    };
    s
}

/// Writes a number in decimal.
pub fn decimal_text(n: usize) -> (s: String)
    ensures
        s@ == decimal(n as nat),
    decreases n,
{
    if n < 10 {
        String::from_str(digit_text(n))
    } else {
        let mut s = decimal_text(n / 10);
        s.append(digit_text(n % 10));
        s
    }
}

/// The number of digits of a number in decimal.
pub fn decimal_width(n: usize) -> (width: usize)
    ensures
        width == decimal(n as nat).len(),
{
    let mut width: usize = 1;
    let mut rest: usize = n;
    while rest >= 10
        invariant
            1 <= width,
            width + rest <= n + 1,
            decimal(n as nat).len() == decimal(rest as nat).len() + width - 1,
        decreases rest,
    {
        rest = rest / 10;
        width = width + 1;
    }
    width
}

/// Writes the line of a task.
pub fn task_line_text(number: usize, width: usize, task: &Task) -> (line: String)
    ensures
        line@ == task_line(number as nat, width as nat, task@),
{
    let digits = decimal_text(number);
    let used = decimal_width(number);
    let mut line = String::new();
    let mut filled: usize = used;
    while filled < width
        invariant
            used <= filled,
            filled <= width || filled == used,
            line@ == Seq::new((filled - used) as nat, |i: int| ' '),
        decreases width - filled,
    {
        proof {
            reveal_strlit(" ");
        }
        line.append(" ");
        filled = filled + 1;
    }
    proof {
        reveal_strlit("x");
        reveal_strlit(" ");
        assert(line@ + digits@ =~= right_aligned(decimal(number as nat), width as nat));
    }
    line.append(digits.as_str());
    line.append(". [");
    line.append(
        if task.complete {
            "x"
        } else {
            " "
        },
    );
    line.append("] ");
    line.append(task.name.as_str());
    line
}

} // verus!
