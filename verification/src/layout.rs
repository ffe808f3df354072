//! How one line of output is laid out: decimal numbers, right alignment,
//! the tab between number and text, the closing newline.

use vstd::prelude::*;
use vstd::string::*;

verus! {

/// Width of the field that holds a line number.
pub const NUMBER_WIDTH: usize = 6;

/// The character for one decimal digit.
pub open spec fn digit_char(d: nat) -> char {
    if d == 0 {
        '0'
    } else if d == 1 {
        '1'
    } else if d == 2 {
        '2'
    } else if d == 3 {
        '3'
    } else if d == 4 {
        '4'
    } else if d == 5 {
        '5'
    } else if d == 6 {
        '6'
    } else if d == 7 {
        '7'
    } else if d == 8 {
        '8'
    } else {
        '9'
    }
}

/// `n` in decimal, most significant digit first, without leading zeros.
pub open spec fn decimal(n: nat) -> Seq<char>
    decreases n,
{
    if n < 10 {
        seq![digit_char(n)]
    } else {
        decimal(n / 10).push(digit_char(n % 10))
    }
}

/// `count` spaces.
pub open spec fn spaces(count: nat) -> Seq<char> {
    Seq::new(count, |i: int| ' ')
}

/// `text` moved to the right end of a field of `width` characters; text
/// that is wider than the field is left as it is.
pub open spec fn right_aligned(text: Seq<char>, width: nat) -> Seq<char> {
    if text.len() >= width {
        text
    } else {
        spaces((width - text.len()) as nat) + text
    }
}

/// A numbered line: the number right-aligned in six columns, a tab, the
/// text, a newline.
pub open spec fn numbered(n: nat, line: Seq<char>) -> Seq<char> {
    right_aligned(decimal(n), NUMBER_WIDTH as nat) + seq!['\t'] + line + seq!['\n']
}

/// An unnumbered line: the text and a newline.
pub open spec fn plain(line: Seq<char>) -> Seq<char> {
    line + seq!['\n']
}

fn digit_str(d: u64) -> (s: &'static str)
    requires
        d < 10,
    ensures
        s@ == seq![digit_char(d as nat)],
{
    let s = if d == 0 {
        "0"
    } else if d == 1 {
        "1"
    } else if d == 2 {
        "2"
    } else if d == 3 {
        "3"
    } else if d == 4 {
        "4"
    } else if d == 5 {
        "5"
    } else if d == 6 {
        "6"
    } else if d == 7 {
        "7"
    } else if d == 8 {
        "8"
    } else {
        "9"
    };
    proof {
        reveal_strlit("0");
        reveal_strlit("1");
        reveal_strlit("2");
        reveal_strlit("3");
        reveal_strlit("4");
        reveal_strlit("5");
        reveal_strlit("6");
        reveal_strlit("7");
        reveal_strlit("8");
        reveal_strlit("9");
        assert(s@ =~= seq![digit_char(d as nat)]);
    }
    s
}

fn append_decimal(out: &mut String, n: u64)
    ensures
        final(out)@ == old(out)@ + decimal(n as nat),
    decreases n,
{
    if n >= 10 {
        append_decimal(out, n / 10);
    }
    out.append(digit_str(n % 10));
    proof {
        assert(final(out)@ =~= old(out)@ + decimal(n as nat));
    }
}

/// `n` written in decimal.
pub fn decimal_string(n: u64) -> (r: String)
    ensures
        r@ == decimal(n as nat),
{
    let mut out = String::new();
    append_decimal(&mut out, n);
    proof {
        assert(out@ =~= decimal(n as nat));
    }
    out
}

/// The text of `line` behind its number `n`, as [`numbered`] lays it out.
pub fn numbered_line(n: u64, line: &str) -> (r: String)
    ensures
        r@ == numbered(n as nat, line@),
{
    let digits = decimal_string(n);
    let len = digits.as_str().unicode_len();
    let mut out = String::new();
    if len < NUMBER_WIDTH {
        let need: usize = NUMBER_WIDTH - len;
        let mut done: usize = 0;
        while done < need
            invariant
                done <= need,
                out@ == spaces(done as nat),
            decreases need - done,
        {
            out.append(" ");
            done = done + 1;
            proof {
                reveal_strlit(" ");
                assert(out@ =~= spaces(done as nat));
            }
        }
    }
    proof {
        assert(out@ + digits@ =~= right_aligned(decimal(n as nat), NUMBER_WIDTH as nat));
    }
    out.append(digits.as_str());
    out.append("\t");
    out.append(line);
    out.append("\n");
    proof {
        reveal_strlit("\t");
        reveal_strlit("\n");
        assert("\t"@ =~= seq!['\t']);
        assert("\n"@ =~= seq!['\n']);
    }
    out
}

/// The text of `line` with its newline, as [`plain`] lays it out.
pub fn plain_line(line: &str) -> (r: String)
    ensures
        r@ == plain(line@),
{
    let mut out = String::from_str(line);
    out.append("\n");
    proof {
        reveal_strlit("\n");
        assert("\n"@ =~= seq!['\n']);
    }
    out
}

} // verus!
