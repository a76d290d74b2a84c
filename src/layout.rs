//! The column layout of the lines that are drawn on the terminal.
use vstd::prelude::*;
use crate::paint::{Tone, paint, painted};

verus! {

/// `n` blanks.
pub open spec fn spaces(n: nat) -> Seq<char> {
    Seq::new(n, |i: int| ' ')
}

/// `s` right-aligned in a column of `width` characters.
pub open spec fn align_right(s: Seq<char>, width: nat) -> Seq<char> {
    if s.len() < width {
        spaces((width - s.len()) as nat) + s
    } else {
        s
    }
}

/// `s` left-aligned in a column of `width` characters.
pub open spec fn align_left(s: Seq<char>, width: nat) -> Seq<char> {
    if s.len() < width {
        s + spaces((width - s.len()) as nat)
    } else {
        s
    }
}

/// The decimal digit for `d < 10`.
pub open spec fn digit(d: nat) -> char {
    seq!['0', '1', '2', '3', '4', '5', '6', '7', '8', '9'][d as int]
}

/// The decimal notation of `n`, without leading zeros.
pub open spec fn decimal(n: nat) -> Seq<char>
    decreases n,
{
    if n < 10 {
        seq![digit(n)]
    } else {
        decimal(n / 10).push(digit(n % 10))
    }
}

/// A progress line: a carriage return, the label, the percentage right-aligned
/// to three digits in brackets, and the text left-aligned to `width`.
pub open spec fn meter_text(label: Seq<char>, value: nat, text: Seq<char>, width: nat) -> Seq<char> {
    seq!['\r'] + label + seq![' ', '['] + align_right(decimal(value), 3) + seq!['%', ']', ' ']
        + align_left(text, width)
}

/// `line` is the progress line of `action` right-aligned to `padding` and painted
/// in `tone`, at `value` percent, with `text` aligned to `width`.
pub open spec fn is_meter(
    line: Seq<char>,
    tone: Tone,
    action: Seq<char>,
    padding: nat,
    value: nat,
    text: Seq<char>,
    width: nat,
) -> bool {
    exists|label: Seq<char>|
        painted(tone, align_right(action, padding), label) && line == meter_text(
            label,
            value,
            text,
            width,
        )
}

/// `line` is a one-shot status line: a carriage return, `action` right-aligned to
/// `padding` and painted in `tone`, a blank, the description and a newline.
pub open spec fn is_notice(
    line: Seq<char>,
    tone: Tone,
    action: Seq<char>,
    padding: nat,
    description: Seq<char>,
) -> bool {
    exists|label: Seq<char>|
        painted(tone, align_right(action, padding), label) && line == seq!['\r'] + label + seq![' ']
            + description + seq!['\n']
}

/// `line` is a closing line: the progress line of `action` in `tone` at
/// `value` percent with `text`, ended by a newline.
pub open spec fn is_closing(
    line: Seq<char>,
    tone: Tone,
    action: Seq<char>,
    padding: nat,
    value: nat,
    text: Seq<char>,
    width: nat,
) -> bool {
    exists|label: Seq<char>|
        painted(tone, align_right(action, padding), label) && line == meter_text(
            label,
            value,
            text,
            width,
        ).push('\n')
}

/// Appends `n` blanks to `out`.
fn push_spaces(out: &mut String, n: usize)
    ensures
        final(out)@ == old(out)@ + spaces(n as nat),
{
    let mut i: usize = 0;
    proof {
        reveal_strlit(" ");
        assert(out@ =~= old(out)@ + spaces(0));
    }
    while i < n
        invariant
            i <= n,
            out@ == old(out)@ + spaces(i as nat),
        decreases n - i,
    {
        out.append(" ");
        i = i + 1;
        proof {
            reveal_strlit(" ");
        }
        assert(out@ =~= old(out)@ + spaces(i as nat));
    }
}

/// `text` right-aligned in a column of `width` characters.
pub fn right_aligned(text: &str, width: usize) -> (r: String)
    ensures
        r@ == align_right(text@, width as nat),
{
    let len = text.unicode_len();
    let mut out = String::new();
    if len < width {
        push_spaces(&mut out, width - len);
    }
    out.append(text);
    proof {
        if text@.len() >= width {
            assert(out@ =~= text@);
        }
    }
    out
}

/// `text` left-aligned in a column of `width` characters.
pub fn left_aligned(text: &str, width: usize) -> (r: String)
    ensures
        r@ == align_left(text@, width as nat),
{
    let len = text.unicode_len();
    let mut out = String::from_str(text);
    if len < width {
        push_spaces(&mut out, width - len);
    }
    out
}

/// The decimal digit `d` as a string.
fn digit_text(d: u8) -> (r: &'static str)
    requires
        d < 10,
    ensures
        r@ == seq![digit(d as nat)],
{
    proof {
        reveal_strlit("0");
        reveal_strlit("1");
        reveal_strlit("2");
        reveal_strlit("3");
        reveal_strlit("4");
        reveal_strlit("5");
        reveal_strlit("6");
        reveal_strlit("7");
        reveal_strlit("8");
        reveal_strlit("9");
    }
    let r = match d {
        0 => "0",
        1 => "1",
        2 => "2",
        3 => "3",
        4 => "4",
        5 => "5",
        6 => "6",
        7 => "7",
        8 => "8",
        _ => "9",
    };
    assert(r@ =~= seq![digit(d as nat)]);
    r
}

/// The decimal notation of `n`.
pub fn decimal_text(n: u8) -> (r: String)
    ensures
        r@ == decimal(n as nat),
{
    let mut out = String::new();
    if n >= 100 {
        out.append(digit_text(n / 100));
        assert(decimal((n / 100) as nat) == seq![digit((n / 100) as nat)]);
    }
    if n >= 10 {
        out.append(digit_text((n / 10) % 10));
    }
    out.append(digit_text(n % 10));
    proof {
        let k = n as nat;
        if n >= 100 {
            assert(decimal(k / 10) == decimal(k / 100).push(digit((k / 10) % 10)));
        } else if n >= 10 {
            assert(decimal(k / 10) == seq![digit(k / 10)]);
        }
        assert(out@ =~= decimal(k));
    }
    out
}

/// The progress line of `action` in `tone` at `value` percent, showing `text`
/// left-aligned to `width`.
pub fn meter(tone: Tone, action: &str, padding: usize, value: u8, text: &str, width: usize) -> (r:
    String)
    ensures
        is_meter(r@, tone, action@, padding as nat, value as nat, text@, width as nat),
{
    let aligned = right_aligned(action, padding);
    let label = paint(tone, aligned.as_str());
    let mut out = String::new();
    out.append("\r");
    out.append(label.as_str());
    out.append(" [");
    let number = decimal_text(value);
    let column = right_aligned(number.as_str(), 3);
    out.append(column.as_str());
    out.append("%] ");
    let shown = left_aligned(text, width);
    out.append(shown.as_str());
    proof {
        reveal_strlit("\r");
        reveal_strlit(" [");
        reveal_strlit("%] ");
        assert(out@ =~= meter_text(label@, value as nat, text@, width as nat));
    }
    out
}

/// The closing line of `action` in `tone` at `value` percent, showing `text`
/// left-aligned to `width`, ended by a newline.
pub fn closing(tone: Tone, action: &str, padding: usize, value: u8, text: &str, width: usize) -> (r:
    String)
    ensures
        is_closing(r@, tone, action@, padding as nat, value as nat, text@, width as nat),
{
    let aligned = right_aligned(action, padding);
    let label = paint(tone, aligned.as_str());
    let mut out = String::new();
    out.append("\r");
    out.append(label.as_str());
    out.append(" [");
    let number = decimal_text(value);
    let column = right_aligned(number.as_str(), 3);
    out.append(column.as_str());
    out.append("%] ");
    let shown = left_aligned(text, width);
    out.append(shown.as_str());
    out.append("\n");
    proof {
        reveal_strlit("\r");
        reveal_strlit(" [");
        reveal_strlit("%] ");
        reveal_strlit("\n");
        assert(out@ =~= meter_text(label@, value as nat, text@, width as nat).push('\n'));
    }
    out
}

/// A one-shot status line of `action` in `tone` with `description`.
pub fn notice(tone: Tone, action: &str, padding: usize, description: &str) -> (r: String)
    ensures
        is_notice(r@, tone, action@, padding as nat, description@),
{
    let aligned = right_aligned(action, padding);
    let label = paint(tone, aligned.as_str());
    let mut out = String::new();
    out.append("\r");
    out.append(label.as_str());
    out.append(" ");
    out.append(description);
    out.append("\n");
    proof {
        reveal_strlit("\r");
        reveal_strlit(" ");
        reveal_strlit("\n");
        assert(out@ =~= seq!['\r'] + label@ + seq![' '] + description@ + seq!['\n']);
    }
    out
}

} // verus!
