//! Character sequences: decimal numerals, blank lines, and splitting a text
//! into its lines.

use vstd::prelude::*;
use vstd::std_specs::iter::IteratorSpec;

verus! {

/// `String::push` appends one character to the end of the string.
pub assume_specification[ String::push ](s: &mut String, ch: char)
    ensures
        final(s)@ == old(s)@.push(ch),
;

/// The character that writes the digit `d` (0 to 9).
pub open spec fn digit_char(d: nat) -> char {
    seq!['0', '1', '2', '3', '4', '5', '6', '7', '8', '9'][d as int]
}

/// The decimal numeral of `n`: no sign, no leading zero, `"0"` for zero.
pub open spec fn decimal(n: nat) -> Seq<char>
    decreases n,
{
    if n < 10 {
        seq![digit_char(n)]
    } else {
        decimal(n / 10).push(digit_char(n % 10))
    }
}

/// The character that writes the digit `d`.
fn digit(d: u16) -> (c: char)
    requires
        d < 10,
    ensures
        c == digit_char(d as nat),
{
    let digits: [char; 10] = ['0', '1', '2', '3', '4', '5', '6', '7', '8', '9'];
    digits[d as usize]
}

/// Appends the decimal numeral of `n` to `out`.
pub fn push_decimal(out: &mut String, n: u16)
    ensures
        final(out)@ == old(out)@ + decimal(n as nat),
    decreases n,
{
    if n >= 10 {
        push_decimal(out, n / 10);
    }
    out.push(digit(n % 10));
}

/// The decimal numeral of `n` as a string.
pub fn decimal_string(n: u16) -> (s: String)
    ensures
        s@ == decimal(n as nat),
{
    let mut s = String::new();
    push_decimal(&mut s, n);
    s
}

/// Whether `c` has the Unicode property White_Space, which is what
/// `char::is_whitespace` tests and `str::trim` removes.
pub open spec fn is_whitespace(c: char) -> bool {
    let u = c as u32;
    ||| 0x09 <= u <= 0x0D
    ||| u == 0x20
    ||| u == 0x85
    ||| u == 0xA0
    ||| u == 0x1680
    ||| 0x2000 <= u <= 0x200A
    ||| u == 0x2028
    ||| u == 0x2029
    ||| u == 0x202F
    ||| u == 0x205F
    ||| u == 0x3000
}

/// A line is blank when nothing but white space stands in it.
pub open spec fn is_blank(line: Seq<char>) -> bool {
    forall|i: int| 0 <= i < line.len() ==> is_whitespace(#[trigger] line[i])
}

/// The index of the first line feed in `text`, or its length where it has none.
pub open spec fn first_newline(text: Seq<char>) -> int
    decreases text.len(),
{
    if text.len() == 0 || text[0] == '\n' {
        0
    } else {
        1 + first_newline(text.skip(1))
    }
}

/// `line` without the carriage return at its end, if it has one.
pub open spec fn without_trailing_cr(line: Seq<char>) -> Seq<char> {
    if line.len() > 0 && line.last() == '\r' {
        line.drop_last()
    } else {
        line
    }
}

/// The lines of `text`, as `str::lines` gives them: a line ends at a line
/// feed, which is not part of it, nor is a carriage return directly before
/// that line feed. What follows the last line feed is a line of its own
/// unless it is empty, and keeps a carriage return at its end.
pub open spec fn lines(text: Seq<char>) -> Seq<Seq<char>>
    decreases text.len(),
{
    if text.len() == 0 {
        Seq::empty()
    } else {
        let k = first_newline(text);
        if 0 <= k < text.len() {
            seq![without_trailing_cr(text.take(k))] + lines(text.skip(k + 1))
        } else {
            seq![text]
        }
    }
}

/// Whether `c` is white space.
pub fn char_is_whitespace(c: char) -> (b: bool)
    ensures
        b == is_whitespace(c),
{
    let u: u32 = c as u32;
    (0x09 <= u && u <= 0x0D) || u == 0x20 || u == 0x85 || u == 0xA0 || u == 0x1680 || (0x2000 <= u
        && u <= 0x200A) || u == 0x2028 || u == 0x2029 || u == 0x202F || u == 0x205F || u == 0x3000
}

/// Whether nothing but white space stands in `line`.
pub fn blank(line: &str) -> (b: bool)
    ensures
        b == is_blank(line@),
{
    broadcast use vstd::string::group_string_axioms;

    let mut chars = line.chars();
    let ghost mut at: int = 0;
    assert(line@.skip(0) =~= line@);
    loop
        invariant
            chars.obeys_prophetic_iter_laws(),
            chars.remaining() == line@.skip(at),
            0 <= at <= line@.len(),
            forall|j: int| 0 <= j < at ==> is_whitespace(#[trigger] line@[j]),
        ensures
            at == line@.len(),
            is_blank(line@),
        decreases line@.len() - at,
    {
        match chars.next() {
            None => {
                break ;
            },
            Some(c) => {
                assert(c == line@[at]);
                assert(line@.skip(at).drop_first() =~= line@.skip(at + 1));
                if !char_is_whitespace(c) {
                    return false;
                }
                proof {
                    at = at + 1;
                }
            },
        }
    }
    true
}

/// The first character of `text`, if it has one.
pub fn first_char(text: &str) -> (c: Option<char>)
    ensures
        c == (if text@.len() > 0 {
            Some(text@[0])
        } else {
            None
        }),
{
    broadcast use vstd::string::group_string_axioms;

    let mut chars = text.chars();
    chars.next()
}

/// Where the first line feed of a text stands: before `k` there is none,
/// and `k` is the end of the text or holds one.
pub proof fn lemma_first_newline(text: Seq<char>, k: int)
    requires
        0 <= k <= text.len(),
        forall|j: int| 0 <= j < k ==> text[j] != '\n',
        k == text.len() || text[k] == '\n',
    ensures
        first_newline(text) == k,
    decreases k,
{
    if k > 0 {
        let rest = text.skip(1);
        assert forall|j: int| 0 <= j < k - 1 implies rest[j] != '\n' by {
            assert(rest[j] == text[j + 1]);
        }
        lemma_first_newline(rest, k - 1);
    }
}

/// Splits `text` into its lines.
pub fn split_lines(text: &str) -> (out: Vec<String>)
    ensures
        out.deep_view() == lines(text@),
{
    broadcast use vstd::string::group_string_axioms;

    let mut out: Vec<String> = Vec::new();
    let mut line = String::new();
    // A carriage return that was read and not yet written to `line`: it is
    // dropped if a line feed follows.
    let mut held_cr = false;
    let mut chars = text.chars();
    let ghost mut at: int = 0;
    let ghost mut start: int = 0;
    assert(text@.skip(0) =~= text@);
    assert(out.deep_view() =~= Seq::<Seq<char>>::empty());
    loop
        invariant
            chars.obeys_prophetic_iter_laws(),
            chars.remaining() == text@.skip(at),
            0 <= start <= at <= text@.len(),
            out.deep_view() + lines(text@.skip(start)) == lines(text@),
            forall|j: int| start <= j < at ==> text@[j] != '\n',
            line@ + (if held_cr {
                seq!['\r']
            } else {
                Seq::empty()
            }) == text@.subrange(start, at),
            !held_cr ==> line@.len() == 0 || line@.last() != '\r',
        ensures
            at == text@.len(),
        decreases text@.len() - at,
    {
        let ghost before = out.deep_view();
        let ghost tail = text@.skip(start);
        match chars.next() {
            None => {
                break ;
            },
            Some(c) => {
                assert(c == text@[at]);
                assert(text@.skip(at).drop_first() =~= text@.skip(at + 1));
                assert(text@.subrange(start, at + 1) =~= text@.subrange(start, at).push(c));
                if c == '\n' {
                    proof {
                        assert forall|j: int| 0 <= j < at - start implies tail[j] != '\n' by {
                            assert(tail[j] == text@[start + j]);
                        }
                        lemma_first_newline(tail, at - start);
                        assert(tail.take(at - start) =~= text@.subrange(start, at));
                        assert(tail.skip(at - start + 1) =~= text@.skip(at + 1));
                        assert(without_trailing_cr(text@.subrange(start, at)) =~= line@);
                    }
                    out.push(line);
                    line = String::new();
                    held_cr = false;
                    proof {
                        assert(out.deep_view() =~= before.push(without_trailing_cr(
                            text@.subrange(start, at),
                        )));
                        assert(out.deep_view() + lines(text@.skip(at + 1)) =~= before + lines(
                            tail,
                        ));
                        start = at + 1;
                        assert(text@.subrange(start, start) =~= Seq::<char>::empty());
                    }
                } else {
                    if held_cr {
                        line.push('\r');
                    }
                    if c == '\r' {
                        held_cr = true;
                    } else {
                        line.push(c);
                        held_cr = false;
                    }
                }
                proof {
                    at = at + 1;
                }
            },
        }
    }
    if held_cr {
        line.push('\r');
    }
    let ghost tail = text@.skip(start);
    let ghost before = out.deep_view();
    assert(tail =~= text@.subrange(start, at));
    assert(line@ =~= tail);
    proof {
        assert forall|j: int| 0 <= j < tail.len() implies tail[j] != '\n' by {
            assert(tail[j] == text@[start + j]);
        }
        lemma_first_newline(tail, tail.len() as int);
    }
    if !line.as_str().is_empty() {
        out.push(line);
        assert(lines(tail) =~= seq![tail]);
        assert(out.deep_view() =~= before + lines(tail));
    } else {
        assert(out.deep_view() =~= before + lines(tail));
    }
    out
}

} // verus!
