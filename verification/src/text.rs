//! Text that the library writes: decimal numbers and files made of lines.

use vstd::prelude::*;

verus! {

/// The character of a decimal digit.
pub open spec fn digit(d: nat) -> char {
    if d == 0 {
        '0'
    } else if d == 1 {
        '1'
    } else if d == 2 {
        '2'
    } else if d == 3 {
        '3'
    } else if d == 4 {
        '4'
    } else if d == 5 {
        '5'
    } else if d == 6 {
        '6'
    } else if d == 7 {
        '7'
    } else if d == 8 {
        '8'
    } else {
        '9'
    }
}

/// The decimal numeral of `n`, without leading zeros.
pub open spec fn decimal(n: nat) -> Seq<char>
    decreases n,
{
    if n < 10 {
        seq![digit(n)]
    } else {
        decimal(n / 10).push(digit(n % 10))
    }
}

/// The text of a file made of the given lines, each ended by a newline.
pub open spec fn joined(lines: Seq<Seq<char>>) -> Seq<char>
    decreases lines.len(),
{
    if lines.len() == 0 {
        Seq::empty()
    } else {
        joined(lines.drop_last()) + lines.last().push('\n')
    }
}

/// The views of a vector of strings.
pub open spec fn views(strings: Seq<String>) -> Seq<Seq<char>> {
    strings.map_values(|s: String| s@)
}

/// Whether `line` can be a line of a file: it holds no newline.
pub open spec fn is_line(line: Seq<char>) -> bool {
    forall|i: int| 0 <= i < line.len() ==> line[i] != '\n'
}

/// Whether each of `lines` can be a line of a file.
pub open spec fn all_lines(lines: Seq<Seq<char>>) -> bool {
    forall|i: int| 0 <= i < lines.len() ==> is_line(#[trigger] lines[i])
}

/// Whether `line` is one of the lines of the file `text`.
pub open spec fn has_line(text: Seq<char>, line: Seq<char>) -> bool {
    exists|lines: Seq<Seq<char>>|
        all_lines(lines) && #[trigger] joined(lines) == text && lines.contains(line)
}

/// A numeral is never empty and holds digits only.
pub proof fn lemma_decimal_digits(n: nat)
    ensures
        decimal(n).len() >= 1,
        forall|i: int| 0 <= i < decimal(n).len() ==> '0' <= #[trigger] decimal(n)[i] <= '9',
        is_line(decimal(n)),
    decreases n,
{
    if n >= 10 {
        lemma_decimal_digits(n / 10);
    }
}

/// A file of at least one line ends with a newline.
pub proof fn lemma_joined_ends_with_newline(lines: Seq<Seq<char>>)
    requires
        lines.len() > 0,
    ensures
        joined(lines).len() > 0,
        joined(lines).last() == '\n',
{
}

/// A text is the file of at most one list of lines.
pub proof fn lemma_joined_injective(a: Seq<Seq<char>>, b: Seq<Seq<char>>)
    requires
        all_lines(a),
        all_lines(b),
        joined(a) == joined(b),
    ensures
        a == b,
    decreases a.len(),
{
    if a.len() == 0 {
        if b.len() > 0 {
            lemma_joined_ends_with_newline(b);
        }
        assert(a =~= b);
    } else if b.len() == 0 {
        lemma_joined_ends_with_newline(a);
    } else {
        let head_a = joined(a.drop_last());
        let head_b = joined(b.drop_last());
        let last_a = a.last();
        let last_b = b.last();
        let body = head_a + last_a;
        assert(is_line(last_a) && is_line(last_b));
        assert(body =~= joined(a).drop_last());
        assert(head_b + last_b =~= joined(b).drop_last());
        if last_a.len() < last_b.len() {
            assert(a.drop_last().len() > 0) by {
                if a.drop_last().len() == 0 {
                    assert(head_a.len() == 0);
                }
            }
            lemma_joined_ends_with_newline(a.drop_last());
            let at = head_a.len() - 1;
            assert(body[at] == head_a.last());
            assert(body[at] == last_b[at - head_b.len()]);
        } else if last_b.len() < last_a.len() {
            assert(b.drop_last().len() > 0) by {
                if b.drop_last().len() == 0 {
                    assert(head_b.len() == 0);
                }
            }
            lemma_joined_ends_with_newline(b.drop_last());
            let at = head_b.len() - 1;
            assert((head_b + last_b)[at] == head_b.last());
            assert(body[at] == last_a[at - head_a.len()]);
        } else {
            assert(head_a =~= body.subrange(0, head_a.len() as int));
            assert(head_b =~= body.subrange(0, head_b.len() as int));
            assert(last_a =~= body.subrange(head_a.len() as int, body.len() as int));
            assert(last_b =~= body.subrange(head_b.len() as int, body.len() as int));
            assert(all_lines(a.drop_last()) && all_lines(b.drop_last())) by {
                assert forall|i: int| 0 <= i < a.drop_last().len() implies is_line(
                    #[trigger] a.drop_last()[i],
                ) by {
                    assert(a.drop_last()[i] == a[i]);
                }
                assert forall|i: int| 0 <= i < b.drop_last().len() implies is_line(
                    #[trigger] b.drop_last()[i],
                ) by {
                    assert(b.drop_last()[i] == b[i]);
                }
            }
            lemma_joined_injective(a.drop_last(), b.drop_last());
            assert(a =~= a.drop_last().push(last_a));
            assert(b =~= b.drop_last().push(last_b));
        }
    }
}

/// The lines of a file are those it was made of, and no others.
pub proof fn lemma_lines_of_joined(lines: Seq<Seq<char>>, line: Seq<char>)
    requires
        all_lines(lines),
    ensures
        has_line(joined(lines), line) <==> lines.contains(line),
{
    if has_line(joined(lines), line) {
        let other = choose|other: Seq<Seq<char>>|
            all_lines(other) && #[trigger] joined(other) == joined(lines) && other.contains(line);
        lemma_joined_injective(other, lines);
    }
}

fn digit_str(d: usize) -> (s: &'static str)
    requires
        d < 10,
    ensures
        s@ == seq![digit(d as nat)],
{
    proof {
        reveal_strlit("0");
        reveal_strlit("1");
        reveal_strlit("2");
        reveal_strlit("3");
        reveal_strlit("4");
        reveal_strlit("5");
        reveal_strlit("6");
        reveal_strlit("7");
        reveal_strlit("8");
        reveal_strlit("9");
    }
    if d == 0 {
        "0"
    } else if d == 1 {
        "1"
    } else if d == 2 {
        "2"
    } else if d == 3 {
        "3"
    } else if d == 4 {
        "4"
    } else if d == 5 {
        "5"
    } else if d == 6 {
        "6"
    } else if d == 7 {
        "7"
    } else if d == 8 {
        "8"
    } else {
        "9"
    }
}

/// Appends the decimal numeral of `n` to `text`.
pub fn push_decimal(text: &mut String, n: usize)
    ensures
        final(text)@ == old(text)@ + decimal(n as nat),
    decreases n,
{
    if n >= 10 {
        push_decimal(text, n / 10);
    }
    text.append(digit_str(n % 10));
}

/// The text of a file made of the given lines, each ended by a newline.
pub fn join_lines(lines: &Vec<String>) -> (text: String)
    ensures
        text@ == joined(views(lines@)),
{
    let mut text = String::new();
    let mut i: usize = 0;
    proof {
        reveal_strlit("\n");
    }
    while i < lines.len()
        invariant
            i <= lines.len(),
            text@ == joined(views(lines@.take(i as int))),
            "\n"@ == seq!['\n'],
        decreases lines.len() - i,
    {
        proof {
            let before = views(lines@.take(i as int));
            let after = views(lines@.take(i + 1));
            assert(after.drop_last() == before);
            assert(after.last() == lines@[i as int]@);
        }
        text.append(lines[i].as_str());
        text.append("\n");
        i += 1;
    }
    assert(lines@.take(i as int) == lines@);
    text
}

} // verus!
