//! Text building blocks shared by every renderer: joining pieces with a
//! separator, decimal numerals, and the executable counterparts of both.

use vstd::prelude::*;
use vstd::string::*;

verus! {

/// The line separator of the output format.
pub open spec fn newline() -> Seq<char> {
    seq!['\n']
}

/// The pieces of `parts` in order, with `sep` between each two neighbours.
///
/// No separator precedes the first piece or follows the last one, and an
/// empty piece still counts as a piece.
pub open spec fn joined(parts: Seq<Seq<char>>, sep: Seq<char>) -> Seq<char>
    decreases parts.len(),
{
    if parts.len() == 0 {
        Seq::empty()
    } else if parts.len() == 1 {
        parts[0]
    } else {
        joined(parts.drop_last(), sep) + sep + parts.last()
    }
}

/// `parts` joined by newlines.
pub open spec fn lines(parts: Seq<Seq<char>>) -> Seq<char> {
    joined(parts, newline())
}

/// The contents of a sequence of strings.
pub open spec fn texts(v: Seq<String>) -> Seq<Seq<char>> {
    Seq::new(v.len(), |i: int| v[i]@)
}

/// The numeral of a single decimal digit.
pub open spec fn digit(d: nat) -> Seq<char> {
    if d == 0 {
        "0"@
    } else if d == 1 {
        "1"@
    } else if d == 2 {
        "2"@
    } else if d == 3 {
        "3"@
    } else if d == 4 {
        "4"@
    } else if d == 5 {
        "5"@
    } else if d == 6 {
        "6"@
    } else if d == 7 {
        "7"@
    } else if d == 8 {
        "8"@
    } else {
        "9"@
    }
}

/// The decimal numeral of `n`, without leading zeros.
pub open spec fn decimal(n: nat) -> Seq<char>
    decreases n,
{
    if n < 10 {
        digit(n)
    } else {
        decimal(n / 10) + digit(n % 10)
    }
}

/// Appending one piece to a joined text: the first piece stands alone, every
/// later one is preceded by the separator.
pub proof fn lemma_joined_push(parts: Seq<Seq<char>>, piece: Seq<char>, sep: Seq<char>)
    ensures
        joined(parts.push(piece), sep) == if parts.len() == 0 {
            piece
        } else {
            joined(parts, sep) + sep + piece
        },
{
    assert(parts.push(piece).drop_last() =~= parts);
}

/// Joining a concatenation: where both halves hold pieces, the joined halves
/// meet at one separator.
pub proof fn lemma_joined_concat(a: Seq<Seq<char>>, b: Seq<Seq<char>>, sep: Seq<char>)
    ensures
        joined(a + b, sep) == if a.len() == 0 {
            joined(b, sep)
        } else if b.len() == 0 {
            joined(a, sep)
        } else {
            joined(a, sep) + sep + joined(b, sep)
        },
    decreases b.len(),
{
    if a.len() == 0 {
        assert(a + b =~= b);
    } else if b.len() == 0 {
        assert(a + b =~= a);
    } else {
        let front = b.drop_last();
        assert(a + b =~= (a + front).push(b.last()));
        assert(b =~= front.push(b.last()));
        lemma_joined_push(a + front, b.last(), sep);
        lemma_joined_push(front, b.last(), sep);
        lemma_joined_concat(a, front, sep);
        if front.len() > 0 {
            assert(joined(a, sep) + sep + joined(front, sep) + sep + b.last() =~= joined(a, sep) + sep
                + (joined(front, sep) + sep + b.last()));
        }
    }
}

/// The contents of a vector of strings after one more string was pushed.
pub proof fn lemma_texts_push(v: Seq<String>, s: String)
    ensures
        texts(v.push(s)) == texts(v).push(s@),
{
}

/// The contents of two vectors of strings, one behind the other.
pub proof fn lemma_texts_concat(a: Seq<String>, b: Seq<String>)
    ensures
        texts(a + b) == texts(a) + texts(b),
{
}

/// Joins `parts` with newlines.
pub fn join_lines(parts: &Vec<String>) -> (r: String)
    ensures
        r@ == lines(texts(parts@)),
{
    let mut out = String::new();
    let n: usize = parts.len();
    let mut i: usize = 0;
    while i < n
        invariant
            n == parts.len(),
            i <= n,
            out@ == lines(texts(parts@).take(i as int)),
        decreases n - i,
    {
        proof {
            let done = texts(parts@).take(i as int);
            reveal_strlit("\n");
            assert(texts(parts@).take(i + 1) =~= done.push(parts[i as int]@));
            lemma_joined_push(done, parts[i as int]@, newline());
        }
        if i > 0 {
            out.append("\n");
        }
        out.append(parts[i].as_str());
        i = i + 1;
    }
    proof {
        assert(texts(parts@).take(n as int) =~= texts(parts@));
    }
    out
}

/// The numeral of one decimal digit.
fn digit_str(d: u8) -> (s: &'static str)
    requires
        d < 10,
    ensures
        s@ == digit(d as nat),
{
    if d == 0 {
        "0"
    } else if d == 1 {
        "1"
    } else if d == 2 {
        "2"
    } else if d == 3 {
        "3"
    } else if d == 4 {
        "4"
    } else if d == 5 {
        "5"
    } else if d == 6 {
        "6"
    } else if d == 7 {
        "7"
    } else if d == 8 {
        "8"
    } else {
        "9"
    }
}

/// Writes `n` as a decimal numeral.
pub fn decimal_string(n: u8) -> (r: String)
    ensures
        r@ == decimal(n as nat),
{
    let ones: u8 = n % 10;
    let tens: u8 = (n / 10) % 10;
    let hundreds: u8 = n / 100;
    let mut out = String::new();
    if hundreds > 0 {
        out.append(digit_str(hundreds));
    }
    if n >= 10 {
        out.append(digit_str(tens));
    }
    out.append(digit_str(ones));
    proof {
        let m = n as nat;
        if m >= 100 {
            assert(decimal(m / 10) == decimal(m / 10 / 10) + digit((m / 10) % 10));
        } else if m >= 10 {
            assert(decimal(m / 10) == digit(m / 10));
        }
    }
    out
}

/// `head` and `rest` written one after the other.
pub fn prefixed(head: &str, rest: &str) -> (r: String)
    ensures
        r@ == head@ + rest@,
{
    let mut out = String::from_str(head);
    out.append(rest);
    out
}

/// `head`, `middle` and `tail` written one after another.
pub fn enclose(head: &str, middle: &str, tail: &str) -> (r: String)
    ensures
        r@ == head@ + middle@ + tail@,
{
    let mut out = String::from_str(head);
    out.append(middle);
    out.append(tail);
    out
}

} // verus!
