//! Text formatting used in file names, process arguments and error messages:
//! decimal numbers, zero padding, and the tail of a multi-line log.

use vstd::prelude::*;
use vstd::string::StringExecFns;

verus! {

/// The ASCII digit for `d` (`0 <= d < 10`).
pub open spec fn digit_char(d: nat) -> char {
    ((48 + d) as u8) as char
}

/// The decimal representation of `n`, most significant digit first, with
/// no leading zeros (`0` is written as a single `'0'`).
pub open spec fn decimal(n: nat) -> Seq<char>
    decreases n,
{
    if n < 10 {
        seq![digit_char(n)]
    } else {
        decimal(n / 10).push(digit_char(n % 10))
    }
}

/// The decimal representation of a signed integer: a leading `'-'` for
/// negative values.
pub open spec fn signed_decimal(i: int) -> Seq<char> {
    if i < 0 {
        seq!['-'] + decimal((-i) as nat)
    } else {
        decimal(i as nat)
    }
}

/// `s` left-padded with `'0'` to at least `width` characters.
pub open spec fn zero_padded(s: Seq<char>, width: nat) -> Seq<char> {
    if s.len() >= width {
        s
    } else {
        Seq::new((width - s.len()) as nat, |i: int| '0') + s
    }
}

/// The one-character string for a decimal digit.
fn digit_str(d: u64) -> (s: &'static str)
    requires
        d < 10,
    ensures
        s@ == seq![digit_char(d as nat)],
{
    proof {
        reveal_strlit("0");
        reveal_strlit("1");
        reveal_strlit("2");
        reveal_strlit("3");
        reveal_strlit("4");
        reveal_strlit("5");
        reveal_strlit("6");
        reveal_strlit("7");
        reveal_strlit("8");
        reveal_strlit("9");
    }
    match d {
        0 => "0",
        1 => "1",
        2 => "2",
        3 => "3",
        4 => "4",
        5 => "5",
        6 => "6",
        7 => "7",
        8 => "8",
        _ => "9",
    }
}

/// Append the decimal representation of `n` to `s`.
pub fn push_decimal(s: &mut String, n: u64)
    ensures
        final(s)@ == old(s)@ + decimal(n as nat),
    decreases n,
{
    if n >= 10 {
        push_decimal(s, n / 10);
    }
    s.append(digit_str(n % 10));
    proof {
        if n >= 10 {
            assert(decimal(n as nat) == decimal((n / 10) as nat).push(digit_char((n % 10) as nat)));
        }
    }
}

} // verus!

verus! {

/// The characters of `s`, in order.
pub fn chars_of(s: &str) -> (v: Vec<char>)
    ensures
        v@ == s@,
{
    broadcast use vstd::string::group_string_axioms;
    let mut v: Vec<char> = Vec::new();
    for c in it: s.chars()
        invariant
            v@ == it.seq().take(it.index() as int),
            it.seq() == s@,
    {
        v.push(c);
    }
    v
}

} // verus!

verus! {

/// Index of the first `'\n'` in `s`, or `s.len()` when there is none.
pub open spec fn first_newline(s: Seq<char>) -> nat
    decreases s.len(),
{
    if s.len() == 0 {
        0
    } else if s[0] == '\n' {
        0
    } else {
        1 + first_newline(s.drop_first())
    }
}

/// `line` without one trailing carriage return.
pub open spec fn strip_cr(line: Seq<char>) -> Seq<char> {
    if line.len() > 0 && line.last() == '\r' {
        line.drop_last()
    } else {
        line
    }
}

pub proof fn lemma_first_newline_bound(s: Seq<char>)
    ensures
        first_newline(s) <= s.len(),
        first_newline(s) < s.len() ==> s[first_newline(s) as int] == '\n',
        forall|j: int| 0 <= j < first_newline(s) ==> s[j] != '\n',
    decreases s.len(),
{
    if s.len() > 0 && s[0] != '\n' {
        lemma_first_newline_bound(s.drop_first());
        assert forall|j: int| 0 <= j < first_newline(s) implies s[j] != '\n' by {
            if j > 0 {
                assert(s[j] == s.drop_first()[j - 1]);
            }
        }
    }
}

/// The lines of `s` as `str::lines` yields them: split at each `'\n'`, a
/// `'\r'` directly before that `'\n'` removed, and no empty line after a
/// final line ending.
pub open spec fn lines(s: Seq<char>) -> Seq<Seq<char>>
    decreases s.len(),
{
    if s.len() == 0 {
        seq![]
    } else {
        let k = first_newline(s);
        if k >= s.len() {
            seq![s]
        } else {
            proof {
                lemma_first_newline_bound(s);
            }
            seq![strip_cr(s.take(k as int))] + lines(s.skip((k + 1) as int))
        }
    }
}

/// The pieces of `parts` joined with `sep` between consecutive pieces.
pub open spec fn join(parts: Seq<Seq<char>>, sep: Seq<char>) -> Seq<char>
    decreases parts.len(),
{
    if parts.len() == 0 {
        seq![]
    } else if parts.len() == 1 {
        parts[0]
    } else {
        join(parts.drop_last(), sep) + sep + parts.last()
    }
}

/// The last `n` elements of `ls` (all of them when there are fewer), in
/// reverse order: the last element first.
pub open spec fn last_reversed(ls: Seq<Seq<char>>, n: nat) -> Seq<Seq<char>> {
    let m = if ls.len() < n { ls.len() } else { n };
    Seq::new(m, |i: int| ls[ls.len() - 1 - i])
}

/// The last `n` lines of `text`, newest first, joined by `'\n'`.
pub open spec fn log_tail(text: Seq<char>, n: nat) -> Seq<char> {
    join(last_reversed(lines(text), n), seq!['\n'])
}

} // verus!

verus! {

proof fn lemma_first_newline_at(t: Seq<char>, k: int)
    requires
        0 <= k <= t.len(),
        forall|j: int| 0 <= j < k ==> t[j] != '\n',
        k == t.len() || t[k] == '\n',
    ensures
        first_newline(t) == k,
    decreases k,
{
    if k > 0 {
        let u = t.drop_first();
        assert forall|j: int| 0 <= j < k - 1 implies u[j] != '\n' by {
            assert(u[j] == t[j + 1]);
        }
        if k < t.len() {
            assert(u[k - 1] == t[k]);
        }
        lemma_first_newline_at(u, k - 1);
    }
}

/// The lines that the character ranges `spans` cut out of `s`.
pub open spec fn span_lines(s: Seq<char>, spans: Seq<(usize, usize)>) -> Seq<Seq<char>> {
    Seq::new(spans.len(), |i: int| s.subrange(spans[i].0 as int, spans[i].1 as int))
}

/// The character ranges of the lines of `s` (see [`lines`]).
fn line_spans(s: &Vec<char>) -> (spans: Vec<(usize, usize)>)
    ensures
        span_lines(s@, spans@) == lines(s@),
        forall|i: int| 0 <= i < spans.len() ==> #[trigger] spans[i].0 <= spans[i].1 <= s.len(),
{
    let len = s.len();
    let mut spans: Vec<(usize, usize)> = Vec::new();
    let mut pos: usize = 0;
    proof {
        assert(s@.skip(0) == s@);
        assert(span_lines(s@, spans@) + lines(s@.skip(0)) == lines(s@));
    }
    while pos < len
        invariant
            len == s.len(),
            pos <= len,
            span_lines(s@, spans@) + lines(s@.skip(pos as int)) == lines(s@),
            forall|i: int| 0 <= i < spans.len() ==> #[trigger] spans[i].0 <= spans[i].1 <= s.len(),
        decreases len - pos,
    {
        let mut k: usize = pos;
        while k < len && s[k] != '\n'
            invariant
                len == s.len(),
                pos <= k <= len,
                forall|j: int| pos <= j < k ==> s[j] != '\n',
            decreases len - k,
        {
            k = k + 1;
        }
        let ghost t = s@.skip(pos as int);
        let ghost old_spans = spans@;
        proof {
            assert forall|j: int| 0 <= j < k - pos implies t[j] != '\n' by {
                assert(t[j] == s@[pos + j]);
            }
            if k < len {
                assert(t[k - pos] == s@[k as int]);
            }
            lemma_first_newline_at(t, k - pos);
        }
        if k == len {
            spans.push((pos, len));
            proof {
                assert(t.len() > 0);
                assert(lines(t) == seq![t]);
                assert(s@.subrange(pos as int, len as int) == t);
                assert(s@.skip(len as int).len() == 0);
                assert(lines(s@.skip(len as int)) == Seq::<Seq<char>>::empty());
                assert(span_lines(s@, spans@) == span_lines(s@, old_spans).push(t));
            }
            pos = len;
        } else {
            let mut end: usize = k;
            if k > pos && s[k - 1] == '\r' {
                end = k - 1;
            }
            spans.push((pos, end));
            proof {
                let line = t.take(k - pos);
                assert(line == s@.subrange(pos as int, k as int));
                assert(strip_cr(line) == s@.subrange(pos as int, end as int)) by {
                    if k > pos && s@[k - 1] == '\r' {
                        assert(line.last() == s@[k - 1]);
                        assert(line.drop_last() == s@.subrange(pos as int, end as int));
                    } else if line.len() > 0 {
                        assert(line.last() == s@[k - 1]);
                    }
                }
                assert(t.skip(k - pos + 1) == s@.skip(k + 1));
                assert(lines(t) == seq![strip_cr(line)] + lines(s@.skip(k + 1)));
                assert(span_lines(s@, spans@) == span_lines(s@, old_spans).push(strip_cr(line)));
                assert(span_lines(s@, spans@) + lines(s@.skip(k + 1)) == span_lines(s@, old_spans)
                    + lines(t));
            }
            pos = k + 1;
        }
    }
    proof {
        assert(s@.skip(pos as int).len() == 0);
        assert(lines(s@.skip(pos as int)) == Seq::<Seq<char>>::empty());
        assert(span_lines(s@, spans@) + lines(s@.skip(pos as int)) == span_lines(s@, spans@));
    }
    spans
}

/// The last `n` lines of `text` (as `str::lines` splits them), newest
/// first, joined by `'\n'`.
pub fn log_tail_string(text: &str, n: usize) -> (r: String)
    ensures
        r@ == log_tail(text@, n as nat),
{
    let chars = chars_of(text);
    let spans = line_spans(&chars);
    let ghost ls = lines(text@);
    let count = spans.len();
    let m = if count < n { count } else { n };
    let ghost picked = last_reversed(ls, n as nat);
    let mut out = String::new();
    proof {
        reveal_strlit("\n");
        assert(picked.take(0) == Seq::<Seq<char>>::empty());
    }
    let mut i: usize = 0;
    while i < m
        invariant
            chars@ == text@,
            span_lines(chars@, spans@) == ls,
            forall|j: int| 0 <= j < spans.len() ==> #[trigger] spans[j].0 <= spans[j].1 <= chars.len(),
            count == spans.len(),
            m == picked.len(),
            picked == last_reversed(ls, n as nat),
            i <= m,
            m <= count,
            out@ == join(picked.take(i as int), seq!['\n']),
        decreases m - i,
    {
        let (a, b) = spans[count - 1 - i];
        let piece = text.substring_char(a, b);
        proof {
            assert(piece@ == picked[i as int]);
            assert(picked.take(i + 1).drop_last() == picked.take(i as int));
            assert(picked.take(i + 1).last() == picked[i as int]);
        }
        if i > 0 {
            out.append("\n");
        }
        out.append(piece);
        proof {
            reveal_strlit("\n");
            if i == 0 {
                assert(picked.take(1) == seq![picked[0]]);
            } else {
                let tk = picked.take(i + 1);
                assert(join(tk, seq!['\n']) == join(tk.drop_last(), seq!['\n']) + seq!['\n']
                    + tk.last());
            }
        }
        i = i + 1;
    }
    proof {
        assert(picked.take(m as int) == picked);
    }
    out
}

} // verus!

verus! {

/// The decimal representation of `n` as a new string.
pub fn decimal_string(n: u64) -> (s: String)
    ensures
        s@ == decimal(n as nat),
{
    let mut s = String::new();
    push_decimal(&mut s, n);
    s
}

/// The number of decimal digits of `n`.
pub fn decimal_len(n: u64) -> (k: usize)
    ensures
        k == decimal(n as nat).len(),
        1 <= k <= 20,
    decreases n,
{
    if n < 10 {
        1
    } else {
        let k = decimal_len(n / 10);
        proof {
            assert(n / 10 < 0x1999_9999_9999_999a);
            if k == 20 {
                lemma_decimal_len_lower((n / 10) as nat, 18);
                reveal_with_fuel(pow10, 20);
                assert(false);
            }
        }
        k + 1
    }
}

/// `10` to the power `k`.
pub open spec fn pow10(k: nat) -> nat
    decreases k,
{
    if k == 0 {
        1
    } else {
        10 * pow10((k - 1) as nat)
    }
}

proof fn lemma_decimal_len_lower(n: nat, k: nat)
    requires
        decimal(n).len() >= k + 2,
    ensures
        n >= 10 * pow10(k),
    decreases k,
{
    if k > 0 {
        lemma_decimal_len_lower(n / 10, (k - 1) as nat);
    }
}

/// Append `n` in decimal, left-padded with zeros to at least `width` digits.
pub fn push_zero_padded(s: &mut String, n: u64, width: usize)
    ensures
        final(s)@ == old(s)@ + zero_padded(decimal(n as nat), width as nat),
{
    let digits = decimal_len(n);
    let ghost start = s@;
    let mut pad: usize = 0;
    if digits < width {
        let count = width - digits;
        while pad < count
            invariant
                count == width - digits,
                pad <= count,
                s@ == start + Seq::new(pad as nat, |i: int| '0'),
            decreases count - pad,
        {
            proof {
                reveal_strlit("0");
            }
            s.append("0");
            pad = pad + 1;
            proof {
                assert(Seq::new(pad as nat, |i: int| '0') == Seq::new((pad - 1) as nat, |i: int| '0')
                    + seq!['0']);
            }
        }
    }
    push_decimal(s, n);
    proof {
        if digits < width {
            assert(pad == width - digits);
        } else {
            assert(pad == 0);
            assert(Seq::new(0, |i: int| '0') + s@ == s@);
        }
    }
}

/// Append `i` in decimal, with a leading `'-'` when negative.
pub fn push_signed_decimal(s: &mut String, i: i64)
    ensures
        final(s)@ == old(s)@ + signed_decimal(i as int),
{
    if i < 0 {
        proof {
            reveal_strlit("-");
        }
        s.append("-");
        let magnitude: u64 = if i == i64::MIN {
            0x8000_0000_0000_0000u64
        } else {
            (-i) as u64
        };
        push_decimal(s, magnitude);
    } else {
        push_decimal(s, i as u64);
    }
}

} // verus!

verus! {

/// The number that a string of decimal digits denotes.
pub open spec fn digits_value(s: Seq<char>) -> int
    decreases s.len(),
{
    if s.len() == 0 {
        0
    } else {
        10 * digits_value(s.drop_last()) + (s.last() as int - 48)
    }
}

proof fn lemma_digit_char_code(d: nat)
    requires
        d < 10,
    ensures
        digit_char(d) as int == 48 + d,
{
    assert(((48 + d) as u8) as int == 48 + d);
}

/// Reading back the decimal representation of `n` gives `n`.
pub proof fn lemma_decimal_value(n: nat)
    ensures
        digits_value(decimal(n)) == n,
    decreases n,
{
    lemma_digit_char_code(n % 10);
    if n >= 10 {
        lemma_decimal_value(n / 10);
        let d = decimal(n);
        assert(d.drop_last() == decimal(n / 10));
        assert(d.last() == digit_char(n % 10));
        assert(digits_value(d) == 10 * digits_value(d.drop_last()) + (d.last() as int - 48));
    } else {
        let d = decimal(n);
        assert(d.drop_last() =~= Seq::<char>::empty());
        assert(digits_value(Seq::<char>::empty()) == 0);
        assert(d.last() == digit_char(n));
        assert(digits_value(d) == 10 * digits_value(d.drop_last()) + (d.last() as int - 48));
    }
}

proof fn lemma_leading_zeros_value(k: nat, s: Seq<char>)
    ensures
        digits_value(Seq::new(k, |i: int| '0') + s) == digits_value(s),
    decreases s.len(), k,
{
    let z = Seq::new(k, |i: int| '0');
    if s.len() == 0 {
        assert(z + s =~= z);
        if k > 0 {
            assert(z.drop_last() =~= Seq::new((k - 1) as nat, |i: int| '0'));
            lemma_leading_zeros_value((k - 1) as nat, Seq::<char>::empty());
            assert(Seq::new((k - 1) as nat, |i: int| '0') + Seq::<char>::empty() =~= z.drop_last());
        }
    } else {
        assert((z + s).drop_last() =~= z + s.drop_last());
        assert((z + s).last() == s.last());
        lemma_leading_zeros_value(k, s.drop_last());
    }
}

/// Padding with zeros does not change the number a digit string denotes.
pub proof fn lemma_zero_padded_value(s: Seq<char>, width: nat)
    ensures
        digits_value(zero_padded(s, width)) == digits_value(s),
{
    if s.len() < width {
        lemma_leading_zeros_value((width - s.len()) as nat, s);
    }
}

} // verus!

verus! {

/// Every character of a decimal representation is an ASCII digit
/// (`'0'..='9'`).
pub proof fn lemma_decimal_is_digits(n: nat)
    ensures
        forall|j: int|
            0 <= j < decimal(n).len() ==> 48 <= #[trigger] (decimal(n)[j] as int) <= 57,
    decreases n,
{
    lemma_digit_char_code(n % 10);
    if n >= 10 {
        lemma_decimal_is_digits(n / 10);
        let d = decimal(n);
        assert forall|j: int| 0 <= j < d.len() implies 48 <= #[trigger] (d[j] as int) <= 57 by {
            if j < d.len() - 1 {
                assert(d[j] == decimal(n / 10)[j]);
            }
        }
    }
}

/// A number below `10^k` (with `k >= 1`) has at most `k` decimal digits.
pub proof fn lemma_decimal_len_upper(n: nat, k: nat)
    requires
        k >= 1,
        n < pow10(k),
    ensures
        decimal(n).len() <= k,
    decreases k,
{
    if n >= 10 {
        if k == 1 {
            assert(pow10(1) == 10) by {
                reveal_with_fuel(pow10, 2);
            }
        } else {
            assert(n / 10 < pow10((k - 1) as nat)) by (nonlinear_arith)
                requires
                    n < 10 * pow10((k - 1) as nat),
            ;
            lemma_decimal_len_upper(n / 10, (k - 1) as nat);
        }
    }
}

/// Zero padding to `width` gives a string of length `max(|s|, width)`:
/// `'0'` characters followed by `s` itself, nothing cut off.
pub proof fn lemma_zero_padded_shape(s: Seq<char>, width: nat)
    ensures
        zero_padded(s, width).len() == (if s.len() >= width {
            s.len()
        } else {
            width
        }),
        zero_padded(s, width).skip(zero_padded(s, width).len() - s.len()) == s,
        forall|j: int|
            0 <= j < zero_padded(s, width).len() - s.len() ==> #[trigger] zero_padded(s, width)[j]
                == '0',
{
    let z = zero_padded(s, width);
    assert(z.skip(z.len() - s.len()) =~= s);
}

/// The first `n` lines of a log tail are the log's lines from the last one
/// backwards: piece `i` is line `len - 1 - i`, and there are
/// `min(n, len)` pieces.
pub proof fn lemma_last_reversed_newest_first(ls: Seq<Seq<char>>, n: nat)
    ensures
        last_reversed(ls, n).len() == (if ls.len() < n {
            ls.len()
        } else {
            n
        }),
        forall|i: int|
            0 <= i < last_reversed(ls, n).len() ==> #[trigger] last_reversed(ls, n)[i] == ls[ls.len()
                - 1 - i],
{
}

/// A joined sequence of pieces begins with its first piece.
pub proof fn lemma_join_starts_with_first(parts: Seq<Seq<char>>, sep: Seq<char>)
    requires
        parts.len() >= 1,
    ensures
        parts[0].len() <= join(parts, sep).len(),
        join(parts, sep).take(parts[0].len() as int) == parts[0],
    decreases parts.len(),
{
    if parts.len() > 1 {
        let init = parts.drop_last();
        lemma_join_starts_with_first(init, sep);
        assert(init[0] == parts[0]);
        let j = join(parts, sep);
        assert(j == join(init, sep) + sep + parts.last());
        assert(j.take(parts[0].len() as int) =~= join(init, sep).take(parts[0].len() as int));
    }
}

/// The tail of a non-empty log, with room for at least one line, begins
/// with the log's last line.
pub proof fn lemma_log_tail_starts_with_last_line(text: Seq<char>, n: nat)
    requires
        n >= 1,
        lines(text).len() >= 1,
    ensures
        lines(text).last().len() <= log_tail(text, n).len(),
        log_tail(text, n).take(lines(text).last().len() as int) == lines(text).last(),
{
    let picked = last_reversed(lines(text), n);
    lemma_last_reversed_newest_first(lines(text), n);
    assert(picked[0] == lines(text).last());
    lemma_join_starts_with_first(picked, seq!['\n']);
}

} // verus!
