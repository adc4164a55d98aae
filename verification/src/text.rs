//! Character-level text utilities with exact specifications: whitespace,
//! trimming, line splitting, decimal rendering and parsing.

use vstd::prelude::*;

verus! {

/// Collects the characters of `s` into a vector.
pub fn to_chars(s: &str) -> (v: Vec<char>)
    ensures
        v@ == s@,
{
    let mut v: Vec<char> = Vec::new();
    for c in it: s.chars()
        invariant
            v@ == it.seq().take(it.index() as int),
    {
        v.push(c);
    }
    v
}

/// `String::push`: appends one character at the end of the string, as std
/// documents it.
#[verifier::external_body]
pub(crate) fn push_char(s: &mut String, c: char)
    ensures
        final(s)@ == old(s)@.push(c),
{
    s.push(c);
}

/// Builds a string from the characters `v[start..end]`.
pub fn string_of_range(v: &Vec<char>, start: usize, end: usize) -> (s: String)
    requires
        start <= end <= v@.len(),
    ensures
        s@ == v@.subrange(start as int, end as int),
{
    let mut s = String::new();
    let mut i = start;
    while i < end
        invariant
            start <= i <= end <= v@.len(),
            s@ == v@.subrange(start as int, i as int),
        decreases end - i,
    {
        push_char(&mut s, v[i]);
        assert(v@.subrange(start as int, i + 1) == v@.subrange(start as int, i as int).push(v@[i as int]));
        i = i + 1;
    }
    s
}

/// Builds a string from all characters of `v`.
pub fn string_of_chars(v: &Vec<char>) -> (s: String)
    ensures
        s@ == v@,
{
    let s = string_of_range(v, 0, v.len());
    assert(v@.subrange(0, v@.len() as int) == v@);
    s
}

/// The characters that Unicode gives the `White_Space` property, which is
/// what `char::is_whitespace` and `str::trim` go by.
pub open spec fn is_ws(c: char) -> bool {
    ||| ('\u{9}' <= c && c <= '\u{d}')
    ||| c == ' '
    ||| c == '\u{85}'
    ||| c == '\u{a0}'
    ||| c == '\u{1680}'
    ||| ('\u{2000}' <= c && c <= '\u{200a}')
    ||| c == '\u{2028}'
    ||| c == '\u{2029}'
    ||| c == '\u{202f}'
    ||| c == '\u{205f}'
    ||| c == '\u{3000}'
}

/// Whether `c` is Unicode whitespace.
pub fn is_whitespace(c: char) -> (r: bool)
    ensures
        r == is_ws(c),
{
    ('\u{9}' <= c && c <= '\u{d}') || c == ' ' || c == '\u{85}' || c == '\u{a0}' || c
        == '\u{1680}' || ('\u{2000}' <= c && c <= '\u{200a}') || c == '\u{2028}' || c
        == '\u{2029}' || c == '\u{202f}' || c == '\u{205f}' || c == '\u{3000}'
}

/// `s` without its leading whitespace.
pub open spec fn trim_start(s: Seq<char>) -> Seq<char>
    decreases s.len(),
{
    if s.len() > 0 && is_ws(s[0]) {
        trim_start(s.drop_first())
    } else {
        s
    }
}

/// `s` without its trailing whitespace.
pub open spec fn trim_end(s: Seq<char>) -> Seq<char>
    decreases s.len(),
{
    if s.len() > 0 && is_ws(s.last()) {
        trim_end(s.drop_last())
    } else {
        s
    }
}

/// `s` without leading and trailing whitespace, as `str::trim` gives it.
pub open spec fn trim(s: Seq<char>) -> Seq<char> {
    trim_end(trim_start(s))
}

/// Narrows the range `v[start..end]` to its trimmed part.
pub fn trim_range(v: &Vec<char>, start: usize, end: usize) -> (r: (usize, usize))
    requires
        start <= end <= v@.len(),
    ensures
        start <= r.0 <= r.1 <= end,
        v@.subrange(r.0 as int, r.1 as int) == trim(v@.subrange(start as int, end as int)),
{
    let mut s = start;
    while s < end && is_whitespace(v[s])
        invariant
            start <= s <= end <= v@.len(),
            trim_start(v@.subrange(start as int, end as int)) == trim_start(
                v@.subrange(s as int, end as int),
            ),
        decreases end - s,
    {
        assert(v@.subrange(s as int, end as int).drop_first() == v@.subrange(s + 1, end as int));
        s = s + 1;
    }
    assert(trim_start(v@.subrange(s as int, end as int)) == v@.subrange(s as int, end as int));
    let mut e = end;
    while e > s && is_whitespace(v[e - 1])
        invariant
            start <= s <= e <= end <= v@.len(),
            trim(v@.subrange(start as int, end as int)) == trim_end(
                v@.subrange(s as int, e as int),
            ),
        decreases e - s,
    {
        assert(v@.subrange(s as int, e as int).drop_last() == v@.subrange(s as int, e - 1));
        e = e - 1;
    }
    (s, e)
}


/// `s` cut at every `sep`, as `str::split` gives it: one piece more than
/// there are separators.
pub open spec fn split_on(s: Seq<char>, sep: char) -> Seq<Seq<char>>
    decreases s.len(),
{
    if s.len() == 0 {
        seq![Seq::<char>::empty()]
    } else {
        let rest = split_on(s.drop_last(), sep);
        if s.last() == sep {
            rest.push(Seq::<char>::empty())
        } else {
            rest.update(rest.len() - 1, rest.last().push(s.last()))
        }
    }
}

/// A piece without the carriage return that ends it, if any.
pub open spec fn strip_cr(p: Seq<char>) -> Seq<char> {
    if p.len() > 0 && p.last() == '\r' {
        p.drop_last()
    } else {
        p
    }
}

/// The lines of `s`, as `str::lines` gives them: split at `\n`, a `\r`
/// before a `\n` dropped, and no empty line after a final `\n`.
pub open spec fn lines(s: Seq<char>) -> Seq<Seq<char>> {
    let parts = split_on(s, '\n');
    let body = parts.drop_last().map_values(|p: Seq<char>| strip_cr(p));
    if parts.last().len() == 0 {
        body
    } else {
        body.push(parts.last())
    }
}

/// A split has at least one piece.
pub proof fn lemma_split_on_nonempty(s: Seq<char>, sep: char)
    ensures
        split_on(s, sep).len() >= 1,
    decreases s.len(),
{
    if s.len() > 0 {
        lemma_split_on_nonempty(s.drop_last(), sep);
    }
}

/// How the lines of `s` stand to its pieces.
pub proof fn lemma_lines_shape(s: Seq<char>)
    ensures
        split_on(s, '\n').len() >= 1,
        lines(s).len() == split_on(s, '\n').len() - 1 + (if split_on(s, '\n').last().len()
            == 0 {
            0int
        } else {
            1int
        }),
        forall|j: int|
            0 <= j < split_on(s, '\n').len() - 1 ==> #[trigger] lines(s)[j] == strip_cr(
                split_on(s, '\n')[j],
            ),
        split_on(s, '\n').last().len() != 0 ==> lines(s)[split_on(s, '\n').len() - 1]
            == split_on(s, '\n').last(),
{
    lemma_split_on_nonempty(s, '\n');
}

/// The ranges of `v` that hold its lines, in order.
pub fn line_ranges(v: &Vec<char>) -> (r: Vec<(usize, usize)>)
    ensures
        r@.len() == lines(v@).len(),
        forall|k: int|
            #![trigger r@[k]]
            0 <= k < r@.len() ==> {
                &&& r@[k].0 <= r@[k].1 <= v@.len()
                &&& v@.subrange(r@[k].0 as int, r@[k].1 as int) =~= lines(v@)[k]
            },
{
    let n = v.len();
    let mut done: Vec<(usize, usize)> = Vec::new();
    let mut cur: usize = 0;
    let mut i: usize = 0;
    assert(v@.take(0) == Seq::<char>::empty());
    while i < n
        invariant
            n == v@.len(),
            cur <= i <= n,
            split_on(v@.take(i as int), '\n').len() == done@.len() + 1,
            forall|k: int|
                #![trigger done@[k]]
                0 <= k < done@.len() ==> {
                    &&& done@[k].0 <= done@[k].1 <= i
                    &&& v@.subrange(done@[k].0 as int, done@[k].1 as int) =~= split_on(
                        v@.take(i as int),
                        '\n',
                    )[k]
                },
            split_on(v@.take(i as int), '\n')[done@.len() as int] == v@.subrange(
                cur as int,
                i as int,
            ),
        decreases n - i,
    {
        let ghost prev = split_on(v@.take(i as int), '\n');
        assert(v@.take(i + 1).drop_last() == v@.take(i as int));
        assert(v@.take(i + 1).last() == v@[i as int]);
        proof {
            lemma_split_on_nonempty(v@.take(i as int), '\n');
        }
        if v[i] == '\n' {
            done.push((cur, i));
            cur = i + 1;
            assert(split_on(v@.take(i + 1), '\n') == prev.push(Seq::<char>::empty()));
        } else {
            assert(v@.subrange(cur as int, i + 1) == v@.subrange(cur as int, i as int).push(
                v@[i as int],
            ));
            assert(split_on(v@.take(i + 1), '\n') == prev.update(
                prev.len() - 1,
                prev.last().push(v@[i as int]),
            ));
        }
        i = i + 1;
        assert forall|k: int| 0 <= k < done@.len() - 1 implies #[trigger] split_on(
            v@.take(i as int),
            '\n',
        )[k] == prev[k] by {}
    }
    assert(v@.take(n as int) == v@);
    assert forall|j: int| #![trigger done@[j]] 0 <= j < done@.len() implies {
        &&& done@[j].0 <= done@[j].1 <= n
        &&& v@.subrange(done@[j].0 as int, done@[j].1 as int) =~= split_on(v@, '\n')[j]
    } by {
        assert(split_on(v@.take(n as int), '\n')[j] == split_on(v@, '\n')[j]);
    }
    proof {
        lemma_lines_shape(v@);
    }
    let mut r: Vec<(usize, usize)> = Vec::new();
    let mut k: usize = 0;
    while k < done.len()
        invariant
            n == v@.len(),
            split_on(v@, '\n').len() == done@.len() + 1,
            k <= done@.len(),
            r@.len() == k,
            forall|j: int|
                0 <= j < done@.len() ==> #[trigger] lines(v@)[j] == strip_cr(split_on(v@, '\n')[j]),
            forall|j: int|
                #![trigger done@[j]]
                0 <= j < done@.len() ==> {
                    &&& done@[j].0 <= done@[j].1 <= n
                    &&& v@.subrange(done@[j].0 as int, done@[j].1 as int) =~= split_on(
                        v@,
                        '\n',
                    )[j]
                },
            forall|j: int|
                #![trigger r@[j]]
                0 <= j < k ==> {
                    &&& r@[j].0 <= r@[j].1 <= n
                    &&& v@.subrange(r@[j].0 as int, r@[j].1 as int) =~= lines(v@)[j]
                },
        decreases done@.len() - k,
    {
        let (s, e) = done[k];
        assert(split_on(v@, '\n')[k as int] == v@.subrange(s as int, e as int));
        assert(lines(v@)[k as int] == strip_cr(split_on(v@, '\n')[k as int]));
        if e > s && v[e - 1] == '\r' {
            assert(v@.subrange(s as int, e as int).drop_last() == v@.subrange(s as int, e - 1));
            r.push((s, e - 1));
        } else {
            r.push((s, e));
        }
        k = k + 1;
    }
    if cur < n {
        r.push((cur, n));
        assert(split_on(v@, '\n')[done@.len() as int] == v@.subrange(cur as int, n as int));
    }
    r
}


/// The ASCII digit of `d`, for `d` below ten.
pub open spec fn digit_char(d: nat) -> char {
    (d + 48) as char
}

/// The decimal rendering of `n`, without sign or leading zeros.
pub open spec fn decimal(n: nat) -> Seq<char>
    decreases n,
{
    if n < 10 {
        seq![digit_char(n)]
    } else {
        decimal(n / 10).push(digit_char(n % 10))
    }
}

/// Renders `n` in decimal.
pub fn decimal_string(n: u64) -> (s: String)
    ensures
        s@ == decimal(n as nat),
{
    let mut acc: Vec<char> = Vec::new();
    let mut m = n;
    while m >= 10
        invariant
            decimal(n as nat) == decimal(m as nat) + acc@,
        decreases m,
    {
        let ghost prev = acc@;
        let d = (m % 10) as u8;
        let c = (48u8 + d) as char;
        acc.insert(0, c);
        assert(acc@ == seq![digit_char((m % 10) as nat)] + prev);
        assert(decimal(m as nat) == decimal((m / 10) as nat).push(digit_char((m % 10) as nat)));
        assert(decimal((m / 10) as nat).push(digit_char((m % 10) as nat)) + prev == decimal(
            (m / 10) as nat,
        ) + acc@);
        m = m / 10;
    }
    let ghost prev = acc@;
    let c = (48u8 + m as u8) as char;
    acc.insert(0, c);
    assert(acc@ == decimal(m as nat) + prev);
    string_of_chars(&acc)
}

/// Whether `c` is an ASCII digit.
pub open spec fn is_digit(c: char) -> bool {
    '0' <= c && c <= '9'
}

/// The value of the ASCII digit `c`.
pub open spec fn digit_value(c: char) -> nat {
    (c as int - 48) as nat
}

/// The value of a string of decimal digits.
pub open spec fn digits_value(s: Seq<char>) -> nat
    decreases s.len(),
{
    if s.len() == 0 {
        0
    } else {
        digits_value(s.drop_last()) * 10 + digit_value(s.last())
    }
}

/// Whether every character of `s` is an ASCII digit.
pub open spec fn all_digits(s: Seq<char>) -> bool {
    forall|i: int| 0 <= i < s.len() ==> #[trigger] is_digit(s[i])
}

/// What `str::parse::<u16>` gives: an optional `+`, then at least one ASCII
/// digit and nothing else, with a value that fits in 16 bits.
pub open spec fn parse_u16(s: Seq<char>) -> Option<u16> {
    let d = if s.len() > 0 && s[0] == '+' {
        s.drop_first()
    } else {
        s
    };
    if d.len() > 0 && all_digits(d) && digits_value(d) <= 65535 {
        Some(digits_value(d) as u16)
    } else {
        None
    }
}

/// Parses `v[start..end]` as a `u16`.
pub fn parse_u16_range(v: &Vec<char>, start: usize, end: usize) -> (r: Option<u16>)
    requires
        start <= end <= v@.len(),
    ensures
        r == parse_u16(v@.subrange(start as int, end as int)),
{
    let ghost s = v@.subrange(start as int, end as int);
    let mut i = start;
    if i < end && v[i] == '+' {
        i = i + 1;
    }
    let ghost d = v@.subrange(i as int, end as int);
    assert(d == (if s.len() > 0 && s[0] == '+' { s.drop_first() } else { s }));
    if i == end {
        return None;
    }
    let mut acc: u32 = 0;
    let mut j = i;
    while j < end
        invariant
            start <= i <= j <= end <= v@.len(),
            s == v@.subrange(start as int, end as int),
            d == (if s.len() > 0 && s[0] == '+' {
                s.drop_first()
            } else {
                s
            }),
            d == v@.subrange(i as int, end as int),
            all_digits(v@.subrange(i as int, j as int)),
            acc <= 65535,
            acc == digits_value(v@.subrange(i as int, j as int)),
        decreases end - j,
    {
        let c = v[j];
        assert(v@.subrange(i as int, j + 1).drop_last() == v@.subrange(i as int, j as int));
        assert(d[j - i] == c);
        if !('0' <= c && c <= '9') {
            assert(!is_digit(d[j - i]));
            assert(!all_digits(d));
            return None;
        }
        let dv = (c as u32) - 48;
        let next = acc * 10 + dv;
        assert(digits_value(v@.subrange(i as int, j + 1)) == next);
        if next > 65535 {
            proof {
                assert(v@.subrange(i as int, j + 1) == d.take(j + 1 - i));
                lemma_digits_value_grows(v@.subrange(i as int, j + 1), d);
            }
            return None;
        }
        acc = next;
        assert(all_digits(v@.subrange(i as int, j + 1))) by {
            assert forall|k: int| 0 <= k < j + 1 - i implies #[trigger] is_digit(
                v@.subrange(i as int, j + 1)[k],
            ) by {
                if k < j - i {
                    assert(v@.subrange(i as int, j + 1)[k] == v@.subrange(i as int, j as int)[k]);
                }
            }
        }
        j = j + 1;
    }
    assert(v@.subrange(i as int, end as int) == d);
    Some(acc as u16)
}

/// What `str::parse::<u32>` gives: an optional `+`, then at least one ASCII
/// digit and nothing else, with a value that fits in 32 bits.
pub open spec fn parse_u32(s: Seq<char>) -> Option<u32> {
    let d = if s.len() > 0 && s[0] == '+' {
        s.drop_first()
    } else {
        s
    };
    if d.len() > 0 && all_digits(d) && digits_value(d) <= 4294967295 {
        Some(digits_value(d) as u32)
    } else {
        None
    }
}

/// Parses `v[start..end]` as a `u32`.
pub fn parse_u32_range(v: &Vec<char>, start: usize, end: usize) -> (r: Option<u32>)
    requires
        start <= end <= v@.len(),
    ensures
        r == parse_u32(v@.subrange(start as int, end as int)),
{
    let ghost s = v@.subrange(start as int, end as int);
    let mut i = start;
    if i < end && v[i] == '+' {
        i = i + 1;
    }
    let ghost d = v@.subrange(i as int, end as int);
    assert(d == (if s.len() > 0 && s[0] == '+' { s.drop_first() } else { s }));
    if i == end {
        return None;
    }
    let mut acc: u64 = 0;
    let mut j = i;
    while j < end
        invariant
            start <= i <= j <= end <= v@.len(),
            s == v@.subrange(start as int, end as int),
            d == (if s.len() > 0 && s[0] == '+' {
                s.drop_first()
            } else {
                s
            }),
            d == v@.subrange(i as int, end as int),
            all_digits(v@.subrange(i as int, j as int)),
            acc <= 4294967295,
            acc == digits_value(v@.subrange(i as int, j as int)),
        decreases end - j,
    {
        let c = v[j];
        assert(v@.subrange(i as int, j + 1).drop_last() == v@.subrange(i as int, j as int));
        assert(d[j - i] == c);
        if !('0' <= c && c <= '9') {
            assert(!is_digit(d[j - i]));
            assert(!all_digits(d));
            return None;
        }
        let dv = (c as u64) - 48;
        let next = acc * 10 + dv;
        assert(digits_value(v@.subrange(i as int, j + 1)) == next);
        if next > 4294967295 {
            proof {
                assert(v@.subrange(i as int, j + 1) == d.take(j + 1 - i));
                lemma_digits_value_grows(v@.subrange(i as int, j + 1), d);
            }
            return None;
        }
        acc = next;
        assert(all_digits(v@.subrange(i as int, j + 1))) by {
            assert forall|k: int| 0 <= k < j + 1 - i implies #[trigger] is_digit(
                v@.subrange(i as int, j + 1)[k],
            ) by {
                if k < j - i {
                    assert(v@.subrange(i as int, j + 1)[k] == v@.subrange(i as int, j as int)[k]);
                }
            }
        }
        j = j + 1;
    }
    assert(v@.subrange(i as int, end as int) == d);
    Some(acc as u32)
}

/// Extending a string of digits never lowers its value.
pub proof fn lemma_digits_value_grows(p: Seq<char>, s: Seq<char>)
    requires
        p.len() <= s.len(),
        p == s.take(p.len() as int),
    ensures
        digits_value(p) <= digits_value(s),
    decreases s.len(),
{
    if p.len() < s.len() {
        assert(p == s.drop_last().take(p.len() as int));
        lemma_digits_value_grows(p, s.drop_last());
    } else {
        assert(p == s);
    }
}

/// A decimal rendering is made of digits.
pub proof fn lemma_decimal_digits(n: nat)
    ensures
        all_digits(decimal(n)),
        decimal(n).len() > 0,
        digits_value(decimal(n)) == n,
        decimal(n)[0] != '+',
    decreases n,
{
    let c = digit_char(n % 10);
    assert(digit_value(c) == n % 10);
    if n < 10 {
        assert(decimal(n).drop_last() == Seq::<char>::empty());
        assert(digits_value(Seq::<char>::empty()) == 0);
        assert(decimal(n).last() == c);
    } else {
        lemma_decimal_digits(n / 10);
        let s = decimal(n);
        assert(s.drop_last() == decimal(n / 10));
        assert forall|i: int| 0 <= i < s.len() implies #[trigger] is_digit(s[i]) by {
            if i < s.len() - 1 {
                assert(s[i] == decimal(n / 10)[i]);
            }
        }
    }
}

/// Parsing a decimal rendering gives the number back.
pub proof fn lemma_parse_decimal(n: u16)
    ensures
        parse_u16(decimal(n as nat)) == Some(n),
{
    lemma_decimal_digits(n as nat);
}


/// Lines written one after the other, each ended by `\n`.
pub open spec fn join_lines(ls: Seq<Seq<char>>) -> Seq<char>
    decreases ls.len(),
{
    if ls.len() == 0 {
        Seq::<char>::empty()
    } else {
        join_lines(ls.drop_last()) + ls.last() + seq!['\n']
    }
}

/// Whether `s` holds no `c`.
pub open spec fn lacks(s: Seq<char>, c: char) -> bool {
    forall|i: int| 0 <= i < s.len() ==> s[i] != c
}

/// Appending text without a separator extends the last piece.
pub proof fn lemma_split_on_extend(x: Seq<char>, w: Seq<char>, sep: char)
    requires
        lacks(w, sep),
    ensures
        split_on(x + w, sep) == split_on(x, sep).update(
            split_on(x, sep).len() - 1,
            split_on(x, sep).last() + w,
        ),
    decreases w.len(),
{
    lemma_split_on_nonempty(x, sep);
    if w.len() == 0 {
        assert(x + w == x);
        assert(split_on(x, sep).last() + w == split_on(x, sep).last());
        assert(split_on(x, sep).update(split_on(x, sep).len() - 1, split_on(x, sep).last())
            == split_on(x, sep));
    } else {
        let w0 = w.drop_last();
        lemma_split_on_extend(x, w0, sep);
        assert((x + w).drop_last() == x + w0);
        assert((x + w).last() == w.last());
        assert(w.last() != sep);
        assert(split_on(x, sep).last() + w0 + seq![w.last()] == split_on(x, sep).last() + w);
        lemma_split_on_nonempty(x + w0, sep);
        let sx = split_on(x, sep);
        let mid = split_on(x + w0, sep);
        assert(mid == sx.update(sx.len() - 1, sx.last() + w0));
        assert(mid.len() == sx.len());
        assert(mid.last() == sx.last() + w0);
        assert(split_on(x + w, sep) == mid.update(mid.len() - 1, mid.last().push(w.last())));
        assert(mid.last().push(w.last()) == sx.last() + w);
        assert(mid.update(mid.len() - 1, sx.last() + w) =~= sx.update(sx.len() - 1, sx.last() + w));
    }
}

/// Lines written by `join_lines` are read back by `lines`, when none holds a
/// line break or ends with a carriage return.
pub proof fn lemma_lines_of_join(ls: Seq<Seq<char>>)
    requires
        forall|k: int| 0 <= k < ls.len() ==> lacks(#[trigger] ls[k], '\n'),
        forall|k: int| 0 <= k < ls.len() ==> strip_cr(#[trigger] ls[k]) == ls[k],
    ensures
        split_on(join_lines(ls), '\n') == ls.push(Seq::<char>::empty()),
        lines(join_lines(ls)) == ls,
    decreases ls.len(),
{
    if ls.len() == 0 {
        assert(split_on(Seq::<char>::empty(), '\n') == seq![Seq::<char>::empty()]);
    } else {
        let prev = ls.drop_last();
        let l = ls.last();
        assert forall|k: int| 0 <= k < prev.len() implies lacks(#[trigger] prev[k], '\n') by {
            assert(prev[k] == ls[k]);
        }
        assert forall|k: int| 0 <= k < prev.len() implies strip_cr(#[trigger] prev[k]) == prev[k] by {
            assert(prev[k] == ls[k]);
        }
        lemma_lines_of_join(prev);
        let j = join_lines(prev);
        assert(lacks(l, '\n')) by {
            assert(ls[ls.len() - 1] == l);
        }
        lemma_split_on_extend(j, l, '\n');
        assert(split_on(j, '\n').last() == Seq::<char>::empty());
        assert(Seq::<char>::empty() + l == l);
        assert(split_on(j + l, '\n') == prev.push(l));
        assert(prev.push(l) == ls);
        let s = join_lines(ls);
        assert(s == j + l + seq!['\n']);
        assert(s.drop_last() == j + l);
        lemma_split_on_nonempty(j + l, '\n');
        assert(split_on(s, '\n') == ls.push(Seq::<char>::empty()));
    }
    let parts = split_on(join_lines(ls), '\n');
    assert(parts.drop_last() == ls);
    assert(parts.drop_last().map_values(|p: Seq<char>| strip_cr(p)) =~= ls);
}


/// `rel` taken from the directory `base`, as `Path::join` gives it on Unix:
/// an absolute `rel` stands alone, and one `/` separates the two parts.
pub open spec fn join_path(base: Seq<char>, rel: Seq<char>) -> Seq<char> {
    if rel.len() > 0 && rel[0] == '/' {
        rel
    } else if base.len() == 0 {
        rel
    } else if base.last() == '/' {
        base + rel
    } else {
        base + seq!['/'] + rel
    }
}

/// Joins the path `rel` onto the directory `base`.
pub fn path_join(base: &str, rel: &str) -> (r: String)
    ensures
        r@ == join_path(base@, rel@),
{
    let b = to_chars(base);
    let rc = to_chars(rel);
    if rc.len() > 0 && rc[0] == '/' {
        return String::from_str(rel);
    }
    if b.len() == 0 {
        return String::from_str(rel);
    }
    let mut r = String::from_str(base);
    if b[b.len() - 1] != '/' {
        push_char(&mut r, '/');
    }
    r.append(rel);
    r
}

/// Renders `n` in decimal, as `{}` formats it.
pub fn u32_text(n: u32) -> (s: String)
    ensures
        s@ == decimal(n as nat),
{
    decimal_string(n as u64)
}

/// The views of a sequence of strings.
pub open spec fn views(v: Seq<String>) -> Seq<Seq<char>> {
    v.map_values(|s: String| s@)
}

/// How a flag is written, as `{}` formats it.
pub open spec fn bool_text(b: bool) -> Seq<char> {
    if b {
        "true"@
    } else {
        "false"@
    }
}

/// How a flag is written.
pub fn bool_string(b: bool) -> (s: String)
    ensures
        s@ == bool_text(b),
{
    if b {
        String::from_str("true")
    } else {
        String::from_str("false")
    }
}


/// Whether two strings hold the same characters.
pub fn same_text(a: &str, b: &str) -> (r: bool)
    ensures
        r == (a@ == b@),
{
    let x = to_chars(a);
    let y = to_chars(b);
    if x.len() != y.len() {
        return false;
    }
    let mut i: usize = 0;
    while i < x.len()
        invariant
            x@ == a@,
            y@ == b@,
            x@.len() == y@.len(),
            i <= x@.len(),
            forall|k: int| 0 <= k < i ==> x@[k] == y@[k],
        decreases x@.len() - i,
    {
        if x[i] != y[i] {
            return false;
        }
        i = i + 1;
    }
    assert(x@ =~= y@);
    true
}

/// The view of an optional string.
pub open spec fn opt_view(o: Option<String>) -> Option<Seq<char>> {
    match o {
        Some(s) => Some(s@),
        None => None,
    }
}


/// Text that ends with `sep` (or is empty) ends its split with an empty
/// piece, and text after it splits on its own.
pub proof fn lemma_split_on_concat(a: Seq<char>, b: Seq<char>, sep: char)
    requires
        a.len() == 0 || a.last() == sep,
    ensures
        split_on(a, sep).last() == Seq::<char>::empty(),
        split_on(a + b, sep) == split_on(a, sep).drop_last() + split_on(b, sep),
    decreases b.len(),
{
    lemma_split_on_nonempty(a, sep);
    lemma_split_on_nonempty(b, sep);
    if a.len() > 0 {
        assert(a.drop_last().push(sep) == a);
    }
    let pa = split_on(a, sep).drop_last();
    if b.len() == 0 {
        assert(a + b == a);
        assert(split_on(b, sep) == seq![Seq::<char>::empty()]);
        assert(pa + split_on(b, sep) =~= split_on(a, sep));
    } else {
        let b0 = b.drop_last();
        let c = b.last();
        lemma_split_on_concat(a, b0, sep);
        lemma_split_on_nonempty(b0, sep);
        assert((a + b).drop_last() == a + b0);
        assert((a + b).last() == c);
        let s0 = split_on(b0, sep);
        let m = split_on(a + b0, sep);
        assert(m == pa + s0);
        if c == sep {
            assert(split_on(a + b, sep) == m.push(Seq::<char>::empty()));
            assert(split_on(b, sep) == s0.push(Seq::<char>::empty()));
            assert(m.push(Seq::<char>::empty()) =~= pa + s0.push(Seq::<char>::empty()));
        } else {
            assert(split_on(a + b, sep) == m.update(m.len() - 1, m.last().push(c)));
            assert(split_on(b, sep) == s0.update(s0.len() - 1, s0.last().push(c)));
            assert(m.last() == s0.last());
            assert(m.update(m.len() - 1, m.last().push(c)) =~= pa + s0.update(
                s0.len() - 1,
                s0.last().push(c),
            ));
        }
    }
}

/// The lines of text that ends with a line break (or is empty), followed by
/// more text, are its lines followed by those of the rest.
pub proof fn lemma_lines_concat(a: Seq<char>, b: Seq<char>)
    requires
        a.len() == 0 || a.last() == '\n',
    ensures
        lines(a + b) == lines(a) + lines(b),
{
    lemma_split_on_concat(a, b, '\n');
    lemma_split_on_nonempty(b, '\n');
    let pa = split_on(a, '\n').drop_last();
    let pb = split_on(b, '\n');
    let p = split_on(a + b, '\n');
    assert(p.drop_last() =~= pa + pb.drop_last());
    assert(p.last() == pb.last());
    let f = |q: Seq<char>| strip_cr(q);
    assert((pa + pb.drop_last()).map_values(f) =~= pa.map_values(f) + pb.drop_last().map_values(f));
    assert(lines(a) =~= pa.map_values(f));
    if pb.last().len() == 0 {
        assert(lines(a + b) =~= lines(a) + lines(b));
    } else {
        assert(lines(a + b) =~= lines(a) + lines(b));
    }
}

/// One line and its line break read back as that line.
pub proof fn lemma_lines_one(l: Seq<char>)
    requires
        lacks(l, '\n'),
    ensures
        lines(l + seq!['\n']) == seq![strip_cr(l)],
{
    lemma_split_on_extend(Seq::<char>::empty(), l, '\n');
    assert(Seq::<char>::empty() + l == l);
    assert(split_on(Seq::<char>::empty(), '\n') == seq![Seq::<char>::empty()]);
    assert(split_on(l, '\n') =~= seq![l]);
    assert((l + seq!['\n']).drop_last() == l);
    assert(split_on(l + seq!['\n'], '\n') =~= seq![l, Seq::<char>::empty()]);
    assert(lines(l + seq!['\n']) =~= seq![strip_cr(l)]);
}

/// Whitespace at the end of text changes where trimming starts only by
/// itself.
proof fn lemma_trim_start_push_ws(x: Seq<char>, c: char)
    requires
        is_ws(c),
    ensures
        trim_start(x).len() > 0 ==> trim_start(x.push(c)) == trim_start(x).push(c),
        trim_start(x).len() == 0 ==> trim_start(x.push(c)).len() == 0,
    decreases x.len(),
{
    assert(x.push(c)[0] == if x.len() == 0 { c } else { x[0] });
    if x.len() == 0 {
        assert(x.push(c).drop_first() == Seq::<char>::empty());
        assert(trim_start(Seq::<char>::empty()) == Seq::<char>::empty());
    } else if is_ws(x[0]) {
        assert(x.push(c).drop_first() == x.drop_first().push(c));
        lemma_trim_start_push_ws(x.drop_first(), c);
    }
}

/// Whitespace at the end of text does not change its trimmed form.
pub proof fn lemma_trim_push_ws(x: Seq<char>, c: char)
    requires
        is_ws(c),
    ensures
        trim(x.push(c)) == trim(x),
{
    lemma_trim_start_push_ws(x, c);
    let t = trim_start(x);
    if t.len() > 0 {
        assert(t.push(c).drop_last() == t);
    }
}

/// A carriage return at the end of a line does not change its trimmed form.
pub proof fn lemma_trim_strip_cr(l: Seq<char>)
    ensures
        trim(strip_cr(l)) == trim(l),
{
    if l.len() > 0 && l.last() == '\r' {
        assert(l.drop_last().push('\r') == l);
        lemma_trim_push_ws(l.drop_last(), '\r');
    }
}

} // verus!
