//! Decimal text: printing numbers as base-10 digit strings and parsing them
//! back, with the exact acceptance and failure behaviour of the standard
//! library's unsigned integer parser (an optional leading `+`, digits only,
//! failure on empty input, on a stray character, and on overflow).

use vstd::prelude::*;

verus! {

/// Whether `c` is a decimal digit.
pub open spec fn is_digit_char(c: char) -> bool {
    48 <= c as u32 <= 57
}

/// The numeric value of a digit character.
pub open spec fn digit_of(c: char) -> nat {
    (c as u32 - 48) as nat
}

/// The digit character for a value below ten.
pub open spec fn char_of_digit(d: nat) -> char {
    ((d + 48) as u8) as char
}

/// The base-10 spelling of `n`, most significant digit first, no sign and no
/// leading zero (except for zero itself).
pub open spec fn dec_digits(n: nat) -> Seq<char>
    decreases n,
{
    if n < 10 {
        seq![char_of_digit(n)]
    } else {
        dec_digits(n / 10).push(char_of_digit(n % 10))
    }
}

/// How a numeric parse ended.
#[verifier::ext_equal]
pub enum NumParse {
    /// All characters were digits and the value fits the width.
    Num(nat),
    /// The input was empty.
    Empty,
    /// A character that is not a digit was reached.
    BadDigit,
    /// The value exceeded the width before the end of the input.
    Overflow,
}

/// One left-to-right scan from position `i` with accumulator `acc`: the first
/// failure wins, exactly as the standard parser behaves.
pub open spec fn parse_digits_from(s: Seq<char>, i: int, acc: nat, max: nat) -> NumParse
    decreases s.len() - i,
{
    if i < 0 || i >= s.len() {
        NumParse::Num(acc)
    } else if !is_digit_char(s[i]) {
        NumParse::BadDigit
    } else if acc * 10 + digit_of(s[i]) > max {
        NumParse::Overflow
    } else {
        parse_digits_from(s, i + 1, acc * 10 + digit_of(s[i]), max)
    }
}

/// Parsing `s` as an unsigned number of at most `max`: an optional leading
/// `+`, then at least one digit.
pub open spec fn parse_uint(s: Seq<char>, max: nat) -> NumParse {
    if s.len() == 0 {
        NumParse::Empty
    } else {
        let body = if s[0] == '+' {
            s.skip(1)
        } else {
            s
        };
        if body.len() == 0 {
            NumParse::BadDigit
        } else {
            parse_digits_from(body, 0, 0, max)
        }
    }
}

/// How an executable numeric parse failed.
#[derive(Debug, Clone, PartialEq, Eq)]
pub enum ParseFail {
    Empty,
    BadDigit,
    Overflow,
}

impl ParseFail {
    /// The description the standard library gives the same failure.
    pub fn message(&self) -> (r: String)
        ensures
            r@ == self.message_model(),
    {
        match self {
            ParseFail::Empty => String::from_str("cannot parse integer from empty string"),
            ParseFail::BadDigit => String::from_str("invalid digit found in string"),
            ParseFail::Overflow => String::from_str("number too large to fit in target type"),
        }
    }

    /// What [`ParseFail::message`] yields.
    pub open spec fn message_model(self) -> Seq<char> {
        match self {
            ParseFail::Empty => "cannot parse integer from empty string"@,
            ParseFail::BadDigit => "invalid digit found in string"@,
            ParseFail::Overflow => "number too large to fit in target type"@,
        }
    }
}

/// Relates an executable parse result to the model of the parse.
pub open spec fn parse_result_matches(r: Result<u64, ParseFail>, p: NumParse) -> bool {
    match r {
        Ok(v) => p == NumParse::Num(v as nat),
        Err(ParseFail::Empty) => p is Empty,
        Err(ParseFail::BadDigit) => p is BadDigit,
        Err(ParseFail::Overflow) => p is Overflow,
    }
}

/// Parses `s` as an unsigned decimal number of at most `max`.
pub fn parse_u64_capped(s: &str, max: u64) -> (r: Result<u64, ParseFail>)
    ensures
        parse_result_matches(r, parse_uint(s@, max as nat)),
{
    let n = s.unicode_len();
    if n == 0 {
        return Err(ParseFail::Empty);
    }
    let mut i: usize = 0;
    if s.get_char(0) == '+' {
        i = 1;
        if n == 1 {
            proof {
                assert(s@.skip(1).len() == 0);
            }
            return Err(ParseFail::BadDigit);
        }
    }
    let ghost body: Seq<char> = if s@[0] == '+' {
        s@.skip(1)
    } else {
        s@
    };
    let ghost start: int = i as int;
    proof {
        assert(forall|j: int| 0 <= j < body.len() ==> body[j] == s@[start + j]);
    }
    let mut acc: u64 = 0;
    while i < n
        invariant
            start <= i <= n,
            start == (if s@.len() > 0 && s@[0] == '+' {
                1int
            } else {
                0int
            }),
            n == s@.len(),
            n >= 1,
            body == (if s@[0] == '+' {
                s@.skip(1)
            } else {
                s@
            }),
            body.len() == n - start,
            forall|j: int| 0 <= j < body.len() ==> body[j] == s@[start + j],
            acc <= max,
            parse_digits_from(body, 0, 0, max as nat) == parse_digits_from(
                body,
                i - start,
                acc as nat,
                max as nat,
            ),
        decreases n - i,
    {
        let c = s.get_char(i);
        let cv = c as u32;
        if cv < 48 || cv > 57 {
            return Err(ParseFail::BadDigit);
        }
        let d = (cv - 48) as u64;
        let q = max / 10;
        let rem = max % 10;
        if acc > q || (acc == q && d > rem) {
            proof {
                assert(acc as nat * 10 + d as nat > max as nat) by (nonlinear_arith)
                    requires
                        acc as nat > max as nat / 10 || (acc as nat == max as nat / 10 && d as nat
                            > max as nat % 10),
                        d < 10,
                ;
            }
            return Err(ParseFail::Overflow);
        }
        proof {
            assert(acc as nat * 10 + d as nat <= max as nat) by (nonlinear_arith)
                requires
                    acc as nat <= max as nat / 10,
                    acc as nat == max as nat / 10 ==> d as nat <= max as nat % 10,
                    d < 10,
            ;
        }
        acc = acc * 10 + d;
        i += 1;
    }
    Ok(acc)
}

/// Every character of a decimal spelling is a digit, and there is at least
/// one.
pub proof fn lemma_dec_digits_are_digits(n: nat)
    ensures
        dec_digits(n).len() >= 1,
        forall|i: int| 0 <= i < dec_digits(n).len() ==> is_digit_char(#[trigger] dec_digits(n)[i]),
    decreases n,
{
    if n >= 10 {
        lemma_dec_digits_are_digits(n / 10);
    }
}

/// Appending a digit to the input multiplies the parsed value by ten and adds
/// the digit.
proof fn lemma_parse_push(s: Seq<char>, i: int, acc: nat, max: nat, c: char)
    requires
        0 <= i <= s.len(),
    ensures
        parse_digits_from(s.push(c), i, acc, max) == (match parse_digits_from(s, i, acc, max) {
            NumParse::Num(v) => if !is_digit_char(c) {
                NumParse::BadDigit
            } else if v * 10 + digit_of(c) > max {
                NumParse::Overflow
            } else {
                NumParse::Num(v * 10 + digit_of(c))
            },
            other => other,
        }),
    decreases s.len() - i,
{
    assert(s.push(c).len() == s.len() + 1);
    if i < s.len() {
        assert(s.push(c)[i] == s[i]);
        if is_digit_char(s[i]) && acc * 10 + digit_of(s[i]) <= max {
            lemma_parse_push(s, i + 1, acc * 10 + digit_of(s[i]), max, c);
        }
    } else {
        assert(s.push(c)[i] == c);
    }
}

/// Parsing the spelling of `n` yields `n`, whenever `n` fits the width.
pub proof fn lemma_parse_dec_digits(n: nat, max: nat)
    requires
        n <= max,
    ensures
        parse_digits_from(dec_digits(n), 0, 0, max) == NumParse::Num(n),
        parse_uint(dec_digits(n), max) == NumParse::Num(n),
    decreases n,
{
    lemma_dec_digits_are_digits(n);
    if n < 10 {
        assert(parse_digits_from(dec_digits(n), 0, 0, max) == NumParse::Num(n)) by {
            reveal_with_fuel(parse_digits_from, 3);
            assert(digit_of(char_of_digit(n)) == n);
        }
    } else {
        lemma_parse_dec_digits(n / 10, max);
        lemma_parse_push(dec_digits(n / 10), 0, 0, max, char_of_digit(n % 10));
        assert((n / 10) * 10 + n % 10 == n) by (nonlinear_arith);
        assert(digit_of(char_of_digit(n % 10)) == n % 10);
    }
    assert(dec_digits(n)[0] != '+');
}

/// Appends one character to a string.
///
/// Relies on `String::push`: appends exactly the given character.
#[verifier::external_body]
pub fn push_char(s: &mut String, c: char)
    ensures
        final(s)@ == old(s)@.push(c),
{
    s.push(c);
}

/// The base-10 rendering of `n`.
pub fn fmt_u64(n: u64) -> (r: String)
    ensures
        r@ == dec_digits(n as nat),
{
    let mut rev: Vec<char> = Vec::new();
    let mut m: u64 = n;
    proof {
        assert(dec_digits(n as nat) + rev@.reverse() =~= dec_digits(n as nat));
    }
    loop
        invariant_except_break
            m == 0 ==> rev@.len() == 0 && n == 0,
            m > 0 ==> dec_digits(n as nat) == dec_digits(m as nat) + rev@.reverse(),
            rev@.len() == 0 ==> m == n,
        ensures
            dec_digits(n as nat) == rev@.reverse(),
        decreases m, 1int,
    {
        let d = ((m % 10) as u8 + 48) as char;
        let ghost rev0 = rev@;
        rev.push(d);
        proof {
            let mm = m as nat;
            assert(rev@.reverse() =~= seq![d] + rev0.reverse());
            if m == 0 {
                assert(n == 0);
                assert(dec_digits(n as nat) == dec_digits(mm));
                assert(rev0.reverse().len() == 0);
                assert(dec_digits(mm) + rev0.reverse() =~= dec_digits(mm));
            }
            if mm >= 10 {
                assert(dec_digits(mm) == dec_digits(mm / 10).push(d));
                assert(dec_digits(n as nat) == dec_digits(mm) + rev0.reverse());
                assert(dec_digits(mm / 10).push(d) + rev0.reverse() =~= dec_digits(mm / 10)
                    + rev@.reverse());
                assert(dec_digits(n as nat) == dec_digits(mm / 10) + rev@.reverse());
            } else {
                assert(dec_digits(mm) =~= seq![d]);
                assert(dec_digits(n as nat) == dec_digits(mm) + rev0.reverse());
                assert(dec_digits(mm) + rev0.reverse() =~= rev@.reverse());
                assert(dec_digits(n as nat) == rev@.reverse());
            }
        }
        m = m / 10;
        if m == 0 {
            break;
        }
    }
    let mut out = String::new();
    let mut i: usize = rev.len();
    proof {
        assert(rev@.subrange(i as int, rev@.len() as int).reverse() =~= Seq::<char>::empty());
    }
    while i > 0
        invariant
            i <= rev@.len(),
            out@ == rev@.subrange(i as int, rev@.len() as int).reverse(),
        decreases i,
    {
        i -= 1;
        push_char(&mut out, rev[i]);
        proof {
            assert(out@ =~= rev@.subrange(i as int, rev@.len() as int).reverse());
        }
    }
    proof {
        assert(rev@.subrange(0, rev@.len() as int) =~= rev@);
    }
    out
}

/// The character sequences of a sequence of strings.
pub open spec fn views_of(s: Seq<String>) -> Seq<Seq<char>>
    decreases s,
{
    if s.len() == 0 {
        Seq::empty()
    } else {
        seq![s[0]@] + views_of(s.skip(1))
    }
}

pub broadcast proof fn lemma_views_of(s: Seq<String>)
    ensures
        (#[trigger] views_of(s)).len() == s.len(),
        forall|i: int| 0 <= i < s.len() ==> views_of(s)[i] == s[i]@,
    decreases s,
{
    if s.len() > 0 {
        lemma_views_of(s.skip(1));
    }
}

/// The parts of `s` between occurrences of `sep`, in order: one part more
/// than there are separators, parts possibly empty.
pub open spec fn split_char(s: Seq<char>, sep: char) -> Seq<Seq<char>>
    decreases s.len(),
{
    if s.len() == 0 {
        seq![Seq::empty()]
    } else if s[0] == sep {
        seq![Seq::<char>::empty()] + split_char(s.skip(1), sep)
    } else {
        let rest = split_char(s.skip(1), sep);
        seq![seq![s[0]] + rest[0]] + rest.skip(1)
    }
}

pub proof fn lemma_split_len(s: Seq<char>, sep: char)
    ensures
        split_char(s, sep).len() >= 1,
    decreases s.len(),
{
    if s.len() > 0 {
        lemma_split_len(s.skip(1), sep);
    }
}

/// A string without the separator is a single part.
pub proof fn lemma_split_whole(s: Seq<char>, sep: char)
    requires
        forall|i: int| 0 <= i < s.len() ==> s[i] != sep,
    ensures
        split_char(s, sep) == seq![s],
    decreases s.len(),
{
    if s.len() == 0 {
        assert(split_char(s, sep) =~~= seq![s]);
    } else {
        lemma_split_whole(s.skip(1), sep);
        assert(seq![s[0]] + s.skip(1) =~= s);
        assert(split_char(s, sep) =~~= seq![s]);
    }
}

/// Splitting at the first separator: a separator-free prefix becomes the
/// first part, and the rest is split on its own.
pub proof fn lemma_split_concat(a: Seq<char>, rest: Seq<char>, sep: char)
    requires
        forall|i: int| 0 <= i < a.len() ==> a[i] != sep,
    ensures
        split_char(a + seq![sep] + rest, sep) == seq![a] + split_char(rest, sep),
    decreases a.len(),
{
    let s = a + seq![sep] + rest;
    if a.len() == 0 {
        assert(s[0] == sep);
        assert(s.skip(1) =~= rest);
        assert(split_char(s, sep) =~~= seq![a] + split_char(rest, sep));
    } else {
        lemma_split_concat(a.skip(1), rest, sep);
        assert(s[0] == a[0]);
        assert(s.skip(1) =~= a.skip(1) + seq![sep] + rest);
        let r = split_char(s.skip(1), sep);
        assert(r == seq![a.skip(1)] + split_char(rest, sep));
        assert(seq![s[0]] + r[0] =~= a);
        assert(r.skip(1) =~= split_char(rest, sep));
        assert(split_char(s, sep) =~~= seq![a] + split_char(rest, sep));
    }
}

/// Appending one character to the text appends it to the last part, or opens
/// a new empty part if it is the separator.
pub proof fn lemma_split_push(s: Seq<char>, sep: char, c: char)
    ensures
        split_char(s.push(c), sep) == (if c == sep {
            split_char(s, sep).push(Seq::empty())
        } else {
            split_char(s, sep).update(
                split_char(s, sep).len() - 1,
                split_char(s, sep).last().push(c),
            )
        }),
    decreases s.len(),
{
    reveal_with_fuel(split_char, 3);
    lemma_split_len(s, sep);
    if s.len() == 0 {
        if c == sep {
            assert(s.push(c)[0] == sep);
            assert(s.push(c).skip(1) =~= Seq::<char>::empty());
            assert(split_char(s.push(c), sep) =~~= split_char(s, sep).push(Seq::empty()));
        } else {
            assert(s.push(c)[0] == c);
            assert(s.push(c).skip(1) =~= Seq::<char>::empty());
            let rest = split_char(s.push(c).skip(1), sep);
            assert(split_char(s.push(c), sep) =~~= split_char(s, sep).update(
                0,
                split_char(s, sep).last().push(c),
            ));
        }
    } else {
        lemma_split_push(s.skip(1), sep, c);
        lemma_split_len(s.skip(1), sep);
        assert(s.push(c)[0] == s[0]);
        assert(s.push(c).skip(1) =~= s.skip(1).push(c));
        if c == sep {
            if s[0] == sep {
                assert(split_char(s.push(c), sep) == seq![Seq::<char>::empty()] + split_char(
                    s.skip(1).push(c),
                    sep,
                ));
                assert(split_char(s.skip(1).push(c), sep) == split_char(s.skip(1), sep).push(
                    Seq::empty(),
                ));
                assert(split_char(s.push(c), sep) =~~= split_char(s, sep).push(Seq::empty()));
            } else {
                assert(split_char(s.skip(1), sep).push(Seq::<char>::empty()).skip(1) =~= split_char(
                    s.skip(1),
                    sep,
                ).skip(1).push(Seq::empty()));
                assert(split_char(s.push(c), sep) =~~= split_char(s, sep).push(Seq::empty()));
            }
        } else {
            let r = split_char(s.skip(1), sep);
            let rl = r.len() - 1;
            if s[0] == sep {
                assert(split_char(s.push(c), sep) =~~= split_char(s, sep).update(
                    split_char(s, sep).len() - 1,
                    split_char(s, sep).last().push(c),
                ));
            } else {
                if rl == 0 {
                    assert(r.update(rl, r.last().push(c)).skip(1) =~= r.skip(1));
                    assert(seq![s[0]] + r.update(rl, r.last().push(c))[0] =~= (seq![s[0]]
                        + r[0]).push(c));
                } else {
                    assert(r.update(rl, r.last().push(c))[0] == r[0]);
                    assert(r.update(rl, r.last().push(c)).skip(1) =~= r.skip(1).update(
                        rl - 1,
                        r.skip(1).last().push(c),
                    ));
                }
                assert(split_char(s.push(c), sep) =~~= split_char(s, sep).update(
                    split_char(s, sep).len() - 1,
                    split_char(s, sep).last().push(c),
                ));
            }
        }
    }
}

/// Splits a string at every occurrence of an ASCII separator.
pub fn split_str(s: &str, sep: char) -> (parts: Vec<String>)
    ensures
        views_of(parts@) == split_char(s@, sep),
{
    let n = s.unicode_len();
    let mut parts: Vec<String> = Vec::new();
    let mut cur: String = String::new();
    let mut i: usize = 0;
    while i < n
        invariant
            i <= n,
            n == s@.len(),
            views_of(parts@).push(cur@) == split_char(s@.take(i as int), sep),
        decreases n - i,
    {
        let ghost prefix = s@.take(i as int);
        let c = s.get_char(i);
        proof {
            assert(prefix.push(c) =~= s@.take(i + 1));
            lemma_split_push(prefix, sep, c);
            lemma_views_of(parts@);
            lemma_split_len(prefix, sep);
        }
        if c == sep {
            parts.push(cur);
            cur = String::new();
            proof {
                lemma_views_of(parts@);
                assert(views_of(parts@).push(cur@) =~~= split_char(s@.take(i + 1), sep));
            }
        } else {
            push_char(&mut cur, c);
            proof {
                lemma_views_of(parts@);
                assert(views_of(parts@).push(cur@) =~~= split_char(s@.take(i + 1), sep));
            }
        }
        i += 1;
    }
    let ghost parts0 = parts@;
    let ghost cur0 = cur@;
    parts.push(cur);
    proof {
        assert(s@.take(n as int) =~= s@);
        lemma_views_of(parts0);
        lemma_views_of(parts@);
        assert(parts@ == parts0.push(cur));
        assert(views_of(parts@) =~~= views_of(parts0).push(cur0));
        assert(views_of(parts@) =~~= split_char(s@, sep));
    }
    parts
}

/// Whether `p` is a prefix of `s`.
pub open spec fn has_prefix(s: Seq<char>, p: Seq<char>) -> bool {
    s.len() >= p.len() && s.take(p.len() as int) == p
}

/// Checks whether `s` starts with `p`.
pub fn has_prefix_str(s: &str, p: &str) -> (r: bool)
    ensures
        r == has_prefix(s@, p@),
{
    let sn = s.unicode_len();
    let pn = p.unicode_len();
    if sn < pn {
        return false;
    }
    let mut i: usize = 0;
    while i < pn
        invariant
            i <= pn,
            pn <= sn,
            sn == s@.len(),
            pn == p@.len(),
            forall|j: int| 0 <= j < i ==> s@[j] == p@[j],
        decreases pn - i,
    {
        if s.get_char(i) != p.get_char(i) {
            proof {
                assert(s@.take(pn as int)[i as int] != p@[i as int]);
            }
            return false;
        }
        i += 1;
    }
    proof {
        assert(s@.take(pn as int) =~= p@);
    }
    true
}

/// The index of the first occurrence of `c` in `s`, or the length of `s` if
/// there is none.
pub open spec fn find_char(s: Seq<char>, c: char) -> int
    decreases s.len(),
{
    if s.len() == 0 {
        0
    } else if s[0] == c {
        0
    } else {
        1 + find_char(s.skip(1), c)
    }
}

pub proof fn lemma_find_char(s: Seq<char>, c: char)
    ensures
        0 <= find_char(s, c) <= s.len(),
        find_char(s, c) < s.len() ==> s[find_char(s, c)] == c,
        forall|i: int| 0 <= i < find_char(s, c) ==> s[i] != c,
    decreases s.len(),
{
    if s.len() > 0 && s[0] != c {
        lemma_find_char(s.skip(1), c);
        assert forall|i: int| 0 <= i < find_char(s, c) implies s[i] != c by {
            if i > 0 {
                assert(s.skip(1)[i - 1] != c);
            }
        }
    }
}

/// Finds the first occurrence of `c`, returning the length when absent.
pub fn find_char_str(s: &str, c: char) -> (r: usize)
    ensures
        r as int == find_char(s@, c),
{
    let n = s.unicode_len();
    let mut i: usize = 0;
    proof {
        lemma_find_char(s@, c);
    }
    while i < n
        invariant
            i <= n,
            n == s@.len(),
            0 <= find_char(s@, c) <= n,
            find_char(s@, c) < n ==> s@[find_char(s@, c)] == c,
            forall|j: int| 0 <= j < find_char(s@, c) ==> s@[j] != c,
            forall|j: int| 0 <= j < i ==> s@[j] != c,
        decreases n - i,
    {
        if s.get_char(i) == c {
            return i;
        }
        i += 1;
    }
    n
}

} // verus!
