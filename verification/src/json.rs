//! Canonical JSON text: the encoding primitives for the wire envelopes and
//! the parser for inbound frames.
//!
//! The wire form is canonical JSON as a sender writes it with no
//! whitespace between tokens. Strings escape the quote, the backslash and
//! the three named control characters; any other character stands for
//! itself. Numbers are decimal integers. The parser accepts exactly this
//! form and rejects everything else, and decoding an encoded text always
//! gives the encoded value back.

use vstd::prelude::*;
use vstd::string::StrSliceExecFns;
use crate::util::push_char;
use crate::util::digit_char;
use crate::util::spec_decimal;
use crate::util::u64_to_string;

verus! {

/// How one character appears inside a string token.
pub open spec fn esc_char(c: char) -> Seq<char> {
    if c == '"' {
        seq!['\\', '"']
    } else if c == '\\' {
        seq!['\\', '\\']
    } else if c == '\n' {
        seq!['\\', 'n']
    } else if c == '\r' {
        seq!['\\', 'r']
    } else if c == '\t' {
        seq!['\\', 't']
    } else {
        seq![c]
    }
}

/// A string's characters as they appear inside its token.
pub open spec fn spec_escape(s: Seq<char>) -> Seq<char>
    decreases s.len(),
{
    if s.len() == 0 {
        Seq::empty()
    } else {
        esc_char(s[0]) + spec_escape(s.drop_first())
    }
}

/// A whole string token: quote, escaped characters, quote.
pub open spec fn spec_render_string(s: Seq<char>) -> Seq<char> {
    seq!['"'] + spec_escape(s) + seq!['"']
}

/// The character an escape code stands for, if it is a valid code.
pub open spec fn unesc_char(c: char) -> Option<char> {
    if c == '"' {
        Some('"')
    } else if c == '\\' {
        Some('\\')
    } else if c == 'n' {
        Some('\n')
    } else if c == 'r' {
        Some('\r')
    } else if c == 't' {
        Some('\t')
    } else {
        None
    }
}

/// Parses the inside of a string token up to its closing quote: the
/// accumulated characters and how many input characters were consumed.
pub open spec fn spec_parse_string_body(s: Seq<char>, acc: Seq<char>) -> Option<(Seq<char>, int)>
    decreases s.len(),
{
    if s.len() == 0 {
        None
    } else if s[0] == '"' {
        Some((acc, 1))
    } else if s[0] == '\\' {
        if s.len() < 2 {
            None
        } else {
            match unesc_char(s[1]) {
                Some(c) => match spec_parse_string_body(s.skip(2), acc.push(c)) {
                    Some(p) => Some((p.0, p.1 + 2)),
                    None => None,
                },
                None => None,
            }
        }
    } else {
        match spec_parse_string_body(s.skip(1), acc.push(s[0])) {
            Some(p) => Some((p.0, p.1 + 1)),
            None => None,
        }
    }
}

/// Parses a whole string token at the head of the input.
pub open spec fn spec_parse_string(s: Seq<char>) -> Option<(Seq<char>, int)> {
    if s.len() > 0 && s[0] == '"' {
        match spec_parse_string_body(s.skip(1), Seq::empty()) {
            Some(p) => Some((p.0, p.1 + 1)),
            None => None,
        }
    } else {
        None
    }
}

/// Escaping one more character appends its escape to the escaped text.
pub proof fn lemma_escape_snoc(p: Seq<char>, c: char)
    ensures
        spec_escape(p.push(c)) == spec_escape(p) + esc_char(c),
    decreases p.len(),
{
    if p.len() == 0 {
        assert(p.push(c)[0] == c);
        assert(p.push(c).drop_first() =~= Seq::<char>::empty());
        assert(spec_escape(p.push(c)) == esc_char(c) + spec_escape(Seq::<char>::empty()));
        assert(esc_char(c) + Seq::<char>::empty() =~= esc_char(c));
        assert(spec_escape(p) + esc_char(c) =~= esc_char(c));
    } else {
        assert(p.push(c)[0] == p[0]);
        assert(p.push(c).drop_first() =~= p.drop_first().push(c));
        lemma_escape_snoc(p.drop_first(), c);
        assert(spec_escape(p.push(c)) == esc_char(p[0]) + (spec_escape(p.drop_first()) + esc_char(
            c,
        )));
        assert(esc_char(p[0]) + (spec_escape(p.drop_first()) + esc_char(c)) =~= (esc_char(p[0])
            + spec_escape(p.drop_first())) + esc_char(c));
    }
}

/// Parsing an escaped string gives exactly the escaped characters back
/// and stops at the closing quote, whatever follows it.
pub proof fn lemma_escape_parse(v: Seq<char>, tail: Seq<char>, acc: Seq<char>)
    ensures
        spec_parse_string_body(spec_escape(v) + seq!['"'] + tail, acc) == Some(
            (acc + v, spec_escape(v).len() + 1 as int),
        ),
    decreases v.len(),
{
    let s = spec_escape(v) + seq!['"'] + tail;
    if v.len() == 0 {
        assert(spec_escape(v) =~= Seq::<char>::empty());
        assert(s =~= seq!['"'] + tail);
        assert(s[0] == '"');
        assert(acc + v =~= acc);
    } else {
        let c = v[0];
        let v1 = v.drop_first();
        assert(spec_escape(v) == esc_char(c) + spec_escape(v1));
        lemma_escape_parse(v1, tail, acc.push(c));
        assert(acc.push(c) + v1 =~= acc + v);
        if c == '"' || c == '\\' || c == '\n' || c == '\r' || c == '\t' {
            assert(esc_char(c).len() == 2);
            assert(s[0] == '\\');
            assert(unesc_char(s[1]) == Some(c));
            assert(s.skip(2) =~= spec_escape(v1) + seq!['"'] + tail);
        } else {
            assert(esc_char(c) =~= seq![c]);
            assert(s[0] == c);
            assert(s.skip(1) =~= spec_escape(v1) + seq!['"'] + tail);
        }
    }
}

/// Decoding an encoded string token is the identity, whatever follows the
/// token.
pub proof fn lemma_string_roundtrip(v: Seq<char>, tail: Seq<char>)
    ensures
        spec_parse_string(spec_render_string(v) + tail) == Some(
            (v, spec_render_string(v).len() as int),
        ),
{
    let s = spec_render_string(v) + tail;
    assert(s[0] == '"');
    assert(s.skip(1) =~= spec_escape(v) + seq!['"'] + tail);
    lemma_escape_parse(v, tail, Seq::empty());
    assert(Seq::empty() + v =~= v);
}

/// Appends a string token for `s` to the output.
pub fn render_string_into(out: &mut String, s: &str)
    ensures
        final(out)@ == old(out)@ + spec_render_string(s@),
{
    let ghost base = out@;
    push_char(out, '"');
    let n = s.unicode_len();
    let mut i: usize = 0;
    while i < n
        invariant
            i <= n,
            n == s@.len(),
            out@ == base + seq!['"'] + spec_escape(s@.take(i as int)),
        decreases n - i,
    {
        let c = s.get_char(i);
        proof {
            assert(s@.take(i + 1) =~= s@.take(i as int).push(c));
            lemma_escape_snoc(s@.take(i as int), c);
        }
        if c == '"' {
            push_char(out, '\\');
            push_char(out, '"');
        } else if c == '\\' {
            push_char(out, '\\');
            push_char(out, '\\');
        } else if c == '\n' {
            push_char(out, '\\');
            push_char(out, 'n');
        } else if c == '\r' {
            push_char(out, '\\');
            push_char(out, 'r');
        } else if c == '\t' {
            push_char(out, '\\');
            push_char(out, 't');
        } else {
            push_char(out, c);
        }
        proof {
            assert(out@ =~= base + seq!['"'] + (spec_escape(s@.take(i as int)) + esc_char(c)));
        }
        i = i + 1;
    }
    push_char(out, '"');
    proof {
        assert(s@.take(n as int) =~= s@);
        assert(out@ =~= base + spec_render_string(s@));
    }
}

/// Parses a string token starting at `i`; on success the decoded string
/// and the position after the closing quote.
pub fn parse_string(s: &Vec<char>, i: usize) -> (r: Option<(String, usize)>)
    requires
        i <= s@.len(),
    ensures
        match r {
            Some(p) => {
                &&& spec_parse_string(s@.skip(i as int)) matches Some(m)
                &&& p.0@ == m.0
                &&& p.1 == i + m.1
                &&& i < p.1 <= s@.len()
            },
            None => spec_parse_string(s@.skip(i as int)) is None,
        },
{
    if i >= s.len() || s[i] != '"' {
        proof {
            if i < s@.len() {
                assert(s@.skip(i as int)[0] == s@[i as int]);
            }
        }
        return None;
    }
    proof {
        assert(s@.skip(i as int)[0] == s@[i as int]);
    }
    let ghost start = i + 1;
    let mut out = String::new();
    let mut p: usize = i + 1;
    loop
        invariant
            start <= p <= s@.len(),
            i < s@.len(),
            s@[i as int] == '"',
            start == i + 1,
            match spec_parse_string_body(s@.skip(p as int), out@) {
                Some(m) => spec_parse_string_body(s@.skip(start as int), Seq::empty()) == Some(
                    (m.0, m.1 + p - start),
                ),
                None => spec_parse_string_body(s@.skip(start as int), Seq::empty()) is None,
            },
        decreases s@.len() - p,
    {
        proof {
            assert(s@.skip(i as int)[0] == s@[i as int]);
            assert(s@.skip(i as int).skip(1) =~= s@.skip(start as int));
        }
        if p >= s.len() {
            return None;
        }
        let c = s[p];
        proof {
            assert(s@.skip(p as int)[0] == s@[p as int]);
        }
        if c == '"' {
            proof {
                assert(spec_parse_string_body(s@.skip(p as int), out@) == Some((out@, 1int)));
            }
            return Some((out, p + 1));
        } else if c == '\\' {
            if p + 1 >= s.len() {
                proof {
                    assert(s@.skip(p as int).len() < 2);
                }
                return None;
            }
            let e = s[p + 1];
            let dec: char;
            if e == '"' {
                dec = '"';
            } else if e == '\\' {
                dec = '\\';
            } else if e == 'n' {
                dec = '\n';
            } else if e == 'r' {
                dec = '\r';
            } else if e == 't' {
                dec = '\t';
            } else {
                proof {
                    assert(s@.skip(p as int)[1] == e);
                    assert(unesc_char(e) is None);
                }
                return None;
            }
            proof {
                assert(s@.skip(p as int)[0] == '\\');
                assert(s@.skip(p as int)[1] == e);
                assert(unesc_char(e) == Some(dec));
                assert(s@.skip(p as int).skip(2) =~= s@.skip(p + 2));
            }
            push_char(&mut out, dec);
            p = p + 2;
        } else {
            proof {
                assert(s@.skip(p as int)[0] == c);
                assert(s@.skip(p as int).skip(1) =~= s@.skip(p + 1));
            }
            push_char(&mut out, c);
            p = p + 1;
        }
    }
}

/// Whether a character is a decimal digit.
pub open spec fn is_digit(c: char) -> bool {
    48 <= c as u32 <= 57
}

/// The value of a digit character.
pub open spec fn digit_val(c: char) -> nat {
    (c as u32 - 48) as nat
}

/// Powers of ten.
pub open spec fn pow10(k: nat) -> nat
    decreases k,
{
    if k == 0 {
        1
    } else {
        10 * pow10((k - 1) as nat)
    }
}

/// Length of the digit run at the head of the input.
pub open spec fn digit_run(s: Seq<char>) -> nat
    decreases s.len(),
{
    if s.len() > 0 && is_digit(s[0]) {
        1 + digit_run(s.skip(1))
    } else {
        0
    }
}

/// The value accumulated by reading the digit run at the head of the
/// input, most significant digit first.
pub open spec fn spec_digits_value(s: Seq<char>, acc: nat) -> nat
    decreases s.len(),
{
    if s.len() > 0 && is_digit(s[0]) {
        spec_digits_value(s.skip(1), acc * 10 + digit_val(s[0]))
    } else {
        acc
    }
}

/// The value of a pure digit sequence, folded front to back.
pub open spec fn fold_digits(ds: Seq<char>, acc: nat) -> nat
    decreases ds.len(),
{
    if ds.len() == 0 {
        acc
    } else {
        fold_digits(ds.drop_first(), acc * 10 + digit_val(ds[0]))
    }
}

/// The largest magnitude a number token may carry: the magnitude of the
/// most negative 64-bit value.
pub open spec fn max_int_magnitude() -> nat {
    0x8000000000000000
}

/// Parses a decimal integer token at the head of the input: an optional
/// minus sign and at most nineteen digits, within the 64-bit range.
pub open spec fn spec_parse_int(s: Seq<char>) -> Option<(int, int)> {
    if s.len() > 0 && s[0] == '-' {
        let run = digit_run(s.skip(1));
        if run == 0 || run > 19 {
            None
        } else {
            let mag = spec_digits_value(s.skip(1), 0);
            if mag <= max_int_magnitude() {
                Some((-(mag as int), run + 1 as int))
            } else {
                None
            }
        }
    } else {
        let run = digit_run(s);
        if run == 0 || run > 19 {
            None
        } else {
            let v = spec_digits_value(s, 0);
            if v <= i64::MAX as nat {
                Some((v as int, run as int))
            } else {
                None
            }
        }
    }
}

/// A number token: the minus sign for negative values, then the decimal
/// digits.
pub open spec fn spec_render_int(v: int) -> Seq<char> {
    if v < 0 {
        seq!['-'] + spec_decimal((-v) as nat)
    } else {
        spec_decimal(v as nat)
    }
}

/// Every character of a rendered number's digits is a digit.
pub proof fn lemma_decimal_digits(n: nat)
    ensures
        forall|i: int| 0 <= i < spec_decimal(n).len() ==> is_digit(#[trigger] spec_decimal(n)[i]),
    decreases n,
{
    if n < 10 {
        assert(is_digit(digit_char(n)));
    } else {
        lemma_decimal_digits(n / 10);
        assert(is_digit(digit_char(n % 10)));
        assert forall|i: int| 0 <= i < spec_decimal(n).len() implies is_digit(
            #[trigger] spec_decimal(n)[i],
        ) by {
            if i < spec_decimal(n / 10).len() {
                assert(spec_decimal(n)[i] == spec_decimal(n / 10)[i]);
            } else {
                assert(spec_decimal(n)[i] == digit_char(n % 10));
            }
        }
    }
}

/// A value below the k-th power of ten renders to at most k digits.
pub proof fn lemma_decimal_len(n: nat, k: nat)
    requires
        k >= 1,
        n < pow10(k),
    ensures
        1 <= spec_decimal(n).len() <= k,
    decreases k,
{
    if n < 10 {
    } else {
        assert(pow10(k) == 10 * pow10((k - 1) as nat));
        assert(n / 10 < pow10((k - 1) as nat)) by (nonlinear_arith)
            requires
                n < 10 * pow10((k - 1) as nat),
                n >= 10,
        ;
        assert(k >= 2) by {
            if k == 1 {
                assert(pow10(1nat) == 10);
            }
        }
        lemma_decimal_len(n / 10, (k - 1) as nat);
    }
}

/// Appending one digit multiplies the folded value by ten and adds it.
pub proof fn lemma_fold_digits_snoc(ds: Seq<char>, c: char, acc: nat)
    ensures
        fold_digits(ds.push(c), acc) == fold_digits(ds, acc) * 10 + digit_val(c),
    decreases ds.len(),
{
    reveal_with_fuel(fold_digits, 3);
    if ds.len() == 0 {
        assert(ds.push(c)[0] == c);
        assert(ds.push(c).drop_first() =~= Seq::<char>::empty());
    } else {
        assert(ds.push(c)[0] == ds[0]);
        assert(ds.push(c).drop_first() =~= ds.drop_first().push(c));
        lemma_fold_digits_snoc(ds.drop_first(), c, acc * 10 + digit_val(ds[0]));
    }
}

/// Folding the rendered digits of a value gives the value back.
pub proof fn lemma_fold_decimal(n: nat)
    ensures
        fold_digits(spec_decimal(n), 0) == n,
    decreases n,
{
    reveal_with_fuel(fold_digits, 3);
    if n < 10 {
        assert(spec_decimal(n) == seq![digit_char(n)]);
        assert(seq![digit_char(n)].drop_first() =~= Seq::<char>::empty());
        assert(digit_val(digit_char(n)) == n);
    } else {
        lemma_fold_decimal(n / 10);
        lemma_fold_digits_snoc(spec_decimal(n / 10), digit_char(n % 10), 0);
        assert(digit_val(digit_char(n % 10)) == n % 10);
        assert((n / 10) * 10 + n % 10 == n) by (nonlinear_arith);
    }
}

/// A pure digit sequence followed by a non-digit is one digit run.
pub proof fn lemma_digit_run_concat(ds: Seq<char>, tail: Seq<char>)
    requires
        forall|i: int| 0 <= i < ds.len() ==> is_digit(#[trigger] ds[i]),
        tail.len() == 0 || !is_digit(tail[0]),
    ensures
        digit_run(ds + tail) == ds.len(),
    decreases ds.len(),
{
    let s = ds + tail;
    if ds.len() == 0 {
        assert(s =~= tail);
    } else {
        assert(s[0] == ds[0]);
        assert(s.skip(1) =~= ds.drop_first() + tail);
        lemma_digit_run_concat(ds.drop_first(), tail);
    }
}

/// Reading the digit run of a pure digit sequence followed by a non-digit
/// folds exactly those digits.
pub proof fn lemma_digits_value_concat(ds: Seq<char>, tail: Seq<char>, acc: nat)
    requires
        forall|i: int| 0 <= i < ds.len() ==> is_digit(#[trigger] ds[i]),
        tail.len() == 0 || !is_digit(tail[0]),
    ensures
        spec_digits_value(ds + tail, acc) == fold_digits(ds, acc),
    decreases ds.len(),
{
    let s = ds + tail;
    if ds.len() == 0 {
        assert(s =~= tail);
    } else {
        assert(s[0] == ds[0]);
        assert(s.skip(1) =~= ds.drop_first() + tail);
        lemma_digits_value_concat(ds.drop_first(), tail, acc * 10 + digit_val(ds[0]));
    }
}

/// Decoding an encoded number token is the identity, whatever non-digit
/// text follows the token.
pub proof fn lemma_int_roundtrip(v: int, tail: Seq<char>)
    requires
        i64::MIN <= v <= i64::MAX,
        tail.len() == 0 || !is_digit(tail[0]),
    ensures
        spec_parse_int(spec_render_int(v) + tail) == Some((v, spec_render_int(v).len() as int)),
{
    reveal_with_fuel(pow10, 20);
    assert(pow10(19) == 10_000_000_000_000_000_000);
    if v < 0 {
        let mag = (-v) as nat;
        let ds = spec_decimal(mag);
        let s = seq!['-'] + ds + tail;
        assert(spec_render_int(v) + tail =~= s);
        assert(s[0] == '-');
        assert(!is_digit('-'));
        assert(s.skip(1) =~= ds + tail);
        lemma_decimal_digits(mag);
        lemma_decimal_len(mag, 19);
        lemma_digit_run_concat(ds, tail);
        lemma_digits_value_concat(ds, tail, 0);
        lemma_fold_decimal(mag);
        assert(mag <= max_int_magnitude());
    } else {
        let ds = spec_decimal(v as nat);
        let s = ds + tail;
        lemma_decimal_digits(v as nat);
        lemma_decimal_len(v as nat, 19);
        lemma_digit_run_concat(ds, tail);
        lemma_digits_value_concat(ds, tail, 0);
        lemma_fold_decimal(v as nat);
        assert(ds.len() >= 1 && is_digit(ds[0]));
        assert(s[0] == ds[0]);
        assert(s.len() > 0 && s[0] != '-') by {
            assert(is_digit(ds[0]));
        }
    }
}

/// Appends a number token for `v` to the output.
pub fn render_int_into(out: &mut String, v: i64)
    ensures
        final(out)@ == old(out)@ + spec_render_int(v as int),
{
    if v < 0 {
        push_char(out, '-');
        let mag: u64 = if v == i64::MIN {
            9223372036854775808u64
        } else {
            (-v) as u64
        };
        assert(mag as nat == (-(v as int)) as nat);
        let digits = u64_to_string(mag);
        out.append(digits.as_str());
        assert(out@ =~= old(out)@ + spec_render_int(v as int));
    } else {
        let digits = u64_to_string(v as u64);
        out.append(digits.as_str());
        assert(out@ =~= old(out)@ + spec_render_int(v as int));
    }
}

/// Tests whether a character is a decimal digit.
pub fn is_digit_char(c: char) -> (r: bool)
    ensures
        r == is_digit(c),
{
    let u = c as u32;
    48 <= u && u <= 57
}

/// Parses a number token starting at `i`; on success the value and the
/// position after the digits.
pub fn parse_int(s: &Vec<char>, i: usize) -> (r: Option<(i64, usize)>)
    requires
        i <= s@.len(),
    ensures
        match r {
            Some(p) => {
                &&& spec_parse_int(s@.skip(i as int)) matches Some(m)
                &&& p.0 as int == m.0
                &&& p.1 == i + m.1
                &&& i < p.1 <= s@.len()
            },
            None => spec_parse_int(s@.skip(i as int)) is None,
        },
{
    proof {
        reveal_with_fuel(pow10, 20);
        assert(pow10(19) == 10_000_000_000_000_000_000);
    }
    let neg = i < s.len() && s[i] == '-';
    let start: usize = if neg {
        i + 1
    } else {
        i
    };
    proof {
        if i < s@.len() {
            assert(s@.skip(i as int)[0] == s@[i as int]);
        }
        if neg {
            assert(s@.skip(i as int).skip(1) =~= s@.skip(start as int));
        }
    }
    // First measure the digit run.
    let mut p: usize = start;
    while p < s.len() && is_digit_char(s[p])
        invariant
            start <= p <= s@.len(),
            start <= s@.len(),
            digit_run(s@.skip(start as int)) == digit_run(s@.skip(p as int)) + p - start,
            forall|j: int| start <= j < p ==> is_digit(#[trigger] s@[j]),
        decreases s@.len() - p,
    {
        proof {
            assert(s@.skip(p as int)[0] == s@[p as int]);
            assert(is_digit(s@[p as int]));
            assert(s@.skip(p as int).skip(1) =~= s@.skip(p + 1));
        }
        p = p + 1;
    }
    proof {
        if p < s@.len() {
            assert(s@.skip(p as int)[0] == s@[p as int]);
            assert(!is_digit(s@[p as int]));
        } else {
            assert(s@.skip(p as int).len() == 0);
        }
        assert(digit_run(s@.skip(p as int)) == 0);
    }
    let run = p - start;
    if run == 0 || run > 19 {
        return None;
    }
    // Then fold the digits; nineteen digits always fit a 64-bit unsigned
    // accumulator.
    let mut mag: u64 = 0;
    let mut q: usize = start;
    while q < p
        invariant
            start <= q <= p <= s@.len(),
            p - start <= 19,
            forall|j: int| start <= j < p ==> is_digit(#[trigger] s@[j]),
            digit_run(s@.skip(p as int)) == 0,
            mag as nat <= pow10((q - start) as nat) - 1,
            pow10(19) == 10_000_000_000_000_000_000,
            spec_digits_value(s@.skip(start as int), 0) == spec_digits_value(
                s@.skip(q as int),
                mag as nat,
            ),
        decreases p - q,
    {
        proof {
            assert(s@.skip(q as int)[0] == s@[q as int]);
            assert(s@.skip(q as int).skip(1) =~= s@.skip(q + 1));
            assert(pow10(((q - start) + 1) as nat) == 10 * pow10((q - start) as nat));
            assert(pow10((q - start) as nat) <= pow10(18)) by {
                lemma_pow10_increases((q - start) as nat, 18);
            }
        }
        let c = s[q];
        assert(is_digit(s@[q as int]));
        assert(c as u32 >= 48 && c as u32 <= 57);
        let d: u64 = (c as u32 as u64) - 48;
        assert(d == digit_val(c));
        mag = mag * 10 + d;
        q = q + 1;
    }
    proof {
        assert(spec_digits_value(s@.skip(p as int), mag as nat) == mag as nat);
        assert(spec_digits_value(s@.skip(start as int), 0) == mag as nat);
    }
    if neg {
        if mag > 9223372036854775808u64 {
            return None;
        }
        let v: i64 = if mag == 9223372036854775808u64 {
            i64::MIN
        } else {
            -(mag as i64)
        };
        Some((v, p))
    } else {
        if mag > i64::MAX as u64 {
            return None;
        }
        Some((mag as i64, p))
    }
}

/// Powers of ten grow with the exponent.
pub proof fn lemma_pow10_increases(a: nat, b: nat)
    requires
        a <= b,
    ensures
        pow10(a) <= pow10(b),
    decreases b,
{
    if a < b {
        lemma_pow10_increases(a, (b - 1) as nat);
        assert(pow10(b) == 10 * pow10((b - 1) as nat));
    }
}

/// Whether the input at `i` starts with the given text.
pub open spec fn starts_with(s: Seq<char>, lit: Seq<char>) -> bool {
    s.len() >= lit.len() && s.take(lit.len() as int) == lit
}

/// Compares the input at `i` against a fixed text.
pub fn match_lit(s: &Vec<char>, i: usize, lit: &str) -> (r: bool)
    requires
        i <= s@.len(),
    ensures
        r == starts_with(s@.skip(i as int), lit@),
{
    let n = lit.unicode_len();
    if s.len() - i < n {
        return false;
    }
    let mut j: usize = 0;
    while j < n
        invariant
            j <= n,
            n == lit@.len(),
            i <= s@.len(),
            n <= s@.len() - i,
            s@.len() <= usize::MAX,
            forall|k: int| 0 <= k < j ==> s@[i + k] == lit@[k],
        decreases n - j,
    {
        if s[i + j] != lit.get_char(j) {
            assert(s@.skip(i as int)[j as int] == s@[i + j]);
            assert(!starts_with(s@.skip(i as int), lit@)) by {
                if starts_with(s@.skip(i as int), lit@) {
                    let t = s@.skip(i as int).take(lit@.len() as int);
                    assert(t[j as int] == s@.skip(i as int)[j as int]);
                    assert(t[j as int] == lit@[j as int]);
                }
            }
            return false;
        }
        j = j + 1;
    }
    assert(s@.skip(i as int).take(lit@.len() as int) =~= lit@);
    true
}

/// The mathematical form of a body field value.
#[verifier::ext_equal]
pub enum JsonVal {
    Null,
    Bool(bool),
    Int(int),
    Str(Seq<char>),
    StrList(Seq<Seq<char>>),
}

/// The mathematical form of one body member.
#[verifier::ext_equal]
pub struct JsonMember {
    pub key: Seq<char>,
    pub value: JsonVal,
}

/// A value a body field can carry on the wire.
pub enum FieldValue {
    Null,
    Bool(bool),
    Int(i64),
    Str(String),
    StrList(Vec<String>),
}

impl View for FieldValue {
    type V = JsonVal;

    open spec fn view(&self) -> JsonVal {
        match self {
            FieldValue::Null => JsonVal::Null,
            FieldValue::Bool(b) => JsonVal::Bool(*b),
            FieldValue::Int(v) => JsonVal::Int(*v as int),
            FieldValue::Str(s) => JsonVal::Str(s@),
            FieldValue::StrList(l) => JsonVal::StrList(l@.map_values(|x: String| x@)),
        }
    }
}

/// One keyed field of a request or payload body.
pub struct BodyField {
    pub key: String,
    pub value: FieldValue,
}

impl View for BodyField {
    type V = JsonMember;

    open spec fn view(&self) -> JsonMember {
        JsonMember { key: self.key@, value: self.value@ }
    }
}

/// The members of a body, in their mathematical form.
pub open spec fn members_view(fields: Seq<BodyField>) -> Seq<JsonMember> {
    fields.map_values(|f: BodyField| f@)
}

/// One member, written shortly.
pub open spec fn smem(k: Seq<char>, v: JsonVal) -> JsonMember {
    JsonMember { key: k, value: v }
}

/// An optional string as a value: absent is null.
pub open spec fn opt_str_val(o: Option<String>) -> JsonVal {
    match o {
        Some(s) => JsonVal::Str(s@),
        None => JsonVal::Null,
    }
}

/// An optional integer as a value: absent is null.
pub open spec fn opt_int_val(o: Option<i64>) -> JsonVal {
    match o {
        Some(v) => JsonVal::Int(v as int),
        None => JsonVal::Null,
    }
}

/// An optional 32-bit integer as a value: absent is null.
pub open spec fn opt_i32_val(o: Option<i32>) -> JsonVal {
    match o {
        Some(v) => JsonVal::Int(v as int),
        None => JsonVal::Null,
    }
}

/// The string tokens of a list, comma separated.
pub open spec fn spec_render_str_items(l: Seq<Seq<char>>) -> Seq<char>
    decreases l.len(),
{
    if l.len() == 0 {
        Seq::empty()
    } else if l.len() == 1 {
        spec_render_string(l[0])
    } else {
        spec_render_string(l[0]) + seq![','] + spec_render_str_items(l.drop_first())
    }
}

/// A value as it appears on the wire.
pub open spec fn spec_render_value(v: JsonVal) -> Seq<char> {
    match v {
        JsonVal::Null => "null"@,
        JsonVal::Bool(b) => if b {
            "true"@
        } else {
            "false"@
        },
        JsonVal::Int(i) => spec_render_int(i),
        JsonVal::Str(s) => spec_render_string(s),
        JsonVal::StrList(l) => seq!['['] + spec_render_str_items(l) + seq![']'],
    }
}

/// One member as it appears on the wire: key token, colon, value.
pub open spec fn spec_render_member(m: JsonMember) -> Seq<char> {
    spec_render_string(m.key) + seq![':'] + spec_render_value(m.value)
}

/// The members of a body, comma separated.
pub open spec fn spec_render_members(ms: Seq<JsonMember>) -> Seq<char>
    decreases ms.len(),
{
    if ms.len() == 0 {
        Seq::empty()
    } else if ms.len() == 1 {
        spec_render_member(ms[0])
    } else {
        spec_render_member(ms[0]) + seq![','] + spec_render_members(ms.drop_first())
    }
}

/// A body object as it appears on the wire.
pub open spec fn spec_render_body(ms: Seq<JsonMember>) -> Seq<char> {
    seq!['{'] + spec_render_members(ms) + seq!['}']
}

/// A value fits the wire: integers are within the 64-bit range.
pub open spec fn val_wf(v: JsonVal) -> bool {
    match v {
        JsonVal::Int(i) => i64::MIN <= i <= i64::MAX,
        _ => true,
    }
}

/// Every member's value fits the wire.
pub open spec fn members_wf(ms: Seq<JsonMember>) -> bool {
    forall|i: int| 0 <= i < ms.len() ==> val_wf(#[trigger] ms[i].value)
}

/// Parses the items of a string list after its opening bracket, the first
/// item at the head of the input.
pub open spec fn spec_parse_str_items(s: Seq<char>, acc: Seq<Seq<char>>) -> Option<
    (Seq<Seq<char>>, int),
>
    decreases s.len(),
{
    match spec_parse_string(s) {
        Some(p) => {
            let n = p.1;
            if 1 <= n && n < s.len() {
                if s[n] == ',' {
                    match spec_parse_str_items(s.skip(n + 1), acc.push(p.0)) {
                        Some(q) => Some((q.0, q.1 + n + 1)),
                        None => None,
                    }
                } else if s[n] == ']' {
                    Some((acc.push(p.0), n + 1))
                } else {
                    None
                }
            } else {
                None
            }
        },
        None => None,
    }
}

/// Parses a string list after its opening bracket: either immediately
/// closed, or items.
pub open spec fn spec_parse_str_list(s: Seq<char>) -> Option<(Seq<Seq<char>>, int)> {
    if s.len() > 0 && s[0] == ']' {
        Some((Seq::empty(), 1))
    } else {
        spec_parse_str_items(s, Seq::empty())
    }
}

/// Parses a value at the head of the input.
pub open spec fn spec_parse_value(s: Seq<char>) -> Option<(JsonVal, int)> {
    if s.len() == 0 {
        None
    } else if s[0] == '"' {
        match spec_parse_string(s) {
            Some(p) => Some((JsonVal::Str(p.0), p.1)),
            None => None,
        }
    } else if s[0] == '[' {
        match spec_parse_str_list(s.skip(1)) {
            Some(p) => Some((JsonVal::StrList(p.0), p.1 + 1)),
            None => None,
        }
    } else if starts_with(s, "true"@) {
        Some((JsonVal::Bool(true), "true"@.len() as int))
    } else if starts_with(s, "false"@) {
        Some((JsonVal::Bool(false), "false"@.len() as int))
    } else if starts_with(s, "null"@) {
        Some((JsonVal::Null, "null"@.len() as int))
    } else {
        match spec_parse_int(s) {
            Some(p) => Some((JsonVal::Int(p.0), p.1)),
            None => None,
        }
    }
}

/// Parses the members of a body after its opening brace, the first key at
/// the head of the input.
pub open spec fn spec_parse_members(s: Seq<char>, acc: Seq<JsonMember>) -> Option<
    (Seq<JsonMember>, int),
>
    decreases s.len(),
{
    match spec_parse_string(s) {
        Some(kp) => {
            let n = kp.1;
            if 1 <= n && n < s.len() && s[n] == ':' {
                match spec_parse_value(s.skip(n + 1)) {
                    Some(vp) => {
                        let m = JsonMember { key: kp.0, value: vp.0 };
                        let k = n + 1 + vp.1;
                        if n + 2 <= k && k < s.len() {
                            if s[k] == ',' {
                                match spec_parse_members(s.skip(k + 1), acc.push(m)) {
                                    Some(q) => Some((q.0, q.1 + k + 1)),
                                    None => None,
                                }
                            } else if s[k] == '}' {
                                Some((acc.push(m), k + 1))
                            } else {
                                None
                            }
                        } else {
                            None
                        }
                    },
                    None => None,
                }
            } else {
                None
            }
        },
        None => None,
    }
}

/// Parses a body object at the head of the input.
pub open spec fn spec_parse_body(s: Seq<char>) -> Option<(Seq<JsonMember>, int)> {
    if s.len() >= 2 && s[0] == '{' {
        if s[1] == '}' {
            Some((Seq::empty(), 2))
        } else {
            match spec_parse_members(s.skip(1), Seq::empty()) {
                Some(p) => Some((p.0, p.1 + 1)),
                None => None,
            }
        }
    } else {
        None
    }
}

/// A rendered value is never empty.
pub proof fn lemma_render_value_len(v: JsonVal)
    ensures
        spec_render_value(v).len() >= 1,
{
    reveal_strlit("null");
    reveal_strlit("true");
    reveal_strlit("false");
    match v {
        JsonVal::Int(i) => {
            if i < 0 {
                assert(spec_render_int(i).len() >= 1);
            } else {
                assert(spec_decimal(i as nat).len() >= 1);
            }
        },
        _ => {},
    }
}

/// Decoding an encoded string list is the identity, whatever follows the
/// closing bracket.
pub proof fn lemma_str_items_roundtrip(l: Seq<Seq<char>>, tail: Seq<char>, acc: Seq<Seq<char>>)
    requires
        l.len() >= 1,
    ensures
        spec_parse_str_items(spec_render_str_items(l) + seq![']'] + tail, acc) == Some(
            (acc + l, spec_render_str_items(l).len() + 1 as int),
        ),
    decreases l.len(),
{
    let s = spec_render_str_items(l) + seq![']'] + tail;
    if l.len() == 1 {
        assert(s =~= spec_render_string(l[0]) + (seq![']'] + tail));
        lemma_string_roundtrip(l[0], seq![']'] + tail);
        let n = spec_render_string(l[0]).len() as int;
        assert(s[n] == ']');
        assert(acc.push(l[0]) =~= acc + l);
    } else {
        let rest = l.drop_first();
        let t1 = seq![','] + spec_render_str_items(rest) + seq![']'] + tail;
        assert(s =~= spec_render_string(l[0]) + t1);
        lemma_string_roundtrip(l[0], t1);
        let n = spec_render_string(l[0]).len() as int;
        assert(s[n] == ',');
        assert(s.skip(n + 1) =~= spec_render_str_items(rest) + seq![']'] + tail);
        lemma_str_items_roundtrip(rest, tail, acc.push(l[0]));
        assert(acc.push(l[0]) + rest =~= acc + l);
    }
}

/// Decoding an encoded value is the identity, whatever non-digit text
/// follows the value.
pub proof fn lemma_value_roundtrip(v: JsonVal, tail: Seq<char>)
    requires
        val_wf(v),
        tail.len() == 0 || !is_digit(tail[0]),
    ensures
        spec_parse_value(spec_render_value(v) + tail) == Some(
            (v, spec_render_value(v).len() as int),
        ),
{
    reveal_strlit("null");
    reveal_strlit("true");
    reveal_strlit("false");
    let s = spec_render_value(v) + tail;
    match v {
        JsonVal::Null => {
            assert(s[0] == 'n');
            assert(s[0] != '"' && s[0] != '[');
            assert(starts_with(s, "null"@)) by {
                assert(s.take(4) =~= "null"@);
            }
            assert(!starts_with(s, "true"@)) by {
                if starts_with(s, "true"@) {
                    assert(s.take("true"@.len() as int)[0] == 't');
                }
            }
            assert(!starts_with(s, "false"@)) by {
                if starts_with(s, "false"@) {
                    assert(s.take("false"@.len() as int)[0] == 'f');
                }
            }
        },
        JsonVal::Bool(b) => {
            if b {
                assert(s[0] == 't');
                assert(s[0] != '"' && s[0] != '[');
                assert(starts_with(s, "true"@)) by {
                    assert(s.take(4) =~= "true"@);
                }
            } else {
                assert(s[0] == 'f');
                assert(s[0] != '"' && s[0] != '[');
                assert(!starts_with(s, "true"@)) by {
                    if starts_with(s, "true"@) {
                        assert(s.take("true"@.len() as int)[0] == 't');
                    }
                }
                assert(starts_with(s, "false"@)) by {
                    assert(s.take(5) =~= "false"@);
                }
            }
        },
        JsonVal::Int(i) => {
            lemma_int_roundtrip(i, tail);
            if i < 0 {
                assert(s[0] == '-');
            } else {
                lemma_decimal_digits(i as nat);
                assert(spec_decimal(i as nat).len() >= 1);
                assert(is_digit(spec_decimal(i as nat)[0]));
                assert(s[0] == spec_decimal(i as nat)[0]);
            }
            assert(s[0] != '"' && s[0] != '[');
            assert(!starts_with(s, "true"@)) by {
                if starts_with(s, "true"@) {
                    assert(s.take("true"@.len() as int)[0] == 't');
                }
            }
            assert(!starts_with(s, "false"@)) by {
                if starts_with(s, "false"@) {
                    assert(s.take("false"@.len() as int)[0] == 'f');
                }
            }
            assert(!starts_with(s, "null"@)) by {
                if starts_with(s, "null"@) {
                    assert(s.take("null"@.len() as int)[0] == 'n');
                }
            }
        },
        JsonVal::Str(st) => {
            assert(s[0] == '"');
            assert(s =~= spec_render_string(st) + tail);
            lemma_string_roundtrip(st, tail);
        },
        JsonVal::StrList(l) => {
            assert(s[0] == '[');
            if l.len() == 0 {
                assert(spec_render_str_items(l) =~= Seq::<char>::empty());
                assert(s.skip(1) =~= seq![']'] + tail);
                assert(s.skip(1)[0] == ']');
            } else {
                assert(s.skip(1) =~= spec_render_str_items(l) + seq![']'] + tail);
                assert(spec_render_str_items(l)[0] == '"') by {
                    assert(spec_render_string(l[0])[0] == '"');
                    if l.len() == 1 {
                    } else {
                        assert(spec_render_str_items(l)[0] == spec_render_string(l[0])[0]);
                    }
                }
                assert(s.skip(1)[0] == '"');
                lemma_str_items_roundtrip(l, tail, Seq::empty());
                assert(Seq::empty() + l =~= l);
            }
        },
    }
}

/// Decoding the encoded members of a body is the identity, whatever
/// follows the closing brace.
#[verifier::rlimit(60)]
pub proof fn lemma_members_roundtrip(ms: Seq<JsonMember>, tail: Seq<char>, acc: Seq<JsonMember>)
    requires
        ms.len() >= 1,
        members_wf(ms),
    ensures
        spec_parse_members(spec_render_members(ms) + seq!['}'] + tail, acc) == Some(
            (acc + ms, spec_render_members(ms).len() + 1 as int),
        ),
    decreases ms.len(),
{
    let m = ms[0];
    let s = spec_render_members(ms) + seq!['}'] + tail;
    lemma_render_value_len(m.value);
    if ms.len() == 1 {
        let t1 = seq![':'] + spec_render_value(m.value) + seq!['}'] + tail;
        assert(s =~= spec_render_string(m.key) + t1);
        lemma_string_roundtrip(m.key, t1);
        let n = spec_render_string(m.key).len() as int;
        assert(s[n] == ':');
        assert(s.skip(n + 1) =~= spec_render_value(m.value) + (seq!['}'] + tail));
        assert(val_wf(m.value));
        lemma_value_roundtrip(m.value, seq!['}'] + tail);
        let vl = spec_render_value(m.value).len() as int;
        let k = n + 1 + vl;
        assert(s[k] == '}');
        assert(acc.push(m) =~= acc + ms);
    } else {
        let rest = ms.drop_first();
        let t1 = seq![':'] + spec_render_value(m.value) + seq![','] + spec_render_members(rest)
            + seq!['}'] + tail;
        assert(s =~= spec_render_string(m.key) + t1);
        lemma_string_roundtrip(m.key, t1);
        let n = spec_render_string(m.key).len() as int;
        assert(s[n] == ':');
        assert(s.skip(n + 1) =~= spec_render_value(m.value) + (seq![','] + spec_render_members(
            rest,
        ) + seq!['}'] + tail));
        assert(val_wf(m.value));
        lemma_value_roundtrip(
            m.value,
            seq![','] + spec_render_members(rest) + seq!['}'] + tail,
        );
        let vl = spec_render_value(m.value).len() as int;
        let k = n + 1 + vl;
        assert(s[k] == ',');
        assert(s.skip(k + 1) =~= spec_render_members(rest) + seq!['}'] + tail);
        assert(members_wf(rest)) by {
            assert(forall|i: int| 0 <= i < rest.len() ==> rest[i] == ms[i + 1]);
        }
        lemma_members_roundtrip(rest, tail, acc.push(m));
        assert(acc.push(m) + rest =~= acc + ms);
    }
}

/// Decoding an encoded body object is the identity, whatever follows the
/// closing brace.
pub proof fn lemma_body_roundtrip(ms: Seq<JsonMember>, tail: Seq<char>)
    requires
        members_wf(ms),
    ensures
        spec_parse_body(spec_render_body(ms) + tail) == Some(
            (ms, spec_render_body(ms).len() as int),
        ),
{
    let s = spec_render_body(ms) + tail;
    assert(s[0] == '{');
    if ms.len() == 0 {
        assert(spec_render_members(ms) =~= Seq::<char>::empty());
        assert(s[1] == '}');
        assert(Seq::<JsonMember>::empty() =~= ms);
    } else {
        assert(s.skip(1) =~= spec_render_members(ms) + seq!['}'] + tail);
        assert(spec_render_members(ms)[0] == '"') by {
            assert(spec_render_string(ms[0].key)[0] == '"');
            if ms.len() == 1 {
            } else {
                assert(spec_render_members(ms)[0] == spec_render_member(ms[0])[0]);
                assert(spec_render_member(ms[0])[0] == spec_render_string(ms[0].key)[0]);
            }
        }
        assert(s[1] == '"');
        lemma_members_roundtrip(ms, tail, Seq::empty());
        assert(Seq::empty() + ms =~= ms);
    }
}

/// The views of a list of strings.
pub open spec fn strs_view(l: Seq<String>) -> Seq<Seq<char>> {
    l.map_values(|x: String| x@)
}

/// Rendering one more list item appends a comma (after a first item) and
/// its token.
pub proof fn lemma_render_items_snoc(l: Seq<Seq<char>>, x: Seq<char>)
    ensures
        spec_render_str_items(l.push(x)) == if l.len() == 0 {
            spec_render_string(x)
        } else {
            spec_render_str_items(l) + seq![','] + spec_render_string(x)
        },
    decreases l.len(),
{
    if l.len() == 0 {
        assert(l.push(x).len() == 1);
        assert(l.push(x)[0] == x);
    } else {
        assert(l.push(x)[0] == l[0]);
        assert(l.push(x).drop_first() =~= l.drop_first().push(x));
        lemma_render_items_snoc(l.drop_first(), x);
        if l.len() == 1 {
            assert(l.drop_first().len() == 0);
            assert(spec_render_str_items(l.push(x)) == spec_render_string(l[0]) + seq![',']
                + spec_render_string(x));
            assert(spec_render_str_items(l) == spec_render_string(l[0]));
        } else {
            assert(spec_render_str_items(l.push(x)) == spec_render_string(l[0]) + seq![','] + (
            spec_render_str_items(l.drop_first()) + seq![','] + spec_render_string(x)));
            assert(spec_render_string(l[0]) + seq![','] + (spec_render_str_items(l.drop_first())
                + seq![','] + spec_render_string(x)) =~= (spec_render_string(l[0]) + seq![',']
                + spec_render_str_items(l.drop_first())) + seq![','] + spec_render_string(x));
        }
    }
}

/// Rendering one more member appends a comma (after a first member) and
/// its text.
pub proof fn lemma_render_members_snoc(ms: Seq<JsonMember>, m: JsonMember)
    ensures
        spec_render_members(ms.push(m)) == if ms.len() == 0 {
            spec_render_member(m)
        } else {
            spec_render_members(ms) + seq![','] + spec_render_member(m)
        },
    decreases ms.len(),
{
    if ms.len() == 0 {
        assert(ms.push(m).len() == 1);
        assert(ms.push(m)[0] == m);
    } else {
        assert(ms.push(m)[0] == ms[0]);
        assert(ms.push(m).drop_first() =~= ms.drop_first().push(m));
        lemma_render_members_snoc(ms.drop_first(), m);
        if ms.len() == 1 {
            assert(ms.drop_first().len() == 0);
            assert(spec_render_members(ms) == spec_render_member(ms[0]));
        } else {
            assert(spec_render_member(ms[0]) + seq![','] + (spec_render_members(ms.drop_first())
                + seq![','] + spec_render_member(m)) =~= (spec_render_member(ms[0]) + seq![',']
                + spec_render_members(ms.drop_first())) + seq![','] + spec_render_member(m));
        }
    }
}

/// Appends a value token for `v` to the output.
pub fn render_value_into(out: &mut String, v: &FieldValue)
    ensures
        final(out)@ == old(out)@ + spec_render_value(v@),
{
    match v {
        FieldValue::Null => {
            out.append("null");
        },
        FieldValue::Bool(b) => {
            if *b {
                out.append("true");
            } else {
                out.append("false");
            }
        },
        FieldValue::Int(i) => {
            render_int_into(out, *i);
        },
        FieldValue::Str(s) => {
            render_string_into(out, s.as_str());
        },
        FieldValue::StrList(l) => {
            let ghost base = out@;
            push_char(out, '[');
            let mut i: usize = 0;
            while i < l.len()
                invariant
                    i <= l@.len(),
                    out@ == base + seq!['['] + spec_render_str_items(strs_view(l@.take(i as int))),
                decreases l@.len() - i,
            {
                proof {
                    assert(strs_view(l@.take(i + 1)) =~= strs_view(l@.take(i as int)).push(
                        l@[i as int]@,
                    ));
                    lemma_render_items_snoc(strs_view(l@.take(i as int)), l@[i as int]@);
                }
                if i > 0 {
                    push_char(out, ',');
                }
                render_string_into(out, l[i].as_str());
                proof {
                    if i == 0 {
                        assert(strs_view(l@.take(0int)).len() == 0);
                        assert(out@ =~= base + seq!['['] + spec_render_str_items(
                            strs_view(l@.take(i + 1)),
                        ));
                    } else {
                        assert(strs_view(l@.take(i as int)).len() > 0);
                        assert(out@ =~= base + seq!['['] + spec_render_str_items(
                            strs_view(l@.take(i + 1)),
                        ));
                    }
                }
                i = i + 1;
            }
            push_char(out, ']');
            proof {
                assert(l@.take(l@.len() as int) =~= l@);
                assert(out@ =~= base + spec_render_value(v@));
            }
        },
    }
}

/// Appends a body object for these fields to the output.
pub fn render_body_into(out: &mut String, fields: &Vec<BodyField>)
    ensures
        final(out)@ == old(out)@ + spec_render_body(members_view(fields@)),
{
    let ghost base = out@;
    push_char(out, '{');
    let mut i: usize = 0;
    while i < fields.len()
        invariant
            i <= fields@.len(),
            out@ == base + seq!['{'] + spec_render_members(members_view(fields@.take(i as int))),
        decreases fields@.len() - i,
    {
        proof {
            assert(members_view(fields@.take(i + 1)) =~= members_view(fields@.take(i as int)).push(
                fields@[i as int]@,
            ));
            lemma_render_members_snoc(members_view(fields@.take(i as int)), fields@[i as int]@);
        }
        if i > 0 {
            push_char(out, ',');
        }
        render_string_into(out, fields[i].key.as_str());
        push_char(out, ':');
        render_value_into(out, &fields[i].value);
        proof {
            if i == 0 {
                assert(members_view(fields@.take(0int)).len() == 0);
            } else {
                assert(members_view(fields@.take(i as int)).len() > 0);
            }
            assert(out@ =~= base + seq!['{'] + spec_render_members(
                members_view(fields@.take(i + 1)),
            ));
        }
        i = i + 1;
    }
    push_char(out, '}');
    proof {
        assert(fields@.take(fields@.len() as int) =~= fields@);
        assert(out@ =~= base + spec_render_body(members_view(fields@)));
    }
}

/// Parses a value starting at `i`; on success the value and the position
/// after it.
pub fn parse_value(s: &Vec<char>, i: usize) -> (r: Option<(FieldValue, usize)>)
    requires
        i <= s@.len(),
    ensures
        match r {
            Some(p) => {
                &&& spec_parse_value(s@.skip(i as int)) matches Some(m)
                &&& p.0@ == m.0
                &&& p.1 == i + m.1
                &&& i < p.1 <= s@.len()
            },
            None => spec_parse_value(s@.skip(i as int)) is None,
        },
{
    if i >= s.len() {
        return None;
    }
    let c = s[i];
    proof {
        assert(s@.skip(i as int)[0] == s@[i as int]);
    }
    if c == '"' {
        match parse_string(s, i) {
            Some((st, j)) => Some((FieldValue::Str(st), j)),
            None => None,
        }
    } else if c == '[' {
        let start = i + 1;
        proof {
            assert(s@.skip(i as int).skip(1) =~= s@.skip(start as int));
        }
        if start < s.len() && s[start] == ']' {
            proof {
                assert(s@.skip(start as int)[0] == s@[start as int]);
            }
            let items: Vec<String> = Vec::new();
            assert(strs_view(items@) =~= Seq::<Seq<char>>::empty());
            return Some((FieldValue::StrList(items), start + 1));
        }
        proof {
            if start < s@.len() {
                assert(s@.skip(start as int)[0] == s@[start as int]);
            }
            assert(spec_parse_str_list(s@.skip(start as int)) == spec_parse_str_items(
                s@.skip(start as int),
                Seq::empty(),
            ));
        }
        let mut items: Vec<String> = Vec::new();
        assert(strs_view(items@) =~= Seq::<Seq<char>>::empty());
        let mut p: usize = start;
        loop
            invariant
                i < start <= p <= s@.len(),
                start == i + 1,
                i < s@.len(),
                s@[i as int] == '[',
                spec_parse_str_list(s@.skip(start as int)) == spec_parse_str_items(
                    s@.skip(start as int),
                    Seq::empty(),
                ),
                match spec_parse_str_items(s@.skip(p as int), strs_view(items@)) {
                    Some(q) => spec_parse_str_items(s@.skip(start as int), Seq::empty()) == Some(
                        (q.0, q.1 + p - start),
                    ),
                    None => spec_parse_str_items(s@.skip(start as int), Seq::empty()) is None,
                },
            decreases s@.len() - p,
        {
            proof {
                assert(s@.skip(i as int)[0] == s@[i as int]);
                assert(s@.skip(i as int).skip(1) =~= s@.skip(start as int));
            }
            match parse_string(s, p) {
                Some((st, np)) => {
                    if np >= s.len() {
                        return None;
                    }
                    let sep = s[np];
                    proof {
                        assert(s@.skip(p as int).skip((np - p) as int) =~= s@.skip(np as int));
                        assert(s@.skip(np as int)[0] == s@[np as int]);
                        assert(s@.skip(p as int)[(np - p) as int] == s@[np as int]);
                    }
                    let ghost pre_items = items@;
                    if sep == ',' {
                        items.push(st);
                        proof {
                            assert(strs_view(items@) =~= strs_view(pre_items).push(st@));
                            assert(s@.skip(p as int).skip((np + 1 - p) as int) =~= s@.skip(
                                np + 1,
                            ));
                        }
                        p = np + 1;
                    } else if sep == ']' {
                        items.push(st);
                        proof {
                            assert(strs_view(items@) =~= strs_view(pre_items).push(st@));
                        }
                        return Some((FieldValue::StrList(items), np + 1));
                    } else {
                        return None;
                    }
                },
                None => {
                    return None;
                },
            }
        }
    } else if match_lit(s, i, "true") {
        proof {
            reveal_strlit("true");
        }
        Some((FieldValue::Bool(true), i + 4))
    } else if match_lit(s, i, "false") {
        proof {
            reveal_strlit("false");
            reveal_strlit("true");
        }
        Some((FieldValue::Bool(false), i + 5))
    } else if match_lit(s, i, "null") {
        proof {
            reveal_strlit("null");
            reveal_strlit("true");
            reveal_strlit("false");
        }
        Some((FieldValue::Null, i + 4))
    } else {
        match parse_int(s, i) {
            Some((v, j)) => Some((FieldValue::Int(v), j)),
            None => None,
        }
    }
}

/// Parses a body object starting at `i`; on success its fields and the
/// position after the closing brace.
#[verifier::rlimit(100)]
pub fn parse_body(s: &Vec<char>, i: usize) -> (r: Option<(Vec<BodyField>, usize)>)
    requires
        i <= s@.len(),
    ensures
        match r {
            Some(p) => {
                &&& spec_parse_body(s@.skip(i as int)) matches Some(m)
                &&& members_view(p.0@) == m.0
                &&& p.1 == i + m.1
                &&& i < p.1 <= s@.len()
            },
            None => spec_parse_body(s@.skip(i as int)) is None,
        },
{
    if i >= s.len() {
        return None;
    }
    if s[i] != '{' {
        proof {
            assert(s@.skip(i as int)[0] == s@[i as int]);
        }
        return None;
    }
    if i + 1 >= s.len() {
        proof {
            assert(s@.skip(i as int).len() < 2);
        }
        return None;
    }
    proof {
        assert(s@.skip(i as int)[0] == s@[i as int]);
        assert(s@.skip(i as int)[1] == s@[i + 1]);
    }
    if s[i + 1] == '}' {
        let fields: Vec<BodyField> = Vec::new();
        assert(members_view(fields@) =~= Seq::<JsonMember>::empty());
        return Some((fields, i + 2));
    }
    let start = i + 1;
    proof {
        assert(s@.skip(i as int).skip(1) =~= s@.skip(start as int));
    }
    let mut fields: Vec<BodyField> = Vec::new();
    assert(members_view(fields@) =~= Seq::<JsonMember>::empty());
    let mut p: usize = start;
    loop
        invariant
            i < start <= p <= s@.len(),
            start == i + 1,
            i + 1 < s@.len(),
            s@[i as int] == '{',
            s@[i + 1] != '}',
            match spec_parse_members(s@.skip(p as int), members_view(fields@)) {
                Some(q) => spec_parse_members(s@.skip(start as int), Seq::empty()) == Some(
                    (q.0, q.1 + p - start),
                ),
                None => spec_parse_members(s@.skip(start as int), Seq::empty()) is None,
            },
        decreases s@.len() - p,
    {
        proof {
            assert(s@.skip(i as int)[0] == s@[i as int]);
            assert(s@.skip(i as int)[1] == s@[i + 1]);
            assert(s@.skip(i as int).skip(1) =~= s@.skip(start as int));
        }
        match parse_string(s, p) {
            Some((key, np)) => {
                if np >= s.len() {
                    return None;
                }
                proof {
                    assert(s@.skip(p as int).skip((np - p) as int) =~= s@.skip(np as int));
                    assert(s@.skip(np as int)[0] == s@[np as int]);
                    assert(s@.skip(p as int)[(np - p) as int] == s@[np as int]);
                }
                if s[np] != ':' {
                    return None;
                }
                proof {
                    assert(s@.skip(p as int).skip((np + 1 - p) as int) =~= s@.skip(np + 1));
                }
                match parse_value(s, np + 1) {
                    Some((value, k)) => {
                        if k >= s.len() {
                            return None;
                        }
                        let sep = s[k];
                        proof {
                            assert(s@.skip((np + 1) as int).skip((k - np - 1) as int) =~= s@.skip(
                                k as int,
                            ));
                            assert(s@.skip(k as int)[0] == s@[k as int]);
                            assert(s@.skip(p as int)[(k - p) as int] == s@[k as int]);
                        }
                        let ghost pre_fields = fields@;
                        if sep == ',' {
                            fields.push(BodyField { key, value });
                            proof {
                                assert(members_view(fields@) =~= members_view(pre_fields).push(
                                    fields@.last()@,
                                ));
                                assert(s@.skip(p as int).skip((k + 1 - p) as int) =~= s@.skip(
                                    k + 1,
                                ));
                            }
                            p = k + 1;
                        } else if sep == '}' {
                            fields.push(BodyField { key, value });
                            proof {
                                assert(members_view(fields@) =~= members_view(pre_fields).push(
                                    fields@.last()@,
                                ));
                            }
                            return Some((fields, k + 1));
                        } else {
                            return None;
                        }
                    },
                    None => {
                        return None;
                    },
                }
            },
            None => {
                return None;
            },
        }
    }
}

/// The characters of a borrowed string, in order.
pub fn str_to_chars(s: &str) -> (r: Vec<char>)
    ensures
        r@ == s@,
{
    let n = s.unicode_len();
    let mut out: Vec<char> = Vec::new();
    let mut i: usize = 0;
    while i < n
        invariant
            i <= n,
            n == s@.len(),
            out@ == s@.take(i as int),
        decreases n - i,
    {
        out.push(s.get_char(i));
        proof {
            assert(out@ =~= s@.take(i + 1));
        }
        i = i + 1;
    }
    proof {
        assert(s@.take(n as int) =~= s@);
    }
    out
}

} // verus!
