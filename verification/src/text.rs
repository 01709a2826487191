//! Decimal rendering of integers, with the injectivity lemmas that the
//! endpoint allocator relies on, and small string-building helpers shared by
//! the command encoder and the request builders.

use vstd::prelude::*;
use vstd::string::StrSliceExecFns;

verus! {

/// The character for one decimal digit.
pub open spec fn digit_char(d: nat) -> char {
    if d == 0 {
        '0'
    } else if d == 1 {
        '1'
    } else if d == 2 {
        '2'
    } else if d == 3 {
        '3'
    } else if d == 4 {
        '4'
    } else if d == 5 {
        '5'
    } else if d == 6 {
        '6'
    } else if d == 7 {
        '7'
    } else if d == 8 {
        '8'
    } else {
        '9'
    }
}

/// The digit a decimal digit character stands for.
pub open spec fn char_digit(c: char) -> nat {
    if c == '0' {
        0
    } else if c == '1' {
        1
    } else if c == '2' {
        2
    } else if c == '3' {
        3
    } else if c == '4' {
        4
    } else if c == '5' {
        5
    } else if c == '6' {
        6
    } else if c == '7' {
        7
    } else if c == '8' {
        8
    } else {
        9
    }
}

/// The decimal representation of a natural number, without leading zeros
/// (a single zero renders as "0").
pub open spec fn dec_rep(n: nat) -> Seq<char>
    decreases n,
{
    if n < 10 {
        seq![digit_char(n)]
    } else {
        dec_rep(n / 10) + seq![digit_char(n % 10)]
    }
}

/// The value read back from a sequence of decimal digit characters.
pub open spec fn dec_val(s: Seq<char>) -> nat
    decreases s.len(),
{
    if s.len() == 0 {
        0
    } else {
        dec_val(s.drop_last()) * 10 + char_digit(s.last())
    }
}

/// Reading the decimal representation back yields the number it renders.
pub proof fn lemma_dec_rep_val(n: nat)
    ensures
        dec_val(dec_rep(n)) == n,
    decreases n,
{
    if n < 10 {
        assert(dec_rep(n).drop_last() =~= Seq::<char>::empty());
        assert(dec_val(Seq::<char>::empty()) == 0);
    } else {
        assert(dec_rep(n).drop_last() =~= dec_rep(n / 10));
        lemma_dec_rep_val(n / 10);
        vstd::arithmetic::div_mod::lemma_fundamental_div_mod(n as int, 10);
    }
}

/// Distinct numbers have distinct decimal representations.
pub proof fn lemma_dec_rep_injective(a: nat, b: nat)
    requires
        dec_rep(a) == dec_rep(b),
    ensures
        a == b,
{
    lemma_dec_rep_val(a);
    lemma_dec_rep_val(b);
}

/// Two strings that share the lengths of their prefixes and share their
/// suffix differ whenever their middle parts differ.
pub proof fn lemma_mid_distinct(
    p1: Seq<char>,
    m1: Seq<char>,
    p2: Seq<char>,
    m2: Seq<char>,
    suf: Seq<char>,
)
    requires
        p1.len() == p2.len(),
        m1 != m2,
    ensures
        p1 + m1 + suf != p2 + m2 + suf,
{
    if m1.len() != m2.len() {
        assert((p1 + m1 + suf).len() != (p2 + m2 + suf).len());
    } else {
        assert(exists|i: int| 0 <= i < m1.len() && m1[i] != m2[i]) by {
            if forall|i: int| 0 <= i < m1.len() ==> m1[i] == m2[i] {
                assert(m1 =~= m2);
            }
        }
        let i = choose|i: int| 0 <= i < m1.len() && m1[i] != m2[i];
        assert((p1 + m1 + suf)[p1.len() + i] == m1[i]);
        assert((p2 + m2 + suf)[p2.len() + i] == m2[i]);
    }
}

/// The magnitude of an integer.
pub open spec fn abs_nat(n: int) -> nat {
    if n < 0 {
        (-n) as nat
    } else {
        n as nat
    }
}

/// The decimal representation of an integer, with a leading minus sign when
/// it is negative.
pub open spec fn int_rep(n: int) -> Seq<char> {
    if n < 0 {
        seq!['-'] + dec_rep(abs_nat(n))
    } else {
        dec_rep(abs_nat(n))
    }
}

/// Relies on std's `String::push`: appends exactly the one character.
#[verifier::external_body]
fn push_char(out: &mut String, c: char)
    ensures
        final(out)@ == old(out)@ + seq![c],
{
    out.push(c);
}

/// The character for one decimal digit, as executable code.
pub fn digit_to_char(d: u64) -> (c: char)
    requires
        d < 10,
    ensures
        c == digit_char(d as nat),
{
    match d {
        0 => '0',
        1 => '1',
        2 => '2',
        3 => '3',
        4 => '4',
        5 => '5',
        6 => '6',
        7 => '7',
        8 => '8',
        _ => '9',
    }
}

/// Appends the decimal representation of `n`.
pub fn push_decimal(out: &mut String, n: u64)
    ensures
        final(out)@ == old(out)@ + dec_rep(n as nat),
    decreases n,
{
    if n < 10 {
        push_char(out, digit_to_char(n));
    } else {
        push_decimal(out, n / 10);
        push_char(out, digit_to_char(n % 10));
        assert(out@ =~= old(out)@ + dec_rep(n as nat));
    }
}

/// The decimal representation of `n` as a fresh string.
pub fn u64_string(n: u64) -> (r: String)
    ensures
        r@ == dec_rep(n as nat),
{
    let mut out = String::new();
    push_decimal(&mut out, n);
    assert(out@ =~= dec_rep(n as nat));
    out
}

/// Appends the signed decimal representation of `n`.
pub fn push_int(out: &mut String, n: i64)
    ensures
        final(out)@ == old(out)@ + int_rep(n as int),
{
    let wide: i128 = n as i128;
    if wide < 0 {
        push_char(out, '-');
        let mag: u64 = (-wide) as u64;
        assert(mag == abs_nat(n as int));
        push_decimal(out, mag);
        assert(out@ =~= old(out)@ + int_rep(n as int));
    } else {
        let mag: u64 = wide as u64;
        push_decimal(out, mag);
        assert(out@ =~= old(out)@ + int_rep(n as int));
    }
}

/// A millisecond count rendered as seconds with three fractional digits,
/// with a leading minus sign when negative.
pub open spec fn seconds_rep(ms: int) -> Seq<char> {
    let a = abs_nat(ms);
    (if ms < 0 {
        seq!['-']
    } else {
        Seq::<char>::empty()
    }) + dec_rep(a / 1000) + seq!['.'] + seq![
        digit_char(a / 100 % 10),
        digit_char(a / 10 % 10),
        digit_char(a % 10),
    ]
}

/// Appends `ms` milliseconds rendered as seconds, e.g. "-1.250".
pub fn push_seconds(out: &mut String, ms: i64)
    ensures
        final(out)@ == old(out)@ + seconds_rep(ms as int),
{
    let wide: i128 = ms as i128;
    let mag: u64 = if wide < 0 {
        push_char(out, '-');
        (-wide) as u64
    } else {
        wide as u64
    };
    assert(mag == abs_nat(ms as int));
    push_decimal(out, mag / 1000);
    push_char(out, '.');
    push_char(out, digit_to_char(mag / 100 % 10));
    push_char(out, digit_to_char(mag / 10 % 10));
    push_char(out, digit_to_char(mag % 10));
    assert(out@ =~= old(out)@ + seconds_rep(ms as int));
}

/// The character for one lowercase hexadecimal digit.
pub open spec fn hex_char(d: nat) -> char {
    if d < 10 {
        digit_char(d)
    } else if d == 10 {
        'a'
    } else if d == 11 {
        'b'
    } else if d == 12 {
        'c'
    } else if d == 13 {
        'd'
    } else if d == 14 {
        'e'
    } else {
        'f'
    }
}

/// The character for one lowercase hexadecimal digit, as executable code.
pub fn hex_to_char(d: u64) -> (c: char)
    requires
        d < 16,
    ensures
        c == hex_char(d as nat),
{
    if d < 10 {
        digit_to_char(d)
    } else {
        match d {
            10 => 'a',
            11 => 'b',
            12 => 'c',
            13 => 'd',
            14 => 'e',
            _ => 'f',
        }
    }
}

/// How one character is written inside a JSON string literal.
pub open spec fn escape_char(c: char) -> Seq<char> {
    if c == '"' {
        seq!['\\', '"']
    } else if c == '\\' {
        seq!['\\', '\\']
    } else if c == '\n' {
        seq!['\\', 'n']
    } else if c == '\r' {
        seq!['\\', 'r']
    } else if c == '\t' {
        seq!['\\', 't']
    } else if (c as u32) < 32 {
        seq!['\\', 'u', '0', '0', hex_char((c as u32 / 16) as nat), hex_char((c as u32 % 16) as nat)]
    } else {
        seq![c]
    }
}

/// A character sequence escaped for use inside a JSON string literal.
pub open spec fn json_escaped(s: Seq<char>) -> Seq<char>
    decreases s.len(),
{
    if s.len() == 0 {
        Seq::<char>::empty()
    } else {
        json_escaped(s.drop_last()) + escape_char(s.last())
    }
}

/// Appends `s` escaped for use inside a JSON string literal.
pub fn push_json_escaped(out: &mut String, s: &str)
    ensures
        final(out)@ == old(out)@ + json_escaped(s@),
{
    let n: usize = s.unicode_len();
    let mut i: usize = 0;
    while i < n
        invariant
            i <= n,
            n == s@.len(),
            out@ == old(out)@ + json_escaped(s@.subrange(0, i as int)),
        decreases n - i,
    {
        let c = s.get_char(i);
        if c == '"' {
            push_char(out, '\\');
            push_char(out, '"');
        } else if c == '\\' {
            push_char(out, '\\');
            push_char(out, '\\');
        } else if c == '\n' {
            push_char(out, '\\');
            push_char(out, 'n');
        } else if c == '\r' {
            push_char(out, '\\');
            push_char(out, 'r');
        } else if c == '\t' {
            push_char(out, '\\');
            push_char(out, 't');
        } else if (c as u32) < 32 {
            let code: u32 = c as u32;
            push_char(out, '\\');
            push_char(out, 'u');
            push_char(out, '0');
            push_char(out, '0');
            push_char(out, hex_to_char((code / 16) as u64));
            push_char(out, hex_to_char((code % 16) as u64));
        } else {
            push_char(out, c);
        }
        proof {
            assert(s@.subrange(0, i + 1 as int).drop_last() =~= s@.subrange(0, i as int));
            assert(s@.subrange(0, i + 1 as int).last() == c);
            assert(out@ =~= old(out)@ + json_escaped(s@.subrange(0, i + 1 as int)));
        }
        i = i + 1;
    }
    assert(s@.subrange(0, n as int) =~= s@);
}

/// What percent-encoding a character sequence yields: every byte of the
/// UTF-8 form is escaped except ASCII alphanumerics and '-', '_', '.', '~'.
/// The result depends on the input characters alone.
pub uninterp spec fn url_encoded(s: Seq<char>) -> Seq<char>;

/// Relies on urlencoding::encode: percent-encodes every byte except ASCII
/// alphanumerics and '-', '_', '.', '~'; an empty input stays empty.
#[verifier::external_body]
pub(crate) fn encode_component(s: &str) -> (r: String)
    ensures
        r@ == url_encoded(s@),
        s@.len() == 0 ==> r@.len() == 0,
{
    urlencoding::encode(s).into_owned()
}

/// The views of a list of string pairs.
pub open spec fn pair_views(s: Seq<(String, String)>) -> Seq<(Seq<char>, Seq<char>)> {
    s.map_values(|p: (String, String)| (p.0@, p.1@))
}

/// `s` with every trailing '/' removed.
pub open spec fn trimmed_slashes(s: Seq<char>) -> Seq<char>
    decreases s.len(),
{
    if s.len() > 0 && s.last() == '/' {
        trimmed_slashes(s.drop_last())
    } else {
        s
    }
}

/// `trimmed_slashes` keeps exactly the prefix before the trailing slashes.
proof fn lemma_trimmed_slashes(s: Seq<char>, k: int)
    requires
        0 <= k <= s.len(),
        forall|j: int| k <= j < s.len() ==> s[j] == '/',
        k > 0 ==> s[k - 1] != '/',
    ensures
        trimmed_slashes(s) == s.subrange(0, k),
    decreases s.len(),
{
    if s.len() == k {
        assert(s.subrange(0, k) =~= s);
    } else {
        assert(s.last() == '/');
        lemma_trimmed_slashes(s.drop_last(), k);
        assert(s.drop_last().subrange(0, k) =~= s.subrange(0, k));
    }
}

/// `s` with every trailing '/' removed, as a fresh string.
pub fn trim_trailing_slashes(s: &str) -> (r: String)
    ensures
        r@ == trimmed_slashes(s@),
{
    let n: usize = s.unicode_len();
    let mut k: usize = n;
    while k > 0 && s.get_char(k - 1) == '/'
        invariant
            k <= n,
            n == s@.len(),
            forall|j: int| k <= j < s@.len() ==> s@[j] == '/',
        decreases k,
    {
        k = k - 1;
    }
    proof {
        lemma_trimmed_slashes(s@, k as int);
    }
    let cut = s.substring_char(0, k);
    cut.to_owned()
}

/// `s` with every leading '?' removed.
pub open spec fn stripped_question_marks(s: Seq<char>) -> Seq<char>
    decreases s.len(),
{
    if s.len() > 0 && s[0] == '?' {
        stripped_question_marks(s.drop_first())
    } else {
        s
    }
}

/// `stripped_question_marks` keeps exactly the suffix after the leading
/// question marks.
proof fn lemma_stripped_question_marks(s: Seq<char>, k: int)
    requires
        0 <= k <= s.len(),
        forall|j: int| 0 <= j < k ==> s[j] == '?',
        k < s.len() ==> s[k] != '?',
    ensures
        stripped_question_marks(s) == s.subrange(k, s.len() as int),
    decreases s.len(),
{
    if k == 0 {
        assert(s.subrange(0, s.len() as int) =~= s);
    } else {
        assert(s[0] == '?');
        lemma_stripped_question_marks(s.drop_first(), k - 1);
        assert(s.drop_first().subrange(k - 1, s.drop_first().len() as int) =~= s.subrange(
            k,
            s.len() as int,
        ));
    }
}

/// `s` with every leading '?' removed, as a fresh string.
pub fn strip_leading_question_marks(s: &str) -> (r: String)
    ensures
        r@ == stripped_question_marks(s@),
{
    let n: usize = s.unicode_len();
    let mut k: usize = 0;
    while k < n && s.get_char(k) == '?'
        invariant
            k <= n,
            n == s@.len(),
            forall|j: int| 0 <= j < k ==> s@[j] == '?',
        decreases n - k,
    {
        k = k + 1;
    }
    proof {
        lemma_stripped_question_marks(s@, k as int);
    }
    let cut = s.substring_char(k, n);
    cut.to_owned()
}

} // verus!
