//! Verified text building blocks of the serializer: decimal rendering of
//! fixed-point quantities, JSON string escaping, and comma joining.

use vstd::prelude::*;
use vstd::string::StrSliceExecFns;
use vstd::string::StringExecFns;

verus! {

/// The decimal digit character for a value in `0..=9`.
pub open spec fn dec_digit(d: int) -> char {
    if d == 0 { '0' }
    else if d == 1 { '1' }
    else if d == 2 { '2' }
    else if d == 3 { '3' }
    else if d == 4 { '4' }
    else if d == 5 { '5' }
    else if d == 6 { '6' }
    else if d == 7 { '7' }
    else if d == 8 { '8' }
    else { '9' }
}

/// Decimal digit string of a non-negative integer, most significant first.
pub open spec fn dec_digits(n: int) -> Seq<char>
    decreases n,
{
    if n < 10 {
        seq![dec_digit(n)]
    } else {
        dec_digits(n / 10) + seq![dec_digit(n % 10)]
    }
}

/// One decimal digit as a string slice.
fn digit_str(d: u64) -> (r: &'static str)
    requires
        d < 10,
    ensures
        r@ == seq![dec_digit(d as int)],
{
    let r: &'static str = if d == 0 { "0" }
    else if d == 1 { "1" }
    else if d == 2 { "2" }
    else if d == 3 { "3" }
    else if d == 4 { "4" }
    else if d == 5 { "5" }
    else if d == 6 { "6" }
    else if d == 7 { "7" }
    else if d == 8 { "8" }
    else { "9" };
    proof {
        reveal_strlit("0");
        reveal_strlit("1");
        reveal_strlit("2");
        reveal_strlit("3");
        reveal_strlit("4");
        reveal_strlit("5");
        reveal_strlit("6");
        reveal_strlit("7");
        reveal_strlit("8");
        reveal_strlit("9");
        assert(r@ =~= seq![dec_digit(d as int)]);
    }
    r
}

/// Render a non-negative integer in decimal.
pub fn fmt_u64(n: u64) -> (r: String)
    ensures
        r@ == dec_digits(n as int),
    decreases n,
{
    if n < 10 {
        String::from_str(digit_str(n))
    } else {
        let mut s = fmt_u64(n / 10);
        s.append(digit_str(n % 10));
        s
    }
}

/// Decimal rendering of a non-negative fixed-point value in thousandths:
/// integer part, then a fraction of up to three digits with its trailing
/// zeros removed, and no fraction at all for a whole number.
pub open spec fn milli_nonneg(a: int) -> Seq<char> {
    dec_digits(a / 1000) + frac_part(a % 1000)
}

/// The fraction part (possibly empty) of a fixed-point rendering.
pub open spec fn frac_part(f: int) -> Seq<char> {
    if f == 0 {
        Seq::<char>::empty()
    } else if f % 100 == 0 {
        "."@ + seq![dec_digit(f / 100)]
    } else if f % 10 == 0 {
        "."@ + seq![dec_digit(f / 100), dec_digit((f / 10) % 10)]
    } else {
        "."@ + seq![dec_digit(f / 100), dec_digit((f / 10) % 10), dec_digit(f % 10)]
    }
}

/// Decimal rendering of a fixed-point value in thousandths, with a leading
/// minus sign when negative.
pub open spec fn milli_of(v: int) -> Seq<char> {
    if v < 0 {
        "-"@ + milli_nonneg(-v)
    } else {
        milli_nonneg(v)
    }
}

/// Render a fixed-point value in thousandths as a decimal number.
pub fn fmt_milli(v: i64) -> (r: String)
    requires
        v != i64::MIN,
    ensures
        r@ == milli_of(v as int),
{
    let a: u64 = if v < 0 { (-v) as u64 } else { v as u64 };
    let mut out = if v < 0 { String::from_str("-") } else { String::new() };
    let whole = fmt_u64(a / 1000);
    out.append(whole.as_str());
    let f: u64 = a % 1000;
    if f != 0 {
        out.append(".");
        if f % 100 == 0 {
            out.append(digit_str(f / 100));
        } else if f % 10 == 0 {
            out.append(digit_str(f / 100));
            out.append(digit_str((f / 10) % 10));
        } else {
            out.append(digit_str(f / 100));
            out.append(digit_str((f / 10) % 10));
            out.append(digit_str(f % 10));
        }
    }
    proof {
        assert(a as int == if v < 0 { -(v as int) } else { v as int });
        assert(out@ =~= milli_of(v as int));
    }
    out
}

/// The hexadecimal digit character for a value in `0..=15`.
pub open spec fn hex_digit(d: int) -> char {
    if d < 10 {
        dec_digit(d)
    } else if d == 10 { 'a' }
    else if d == 11 { 'b' }
    else if d == 12 { 'c' }
    else if d == 13 { 'd' }
    else if d == 14 { 'e' }
    else { 'f' }
}

/// One hexadecimal digit as a string slice.
fn hex_str(d: u32) -> (r: &'static str)
    requires
        d < 16,
    ensures
        r@ == seq![hex_digit(d as int)],
{
    let r: &'static str = if d < 10 {
        digit_str(d as u64)
    } else if d == 10 { "a" }
    else if d == 11 { "b" }
    else if d == 12 { "c" }
    else if d == 13 { "d" }
    else if d == 14 { "e" }
    else { "f" };
    proof {
        reveal_strlit("a");
        reveal_strlit("b");
        reveal_strlit("c");
        reveal_strlit("d");
        reveal_strlit("e");
        reveal_strlit("f");
        assert(r@ =~= seq![hex_digit(d as int)]);
    }
    r
}

/// JSON escaping of one character.
pub open spec fn esc_char(c: char) -> Seq<char> {
    if c == '"' {
        "\\\""@
    } else if c == '\\' {
        "\\\\"@
    } else if c == '\n' {
        "\\n"@
    } else if c == '\r' {
        "\\r"@
    } else if c == '\t' {
        "\\t"@
    } else if (c as u32) < 32 {
        "\\u00"@ + seq![hex_digit((c as u32) as int / 16), hex_digit((c as u32) as int % 16)]
    } else {
        seq![c]
    }
}

/// JSON escaping of a character sequence.
pub open spec fn esc(s: Seq<char>) -> Seq<char>
    decreases s.len(),
{
    if s.len() == 0 {
        Seq::<char>::empty()
    } else {
        esc(s.drop_last()) + esc_char(s.last())
    }
}

/// Relies on `String::push`: it appends exactly the one given character.
#[verifier::external_body]
fn push_char(s: &mut String, c: char)
    ensures
        final(s)@ == old(s)@ + seq![c],
{
    s.push(c);
}

/// Escape a string for inclusion in a JSON string literal.
pub fn esc_str(s: &str) -> (r: String)
    ensures
        r@ == esc(s@),
{
    let n = s.unicode_len();
    let mut out = String::new();
    let mut i: usize = 0;
    while i < n
        invariant
            n == s@.len(),
            i <= n,
            out@ == esc(s@.take(i as int)),
        decreases n - i,
    {
        let c = s.get_char(i);
        if c == '"' {
            out.append("\\\"");
        } else if c == '\\' {
            out.append("\\\\");
        } else if c == '\n' {
            out.append("\\n");
        } else if c == '\r' {
            out.append("\\r");
        } else if c == '\t' {
            out.append("\\t");
        } else if (c as u32) < 32 {
            out.append("\\u00");
            out.append(hex_str((c as u32) / 16));
            out.append(hex_str((c as u32) % 16));
        } else {
            push_char(&mut out, c);
        }
        proof {
            assert(s@.take(i + 1).drop_last() =~= s@.take(i as int));
            assert(s@.take(i + 1).last() == s@[i as int]);
            assert(out@ =~= esc(s@.take(i + 1)));
        }
        i = i + 1;
    }
    proof {
        assert(s@.take(n as int) =~= s@);
    }
    out
}

/// A JSON string literal: the escaped characters between double quotes.
pub open spec fn jstr(s: Seq<char>) -> Seq<char> {
    "\""@ + esc(s) + "\""@
}

/// Render a string as a JSON string literal.
pub fn json_str(s: &str) -> (r: String)
    ensures
        r@ == jstr(s@),
{
    let mut out = String::from_str("\"");
    let e = esc_str(s);
    out.append(e.as_str());
    out.append("\"");
    out
}

/// The views of a sequence of strings.
pub open spec fn str_views(s: Seq<String>) -> Seq<Seq<char>> {
    s.map_values(|x: String| x@)
}

/// The given pieces joined by single commas.
pub open spec fn join_comma(items: Seq<Seq<char>>) -> Seq<char>
    decreases items.len(),
{
    if items.len() == 0 {
        Seq::<char>::empty()
    } else if items.len() == 1 {
        items[0]
    } else {
        join_comma(items.drop_last()) + ","@ + items.last()
    }
}

/// Join the given strings with single commas.
pub fn join_all(items: &Vec<String>) -> (r: String)
    ensures
        r@ == join_comma(str_views(items@)),
{
    let mut out = String::new();
    let mut i: usize = 0;
    while i < items.len()
        invariant
            i <= items@.len(),
            out@ == join_comma(str_views(items@).take(i as int)),
        decreases items@.len() - i,
    {
        if i > 0 {
            out.append(",");
        }
        out.append(items[i].as_str());
        proof {
            let views = str_views(items@);
            assert(views.take(i + 1).drop_last() =~= views.take(i as int));
            assert(views.take(i + 1).last() == items@[i as int]@);
            if i == 0 {
                assert(out@ =~= join_comma(views.take(i + 1)));
            } else {
                assert(out@ =~= join_comma(views.take(i + 1)));
            }
        }
        i = i + 1;
    }
    proof {
        assert(str_views(items@).take(items@.len() as int) =~= str_views(items@));
    }
    out
}

} // verus!
