//! Query-string encoding of the scheduler's wire format.
//!
//! A value is escaped character by character: ASCII alphanumerics and
//! `* - . _` stand as themselves, a space becomes `+`, and every other
//! character becomes `%XX` with uppercase hex digits. Only ASCII values are
//! accepted; a value with other characters is refused rather than encoded
//! wrongly.

use vstd::prelude::*;

verus! {

use vstd::string::*;

/// A query value could not be encoded.
#[derive(PartialEq, Eq, Structural, Clone, Copy, Debug)]
pub enum QueryError {
    /// The value holds characters outside ASCII.
    NotAscii,
}

/// The character stands for itself in a query string: an ASCII alphanumeric
/// or one of `* - . _` (codes compared as numbers).
pub open spec fn qs_unescaped(c: char) -> bool {
    let n = c as u32;
    (97 <= n <= 122)  // a-z
    || (65 <= n <= 90)  // A-Z
    || (48 <= n <= 57)  // 0-9
    || n == 42  // *
    || n == 45  // -
    || n == 46  // .
    || n == 95  // _
}

/// The uppercase hex digit of a value below 16.
pub open spec fn hex_upper(n: int) -> char {
    if n == 0 { '0' }
    else if n == 1 { '1' }
    else if n == 2 { '2' }
    else if n == 3 { '3' }
    else if n == 4 { '4' }
    else if n == 5 { '5' }
    else if n == 6 { '6' }
    else if n == 7 { '7' }
    else if n == 8 { '8' }
    else if n == 9 { '9' }
    else if n == 10 { 'A' }
    else if n == 11 { 'B' }
    else if n == 12 { 'C' }
    else if n == 13 { 'D' }
    else if n == 14 { 'E' }
    else { 'F' }
}

/// What one character contributes to the encoded value.
pub open spec fn qs_escape_char(c: char) -> Seq<char> {
    if qs_unescaped(c) {
        seq![c]
    } else if c == ' ' {
        seq!['+']
    } else {
        seq!['%', hex_upper(c as u32 as int / 16), hex_upper(c as u32 as int % 16)]
    }
}

/// The encoded form of a value.
pub open spec fn qs_escape_spec(s: Seq<char>) -> Seq<char>
    decreases s.len(),
{
    if s.len() == 0 {
        Seq::empty()
    } else {
        qs_escape_spec(s.drop_last()) + qs_escape_char(s.last())
    }
}

/// Decides `qs_unescaped`.
fn qs_unescaped_exec(c: char) -> (r: bool)
    ensures
        r == qs_unescaped(c),
{
    let n = c as u32;
    (97 <= n && n <= 122) || (65 <= n && n <= 90) || (48 <= n && n <= 57) || n == 42 || n == 45
        || n == 46 || n == 95
}

/// The uppercase hex digit of a value below 16, as a string piece.
fn hex_upper_str(n: u32) -> (r: &'static str)
    requires
        n < 16,
    ensures
        r@ == seq![hex_upper(n as int)],
{
    proof {
        reveal_strlit("0");
        reveal_strlit("1");
        reveal_strlit("2");
        reveal_strlit("3");
        reveal_strlit("4");
        reveal_strlit("5");
        reveal_strlit("6");
        reveal_strlit("7");
        reveal_strlit("8");
        reveal_strlit("9");
        reveal_strlit("A");
        reveal_strlit("B");
        reveal_strlit("C");
        reveal_strlit("D");
        reveal_strlit("E");
        reveal_strlit("F");
    }
    let r = if n == 0 { "0" }
    else if n == 1 { "1" }
    else if n == 2 { "2" }
    else if n == 3 { "3" }
    else if n == 4 { "4" }
    else if n == 5 { "5" }
    else if n == 6 { "6" }
    else if n == 7 { "7" }
    else if n == 8 { "8" }
    else if n == 9 { "9" }
    else if n == 10 { "A" }
    else if n == 11 { "B" }
    else if n == 12 { "C" }
    else if n == 13 { "D" }
    else if n == 14 { "E" }
    else { "F" };
    proof {
        assert(r@ =~= seq![hex_upper(n as int)]);
    }
    r
}

/// Encodes one value for a query string. A value outside ASCII is refused.
pub fn qs_escape(s: &str) -> (r: Result<String, QueryError>)
    ensures
        s.is_ascii() ==> (r matches Ok(t) && t@ == qs_escape_spec(s@)),
        !s.is_ascii() ==> r == Err::<String, QueryError>(QueryError::NotAscii),
{
    if !s.is_ascii() {
        return Err(QueryError::NotAscii);
    }
    let n = s.unicode_len();
    let mut out = String::new();
    proof {
        assert(s@.take(0) =~= Seq::<char>::empty());
    }
    let mut i: usize = 0;
    while i < n
        invariant
            i <= n == s@.len(),
            s.is_ascii(),
            out@ == qs_escape_spec(s@.take(i as int)),
        decreases n - i,
    {
        let c = s.get_char(i);
        proof {
            assert('\u{0}' <= c <= '\u{7f}');
        }
        if qs_unescaped_exec(c) {
            let piece = s.substring_char(i, i + 1);
            out.append(piece);
            proof {
                assert(piece@ =~= seq![c]);
            }
        } else if c == ' ' {
            out.append("+");
            proof {
                reveal_strlit("+");
                assert("+"@ =~= seq!['+']);
            }
        } else {
            out.append("%");
            let code = c as u32;
            let hi = hex_upper_str(code / 16);
            let lo = hex_upper_str(code % 16);
            out.append(hi);
            out.append(lo);
            proof {
                reveal_strlit("%");
                assert("%"@ + hi@ + lo@ =~= qs_escape_char(c));
            }
        }
        proof {
            assert(s@.take(i as int + 1).drop_last() =~= s@.take(i as int));
            assert(s@.take(i as int + 1).last() == s@[i as int]);
            assert(out@ =~= qs_escape_spec(s@.take(i as int + 1)));
        }
        i = i + 1;
    }
    proof {
        assert(s@.take(n as int) =~= s@);
    }
    Ok(out)
}

} // verus!
