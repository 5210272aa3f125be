//! The JSON value model and its wire text.
//!
//! Every response the bridge sends, and every value a command carries, is a
//! `Json` value. `to_text` renders a value as one line of compact JSON; its
//! contract pins the exact character sequence, so the envelope a peer reads
//! is fixed by the specification functions here.

use vstd::prelude::*;

verus! {

/// A JSON value.
///
/// Numbers come in three forms: `Int` and `UInt` carry the integers the
/// bridge itself computes (exit codes, lengths, random draws); `Num` carries
/// a number as its decimal text, for values that reach the bridge already
/// rendered (the peer's own numbers, floating-point draws). `Num` text is
/// embedded in the output unchanged.
#[derive(Debug, PartialEq, Eq)]
pub enum Json {
    Null,
    Bool(bool),
    Int(i64),
    UInt(u64),
    Num(String),
    Str(String),
    Arr(Vec<Json>),
    Obj(Vec<(String, Json)>),
}

/// The decimal digit character for `d` (correct for `d < 10`).
pub open spec fn digit_char(d: nat) -> char
    recommends
        d < 10,
{
    ((48 + d) as u8) as char
}

/// The lowercase hexadecimal digit character for `d` (correct for `d < 16`).
pub open spec fn hex_char(d: nat) -> char
    recommends
        d < 16,
{
    if d < 10 {
        ((48 + d) as u8) as char
    } else {
        ((87 + d) as u8) as char
    }
}

/// The decimal text of a natural number, without sign or padding.
pub open spec fn dec_str(n: nat) -> Seq<char>
    decreases n,
{
    if n < 10 {
        seq![digit_char(n)]
    } else {
        dec_str(n / 10) + seq![digit_char(n % 10)]
    }
}

/// The decimal text of an integer: a `-` sign for negatives, then digits.
pub open spec fn int_str(i: int) -> Seq<char> {
    if i >= 0 {
        dec_str(i as nat)
    } else {
        seq!['-'] + dec_str((-i) as nat)
    }
}

/// The JSON string escape of one character: `"` and `\` are backslashed,
/// the named control characters use their short forms, the remaining
/// control characters use `\u00XX`, and everything else stands as itself.
pub open spec fn esc_char(c: char) -> Seq<char> {
    if c == '"' {
        seq!['\\', '"']
    } else if c == '\\' {
        seq!['\\', '\\']
    } else if c == '\n' {
        seq!['\\', 'n']
    } else if c == '\r' {
        seq!['\\', 'r']
    } else if c == '\t' {
        seq!['\\', 't']
    } else if c == '\u{8}' {
        seq!['\\', 'b']
    } else if c == '\u{c}' {
        seq!['\\', 'f']
    } else if (c as u32) < 32 {
        seq!['\\', 'u', '0', '0', hex_char((c as u32 / 16) as nat), hex_char((c as u32 % 16) as nat)]
    } else {
        seq![c]
    }
}

/// The JSON string escape of a whole character sequence.
pub open spec fn esc_str(s: Seq<char>) -> Seq<char>
    decreases s.len(),
{
    if s.len() == 0 {
        Seq::empty()
    } else {
        esc_str(s.drop_last()) + esc_char(s.last())
    }
}

/// A string literal in its quotes.
pub open spec fn quoted(s: Seq<char>) -> Seq<char> {
    seq!['"'] + esc_str(s) + seq!['"']
}

/// The compact wire text of a JSON value.
pub open spec fn json_chars(v: Json) -> Seq<char>
    decreases v,
{
    match v {
        Json::Null => seq!['n', 'u', 'l', 'l'],
        Json::Bool(b) => if b {
            seq!['t', 'r', 'u', 'e']
        } else {
            seq!['f', 'a', 'l', 's', 'e']
        },
        Json::Int(i) => int_str(i as int),
        Json::UInt(n) => dec_str(n as nat),
        Json::Num(s) => s@,
        Json::Str(s) => quoted(s@),
        Json::Arr(a) => seq!['['] + arr_chars(a@) + seq![']'],
        Json::Obj(o) => seq!['{'] + obj_chars(o@) + seq!['}'],
    }
}

/// The comma-separated elements of an array.
pub open spec fn arr_chars(s: Seq<Json>) -> Seq<char>
    decreases s,
{
    if s.len() == 0 {
        Seq::empty()
    } else if s.len() == 1 {
        json_chars(s[0])
    } else {
        arr_chars(s.drop_last()) + seq![','] + json_chars(s.last())
    }
}

/// The comma-separated `"key":value` members of an object.
pub open spec fn obj_chars(s: Seq<(String, Json)>) -> Seq<char>
    decreases s,
{
    if s.len() == 0 {
        Seq::empty()
    } else if s.len() == 1 {
        quoted(s[0].0@) + seq![':'] + json_chars(s[0].1)
    } else {
        obj_chars(s.drop_last()) + seq![','] + quoted(s.last().0@) + seq![':'] + json_chars(
            s.last().1,
        )
    }
}

/// Relies on `String`'s `FromIterator<char>` implementation: collecting
/// characters yields the string of exactly those characters in order.
#[verifier::external_body]
fn chars_to_string(v: &Vec<char>) -> (r: String)
    ensures
        r@ == v@,
{
    v.iter().collect()
}

/// Appends the decimal digits of `n` to `out`.
fn push_u64(n: u64, out: &mut Vec<char>)
    ensures
        final(out)@ == old(out)@ + dec_str(n as nat),
    decreases n,
{
    if n < 10 {
        out.push((48 + n as u8) as char);
        proof {
            assert(out@ =~= old(out)@ + dec_str(n as nat));
        }
    } else {
        push_u64(n / 10, out);
        out.push((48 + (n % 10) as u8) as char);
        proof {
            assert(out@ =~= old(out)@ + dec_str(n as nat));
        }
    }
}

/// Appends the decimal text of `i`, sign included, to `out`.
fn push_i64(i: i64, out: &mut Vec<char>)
    ensures
        final(out)@ == old(out)@ + int_str(i as int),
{
    if i >= 0 {
        push_u64(i as u64, out);
    } else {
        out.push('-');
        let m: u64 = ((-(i + 1)) as u64) + 1;
        assert(m == -(i as int));
        push_u64(m, out);
        proof {
            assert(out@ =~= old(out)@ + int_str(i as int));
        }
    }
}

/// Appends the escape of one character to `out`.
fn push_esc_char(c: char, out: &mut Vec<char>)
    ensures
        final(out)@ == old(out)@ + esc_char(c),
{
    if c == '"' {
        out.push('\\');
        out.push('"');
    } else if c == '\\' {
        out.push('\\');
        out.push('\\');
    } else if c == '\n' {
        out.push('\\');
        out.push('n');
    } else if c == '\r' {
        out.push('\\');
        out.push('r');
    } else if c == '\t' {
        out.push('\\');
        out.push('t');
    } else if c == '\u{8}' {
        out.push('\\');
        out.push('b');
    } else if c == '\u{c}' {
        out.push('\\');
        out.push('f');
    } else if (c as u32) < 32 {
        let x = c as u32;
        out.push('\\');
        out.push('u');
        out.push('0');
        out.push('0');
        let hi = (x / 16) as u8;
        let lo = (x % 16) as u8;
        out.push(if hi < 10 { (48 + hi) as char } else { (87 + hi) as char });
        out.push(if lo < 10 { (48 + lo) as char } else { (87 + lo) as char });
    } else {
        out.push(c);
    }
    proof {
        assert(out@ =~= old(out)@ + esc_char(c));
    }
}

/// Appends the escape of a whole string to `out`.
fn push_escaped(s: &str, out: &mut Vec<char>)
    ensures
        final(out)@ == old(out)@ + esc_str(s@),
{
    let n = s.unicode_len();
    for i in 0..n
        invariant
            n == s@.len(),
            out@ == old(out)@ + esc_str(s@.subrange(0, i as int)),
    {
        let c = s.get_char(i);
        push_esc_char(c, out);
        proof {
            let t = s@.subrange(0, i + 1);
            assert(t.drop_last() =~= s@.subrange(0, i as int));
            assert(t.last() == c);
            assert(out@ =~= old(out)@ + esc_str(t));
        }
    }
    proof {
        assert(s@.subrange(0, s@.len() as int) =~= s@);
    }
}

/// Appends a quoted, escaped string literal to `out`.
fn push_quoted(s: &str, out: &mut Vec<char>)
    ensures
        final(out)@ == old(out)@ + quoted(s@),
{
    out.push('"');
    push_escaped(s, out);
    out.push('"');
    proof {
        assert(out@ =~= old(out)@ + quoted(s@));
    }
}

impl Json {
    /// Appends the compact wire text of this value to `out`.
    #[verifier::loop_isolation(false)]
    #[verifier::rlimit(100)]
    pub fn write_chars(&self, out: &mut Vec<char>)
        ensures
            final(out)@ == old(out)@ + json_chars(*self),
        decreases *self,
    {
        match self {
            Json::Null => {
                out.push('n');
                out.push('u');
                out.push('l');
                out.push('l');
                proof {
                    assert(out@ =~= old(out)@ + json_chars(*self));
                }
            },
            Json::Bool(b) => {
                if *b {
                    out.push('t');
                    out.push('r');
                    out.push('u');
                    out.push('e');
                } else {
                    out.push('f');
                    out.push('a');
                    out.push('l');
                    out.push('s');
                    out.push('e');
                }
                proof {
                    assert(out@ =~= old(out)@ + json_chars(*self));
                }
            },
            Json::Int(i) => {
                push_i64(*i, out);
            },
            Json::UInt(n) => {
                push_u64(*n, out);
            },
            Json::Num(s) => {
                let n = s.unicode_len();
                for i in 0..n
                    invariant
                        n == s@.len(),
                        out@ == old(out)@ + s@.subrange(0, i as int),
                    {
                    let c = s.as_str().get_char(i);
                    out.push(c);
                    proof {
                        assert(out@ =~= old(out)@ + s@.subrange(0, i + 1));
                    }
                }
                proof {
                    assert(s@.subrange(0, s@.len() as int) =~= s@);
                    assert(out@ =~= old(out)@ + json_chars(*self));
                }
            },
            Json::Str(s) => {
                push_quoted(s.as_str(), out);
            },
            Json::Arr(a) => {
                out.push('[');
                let n = a.len();
                for i in 0..n
                    invariant
                        n == a@.len(),
                        out@ == old(out)@ + seq!['['] + arr_chars(a@.subrange(0, i as int)),
                {
                    if i > 0 {
                        out.push(',');
                    }
                    proof {
                        assert(decreases_to!(*self => self->Arr_0));
                        assert(decreases_to!(self->Arr_0 => self->Arr_0@));
                        assert(decreases_to!(self->Arr_0@ => self->Arr_0@[i as int]));
                        assert(decreases_to!(*self => a@[i as int]));
                    }
                    a[i].write_chars(out);
                    proof {
                        let t = a@.subrange(0, i + 1);
                        assert(t.drop_last() =~= a@.subrange(0, i as int));
                        assert(t.last() == a@[i as int]);
                        assert(out@ =~= old(out)@ + seq!['['] + arr_chars(t));
                    }
                }
                out.push(']');
                proof {
                    assert(a@.subrange(0, a@.len() as int) =~= a@);
                    assert(out@ =~= old(out)@ + json_chars(*self));
                }
            },
            Json::Obj(o) => {
                out.push('{');
                let n = o.len();
                for i in 0..n
                    invariant
                        n == o@.len(),
                        out@ == old(out)@ + seq!['{'] + obj_chars(o@.subrange(0, i as int)),
                {
                    if i > 0 {
                        out.push(',');
                    }
                    push_quoted(o[i].0.as_str(), out);
                    out.push(':');
                    proof {
                        assert(decreases_to!(*self => self->Obj_0));
                        assert(decreases_to!(self->Obj_0 => self->Obj_0@));
                        assert(decreases_to!(self->Obj_0@ => self->Obj_0@[i as int]));
                        assert(decreases_to!(self->Obj_0@[i as int] => self->Obj_0@[i as int].1));
                        assert(decreases_to!(*self => o@[i as int].1));
                    }
                    o[i].1.write_chars(out);
                    proof {
                        let t = o@.subrange(0, i + 1);
                        assert(t.drop_last() =~= o@.subrange(0, i as int));
                        assert(t.last() == o@[i as int]);
                        assert(out@ =~= old(out)@ + seq!['{'] + obj_chars(t));
                    }
                }
                out.push('}');
                proof {
                    assert(o@.subrange(0, o@.len() as int) =~= o@);
                    assert(out@ =~= old(out)@ + json_chars(*self));
                }
            },
        }
    }
}

/// Renders a natural number as its decimal text.
pub fn dec_text(n: u64) -> (r: String)
    ensures
        r@ == dec_str(n as nat),
{
    let mut out: Vec<char> = Vec::new();
    push_u64(n, &mut out);
    chars_to_string(&out)
}

/// Renders a string as a quoted, escaped literal.
pub fn quoted_text(s: &str) -> (r: String)
    ensures
        r@ == quoted(s@),
{
    let mut out: Vec<char> = Vec::new();
    push_quoted(s, &mut out);
    chars_to_string(&out)
}

/// Renders a JSON value as its compact wire text.
pub fn to_text(v: &Json) -> (r: String)
    ensures
        r@ == json_chars(*v),
{
    let mut out: Vec<char> = Vec::new();
    v.write_chars(&mut out);
    chars_to_string(&out)
}

} // verus!
