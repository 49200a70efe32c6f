//! Verified rendering of the gateway's JSON response bodies.
//!
//! The spec functions here say, character by character, what the rendered
//! text is; the executable functions build exactly that text.

use vstd::prelude::*;
use vstd::string::StrSliceExecFns;
use vstd::string::StringExecFns;

verus! {

/// Relies on `String::push` of std: appends the given character to the end
/// of the string.
#[verifier::external_body]
pub(crate) fn push_char(s: &mut String, c: char)
    ensures
        final(s)@ == old(s)@.push(c),
{
    s.push(c);
}

/// The hexadecimal digit for `n`.
pub open spec fn hex_digit(n: int) -> char {
    if n == 0 {
        '0'
    } else if n == 1 {
        '1'
    } else if n == 2 {
        '2'
    } else if n == 3 {
        '3'
    } else if n == 4 {
        '4'
    } else if n == 5 {
        '5'
    } else if n == 6 {
        '6'
    } else if n == 7 {
        '7'
    } else if n == 8 {
        '8'
    } else if n == 9 {
        '9'
    } else if n == 10 {
        'a'
    } else if n == 11 {
        'b'
    } else if n == 12 {
        'c'
    } else if n == 13 {
        'd'
    } else if n == 14 {
        'e'
    } else {
        'f'
    }
}

/// How one character stands inside a JSON string literal: the quotation
/// mark and the reverse solidus are escaped, the control characters with a
/// two-character form use it, the other control characters use `\u00XX`,
/// and every other character stands as itself.
pub open spec fn escaped_char(c: char) -> Seq<char> {
    if c == '"' {
        seq!['\\', '"']
    } else if c == '\\' {
        seq!['\\', '\\']
    } else if c == '\u{8}' {
        seq!['\\', 'b']
    } else if c == '\u{c}' {
        seq!['\\', 'f']
    } else if c == '\n' {
        seq!['\\', 'n']
    } else if c == '\r' {
        seq!['\\', 'r']
    } else if c == '\t' {
        seq!['\\', 't']
    } else if (c as u32) < 32 {
        seq!['\\', 'u', '0', '0', hex_digit((c as u32) as int / 16), hex_digit(
            (c as u32) as int % 16,
        )]
    } else {
        seq![c]
    }
}

/// A whole string escaped for JSON, character by character.
pub open spec fn escaped(s: Seq<char>) -> Seq<char>
    decreases s.len(),
{
    if s.len() == 0 {
        Seq::empty()
    } else {
        escaped(s.drop_last()) + escaped_char(s.last())
    }
}

/// A JSON string literal: quotes around the escaped characters.
pub open spec fn quoted(s: Seq<char>) -> Seq<char> {
    seq!['"'] + escaped(s) + seq!['"']
}

/// Comma-joined parts, as the members of an object or the elements of an
/// array stand between their brackets.
pub open spec fn joined(parts: Seq<Seq<char>>) -> Seq<char>
    decreases parts.len(),
{
    if parts.len() == 0 {
        Seq::empty()
    } else if parts.len() == 1 {
        parts[0]
    } else {
        joined(parts.drop_last()) + seq![','] + parts.last()
    }
}

/// One `"key":value` member of a JSON object; the value is already
/// rendered.
pub open spec fn member(key: Seq<char>, value: Seq<char>) -> Seq<char> {
    seq!['"'] + key + seq!['"', ':'] + value
}

fn hex_char(n: u32) -> (c: char)
    requires
        n < 16,
    ensures
        c == hex_digit(n as int),
{
    if n == 0 {
        '0'
    } else if n == 1 {
        '1'
    } else if n == 2 {
        '2'
    } else if n == 3 {
        '3'
    } else if n == 4 {
        '4'
    } else if n == 5 {
        '5'
    } else if n == 6 {
        '6'
    } else if n == 7 {
        '7'
    } else if n == 8 {
        '8'
    } else if n == 9 {
        '9'
    } else if n == 10 {
        'a'
    } else if n == 11 {
        'b'
    } else if n == 12 {
        'c'
    } else if n == 13 {
        'd'
    } else if n == 14 {
        'e'
    } else {
        'f'
    }
}

fn push_escaped_char(out: &mut String, c: char)
    ensures
        final(out)@ == old(out)@ + escaped_char(c),
{
    if c == '"' {
        push_char(out, '\\');
        push_char(out, '"');
        proof {
            assert(out@ =~= old(out)@ + escaped_char(c));
        }
    } else if c == '\\' {
        push_char(out, '\\');
        push_char(out, '\\');
        proof {
            assert(out@ =~= old(out)@ + escaped_char(c));
        }
    } else if c == '\u{8}' {
        push_char(out, '\\');
        push_char(out, 'b');
        proof {
            assert(out@ =~= old(out)@ + escaped_char(c));
        }
    } else if c == '\u{c}' {
        push_char(out, '\\');
        push_char(out, 'f');
        proof {
            assert(out@ =~= old(out)@ + escaped_char(c));
        }
    } else if c == '\n' {
        push_char(out, '\\');
        push_char(out, 'n');
        proof {
            assert(out@ =~= old(out)@ + escaped_char(c));
        }
    } else if c == '\r' {
        push_char(out, '\\');
        push_char(out, 'r');
        proof {
            assert(out@ =~= old(out)@ + escaped_char(c));
        }
    } else if c == '\t' {
        push_char(out, '\\');
        push_char(out, 't');
        proof {
            assert(out@ =~= old(out)@ + escaped_char(c));
        }
    } else {
        let code: u32 = c as u32;
        if code < 32 {
            push_char(out, '\\');
            push_char(out, 'u');
            push_char(out, '0');
            push_char(out, '0');
            push_char(out, hex_char(code / 16));
            push_char(out, hex_char(code % 16));
            proof {
                assert(out@ =~= old(out)@ + escaped_char(c));
            }
        } else {
            push_char(out, c);
            proof {
                assert(out@ =~= old(out)@ + escaped_char(c));
            }
        }
    }
}

/// Escapes a string for use inside a JSON string literal.
pub fn escape_json(s: &str) -> (r: String)
    ensures
        r@ == escaped(s@),
{
    let n = s.unicode_len();
    let mut out = String::new();
    let mut i: usize = 0;
    while i < n
        invariant
            i <= n,
            n == s@.len(),
            out@ == escaped(s@.take(i as int)),
        decreases n - i,
    {
        let c = s.get_char(i);
        push_escaped_char(&mut out, c);
        proof {
            assert(s@.take(i as int + 1).drop_last() =~= s@.take(i as int));
            assert(s@.take(i as int + 1).last() == s@[i as int]);
        }
        i = i + 1;
    }
    proof {
        assert(s@.take(n as int) =~= s@);
    }
    out
}

/// Renders a string as a JSON string literal.
pub fn quote_json(s: &str) -> (r: String)
    ensures
        r@ == quoted(s@),
{
    let mut out = String::new();
    push_char(&mut out, '"');
    let esc = escape_json(s);
    out.append(esc.as_str());
    push_char(&mut out, '"');
    proof {
        assert(out@ =~= quoted(s@));
    }
    out
}

/// Renders one `"key":value` object member; the value is already rendered.
pub fn render_member(key: &str, value: String) -> (r: String)
    ensures
        r@ == member(key@, value@),
{
    let mut out = String::new();
    push_char(&mut out, '"');
    out.append(key);
    push_char(&mut out, '"');
    push_char(&mut out, ':');
    out.append(value.as_str());
    proof {
        assert(out@ =~= member(key@, value@));
    }
    out
}

/// Accumulates already-rendered JSON parts, comma-separated, in the order
/// they are added.
pub struct JsonJoiner {
    buf: String,
    first: bool,
    parts: Ghost<Seq<Seq<char>>>,
}

impl JsonJoiner {
    /// The parts added so far, each as it was handed in.
    pub closed spec fn parts(self) -> Seq<Seq<char>> {
        self.parts@
    }

    /// The accumulated text is exactly the comma-joined parts.
    pub closed spec fn wf(self) -> bool {
        &&& self.buf@ == joined(self.parts@)
        &&& (self.first <==> self.parts@.len() == 0)
    }

    pub fn new() -> (r: Self)
        ensures
            r.wf(),
            r.parts() == Seq::<Seq<char>>::empty(),
    {
        JsonJoiner { buf: String::new(), first: true, parts: Ghost(Seq::empty()) }
    }

    pub fn add(&mut self, part: String)
        requires
            old(self).wf(),
        ensures
            final(self).wf(),
            final(self).parts() == old(self).parts().push(part@),
    {
        if self.first {
            self.first = false;
        } else {
            push_char(&mut self.buf, ',');
        }
        self.buf.append(part.as_str());
        proof {
            self.parts@ = self.parts@.push(part@);
            assert(self.parts@.drop_last() =~= old(self).parts());
            assert(self.parts@.last() == part@);
            assert(self.buf@ =~= joined(self.parts@));
        }
    }

    /// Hands the joined text out.
    pub fn finish(self) -> (r: String)
        requires
            self.wf(),
        ensures
            r@ == joined(self.parts()),
    {
        self.buf
    }
}

} // verus!
