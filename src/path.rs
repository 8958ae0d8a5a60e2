use vstd::prelude::*;
use vstd::string::StrSliceExecFns;
use vstd::string::StringExecFns;

use crate::strings::contains_char;
use crate::Warning;

verus! {

/// What a single character becomes in an escaped path.
pub open spec fn escape_char(c: char) -> Seq<char> {
    if c == '\n' {
        seq!['\\', 'n']
    } else if c == '\t' {
        seq!['\\', 't']
    } else if c == '"' {
        seq!['\\', '"']
    } else if c == '\\' {
        seq!['\\', '\\']
    } else {
        seq![c]
    }
}

/// `s` with each character escaped.
pub open spec fn escaped(s: Seq<char>) -> Seq<char>
    decreases s.len(),
{
    if s.len() == 0 {
        Seq::empty()
    } else {
        escaped(s.drop_last()) + escape_char(s.last())
    }
}

/// The character that follows a backslash stands for.
pub open spec fn unescape_char(c: char) -> char {
    if c == 'n' {
        '\n'
    } else if c == 't' {
        '\t'
    } else {
        c
    }
}

/// Reads escape sequences back: a backslash and the character after it stand
/// for one character; any other character stands for itself.
pub open spec fn unescaped(t: Seq<char>) -> Seq<char>
    decreases t.len(),
{
    if t.len() == 0 {
        Seq::empty()
    } else if t[0] == '\\' && t.len() >= 2 {
        seq![unescape_char(t[1])] + unescaped(t.subrange(2, t.len() as int))
    } else {
        seq![t[0]] + unescaped(t.drop_first())
    }
}

/// A visible ASCII character: neither a control character, a space, nor
/// anything beyond ASCII.
pub open spec fn is_ascii_graphic(c: char) -> bool {
    0x21 <= (c as u32) <= 0x7e
}

/// Some character of `s` is not visible ASCII.
pub open spec fn has_non_graphic(s: Seq<char>) -> bool {
    exists|i: int| 0 <= i < s.len() && !is_ascii_graphic(#[trigger] s[i])
}

proof fn lemma_escaped_step(s: Seq<char>, i: int)
    requires
        0 <= i < s.len(),
    ensures
        escaped(s.subrange(0, i + 1)) == escaped(s.subrange(0, i)) + escape_char(s[i]),
{
    assert(s.subrange(0, i + 1).drop_last() =~= s.subrange(0, i));
}

/// Replaces newline, tab, double quote and backslash by their escape
/// sequences (`\n`, `\t`, `\"`, `\\`); other characters are kept.
pub fn escape_control(input: &str) -> (output: String)
    requires
        !input@.contains('\''),
    ensures
        output@ == escaped(input@),
{
    let n = input.unicode_len();
    let mut output = String::new();
    let mut i: usize = 0;
    proof {
        assert(input@.subrange(0, 0) =~= Seq::<char>::empty());
    }
    while i < n
        invariant
            n == input@.len(),
            i <= n,
            output@ == escaped(input@.subrange(0, i as int)),
        decreases n - i,
    {
        let ch = input.get_char(i);
        proof {
            lemma_escaped_step(input@, i as int);
            reveal_strlit("\\n");
            reveal_strlit("\\t");
            reveal_strlit("\\\"");
            reveal_strlit("\\\\");
        }
        if ch == '\n' {
            output.append("\\n");
            assert(output@ =~= escaped(input@.subrange(0, i + 1)));
        } else if ch == '\t' {
            output.append("\\t");
            assert(output@ =~= escaped(input@.subrange(0, i + 1)));
        } else if ch == '"' {
            output.append("\\\"");
            assert(output@ =~= escaped(input@.subrange(0, i + 1)));
        } else if ch == '\\' {
            output.append("\\\\");
            assert(output@ =~= escaped(input@.subrange(0, i + 1)));
        } else {
            output.append(input.substring_char(i, i + 1));
            assert(output@ =~= escaped(input@.subrange(0, i + 1)));
        }
        i = i + 1;
    }
    assert(input@.subrange(0, n as int) =~= input@);
    output
}

/// Why a working directory cannot be embedded in a command line.
#[derive(Debug, Clone, Copy, PartialEq, Eq, Structural)]
pub enum SanitizeError {
    /// The path holds a single quote, which cannot be escaped inside the
    /// single quotes that every template puts around it.
    SingleQuote,
}

impl SanitizeError {
    /// A message for the user.
    pub fn message(&self) -> (r: &'static str)
        ensures
            r@ == "i3 does not support paths containing \"'\" (single quote)"@,
    {
        "i3 does not support paths containing \"'\" (single quote)"
    }
}

/// A working directory escaped for use between single quotes.
#[derive(Debug)]
pub struct SanitizedPath {
    path: String,
    warning: Option<Warning>,
}

impl View for SanitizedPath {
    type V = Seq<char>;

    closed spec fn view(&self) -> Seq<char> {
        self.path@
    }
}

impl SanitizedPath {
    /// The warning that the path raised, if any.
    pub closed spec fn spec_warning(&self) -> Option<Warning> {
        self.warning
    }

    /// The escaped path.
    pub fn as_str(&self) -> (r: &str)
        ensures
            r@ == self@,
    {
        self.path.as_str()
    }

    /// The warning that the path raised, if any.
    pub fn warning(&self) -> (r: Option<Warning>)
        ensures
            r == self.spec_warning(),
    {
        self.warning
    }
}

/// The warning that a raw path raises.
pub open spec fn path_warning(raw: Seq<char>) -> Option<Warning> {
    if has_non_graphic(raw) {
        Some(Warning::NonGraphicPath)
    } else {
        None
    }
}

/// Whether some character of `s` is not visible ASCII.
pub fn any_non_graphic(s: &str) -> (r: bool)
    ensures
        r == has_non_graphic(s@),
{
    let n = s.unicode_len();
    let mut i: usize = 0;
    while i < n
        invariant
            n == s@.len(),
            i <= n,
            forall|k: int| 0 <= k < i ==> is_ascii_graphic(#[trigger] s@[k]),
        decreases n - i,
    {
        let ch = s.get_char(i);
        let u = ch as u32;
        if u < 0x21 || u > 0x7e {
            assert(!is_ascii_graphic(s@[i as int]));
            return true;
        }
        i = i + 1;
    }
    false
}

/// Makes a working directory safe to place between single quotes: a path
/// with a single quote is refused; otherwise it is escaped, with a warning
/// where it holds characters other than visible ASCII.
pub fn sanitize(raw: &str) -> (r: Result<SanitizedPath, SanitizeError>)
    ensures
        r is Err <==> raw@.contains('\''),
        r is Err ==> r == Err::<SanitizedPath, SanitizeError>(SanitizeError::SingleQuote),
        r matches Ok(p) ==> p@ == escaped(raw@) && p.spec_warning() == path_warning(raw@)
            && !p@.contains('\n') && !p@.contains('\t') && !p@.contains('\''),
{
    if contains_char(raw, '\'') {
        return Err(SanitizeError::SingleQuote);
    }
    proof {
        lemma_escaped_is_quotable(raw@);
    }
    let warning = if any_non_graphic(raw) {
        Some(Warning::NonGraphicPath)
    } else {
        None
    };
    Ok(SanitizedPath { path: escape_control(raw), warning })
}

proof fn lemma_escaped_origin(s: Seq<char>, k: int)
    requires
        0 <= k < escaped(s).len(),
    ensures
        exists|j: int| 0 <= j < s.len() && escape_char(s[j]).contains(#[trigger] escaped(s)[k]),
    decreases s.len(),
{
    if s.len() > 0 {
        let p = escaped(s.drop_last());
        if k < p.len() {
            lemma_escaped_origin(s.drop_last(), k);
            let j = choose|j: int|
                0 <= j < s.drop_last().len() && escape_char(s.drop_last()[j]).contains(
                    #[trigger] escaped(s.drop_last())[k],
                );
            assert(escaped(s)[k] == p[k]);
            assert(s.drop_last()[j] == s[j]);
        } else {
            let j = s.len() - 1;
            let e = escape_char(s[j]);
            assert(escaped(s)[k] == e[k - p.len()]);
            assert(e.contains(escaped(s)[k]));
        }
    }
}

proof fn lemma_escaped_concat(a: Seq<char>, b: Seq<char>)
    ensures
        escaped(a + b) == escaped(a) + escaped(b),
    decreases b.len(),
{
    if b.len() == 0 {
        assert(a + b =~= a);
        assert(escaped(a) + escaped(b) =~= escaped(a));
    } else {
        lemma_escaped_concat(a, b.drop_last());
        assert((a + b).drop_last() =~= a + b.drop_last());
        assert((a + b).last() == b.last());
        assert(escaped(a + b) =~= escaped(a) + escaped(b));
    }
}

proof fn lemma_unescaped_front(c: char, rest: Seq<char>)
    ensures
        unescaped(escape_char(c) + rest) == seq![c] + unescaped(rest),
{
    let t = escape_char(c) + rest;
    if c == '\n' || c == '\t' || c == '"' || c == '\\' {
        assert(t[0] == '\\');
        assert(t.subrange(2, t.len() as int) =~= rest);
        assert(seq![unescape_char(t[1])] =~= seq![c]);
    } else {
        assert(t[0] == c);
        assert(t.drop_first() =~= rest);
    }
}

/// Escaping loses nothing: reading the escape sequences back gives the path
/// again, so every newline, tab, double quote and backslash of the path
/// stands in the result as part of an escape sequence.
pub proof fn lemma_unescape_escaped(raw: Seq<char>)
    ensures
        unescaped(escaped(raw)) == raw,
    decreases raw.len(),
{
    if raw.len() > 0 {
        let rest = raw.drop_first();
        assert(raw =~= seq![raw[0]] + rest);
        lemma_escaped_concat(seq![raw[0]], rest);
        let one = seq![raw[0]];
        assert(one.drop_last().len() == 0);
        assert(escaped(one.drop_last()) =~= Seq::<char>::empty());
        assert(one.last() == raw[0]);
        assert(escaped(seq![raw[0]]) =~= escape_char(raw[0]));
        lemma_unescaped_front(raw[0], escaped(rest));
        lemma_unescape_escaped(rest);
    }
}

/// Escaping a path without single quotes leaves no raw newline, tab or single
/// quote in it.
pub proof fn lemma_escaped_is_quotable(raw: Seq<char>)
    requires
        !raw.contains('\''),
    ensures
        !escaped(raw).contains('\n'),
        !escaped(raw).contains('\t'),
        !escaped(raw).contains('\''),
{
    assert forall|k: int| 0 <= k < escaped(raw).len() implies {
        let c = #[trigger] escaped(raw)[k];
        &&& c != '\n'
        &&& c != '\t'
        &&& c != '\''
    } by {
        lemma_escaped_origin(raw, k);
        let j = choose|j: int| 0 <= j < raw.len() && escape_char(raw[j]).contains(#[trigger] escaped(raw)[k]);
        let c = escaped(raw)[k];
        let e = escape_char(raw[j]);
        let i = choose|i: int| 0 <= i < e.len() && e[i] == c;
        assert(raw.contains(raw[j]));
        let d = raw[j];
        if d == '\n' {
            assert(e =~= seq!['\\', 'n']);
        } else if d == '\t' {
            assert(e =~= seq!['\\', 't']);
        } else if d == '"' {
            assert(e =~= seq!['\\', '"']);
        } else if d == '\\' {
            assert(e =~= seq!['\\', '\\']);
        } else {
            assert(e =~= seq![d]);
        }
    }
}

} // verus!
