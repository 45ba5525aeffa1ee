use vstd::prelude::*;
use vstd::string::StrSliceExecFns;
use vstd::string::StringExecFns;

verus! {

/// The two-character sequence that stands for `c` inside a backtick-delimited
/// script literal, or `c` alone where it needs no escaping.
pub open spec fn escape_char(c: char) -> Seq<char> {
    if c == '\\' {
        seq!['\\', '\\']
    } else if c == '`' {
        seq!['\\', '`']
    } else if c == '$' {
        seq!['\\', '$']
    } else if c == '\n' {
        seq!['\\', 'n']
    } else if c == '\r' {
        seq!['\\', 'r']
    } else {
        seq![c]
    }
}

/// Escaped form of a whole text: each character escaped in turn.
pub open spec fn escape_seq(s: Seq<char>) -> Seq<char>
    decreases s.len(),
{
    if s.len() == 0 {
        Seq::empty()
    } else {
        escape_char(s[0]) + escape_seq(s.skip(1))
    }
}

/// The character that an escape sequence `\x` evaluates to in a script
/// string literal.
pub open spec fn unescape_char(x: char) -> char {
    if x == 'n' {
        '\n'
    } else if x == 'r' {
        '\r'
    } else {
        x
    }
}

/// How the embedded document's script engine reads the body of a
/// backtick-delimited literal, restricted to the escapes that this module
/// produces.
pub open spec fn unescape_seq(t: Seq<char>) -> Seq<char>
    decreases t.len(),
{
    if t.len() == 0 {
        Seq::empty()
    } else if t[0] == '\\' && t.len() >= 2 {
        seq![unescape_char(t[1])] + unescape_seq(t.skip(2))
    } else {
        seq![t[0]] + unescape_seq(t.skip(1))
    }
}

/// A literal body is safe when no backtick or dollar sign stands without a
/// backslash before it and no raw line terminator remains.
pub open spec fn is_safe_literal_body(t: Seq<char>) -> bool
    decreases t.len(),
{
    if t.len() == 0 {
        true
    } else if t[0] == '\\' {
        t.len() >= 2 && is_safe_literal_body(t.skip(2))
    } else {
        t[0] != '`' && t[0] != '$' && t[0] != '\n' && t[0] != '\r'
            && is_safe_literal_body(t.skip(1))
    }
}

proof fn lemma_escape_push(s: Seq<char>, c: char)
    ensures
        escape_seq(s.push(c)) == escape_seq(s) + escape_char(c),
    decreases s.len(),
{
    if s.len() == 0 {
        assert(s.push(c).skip(1) =~= Seq::<char>::empty());
        assert(escape_seq(Seq::<char>::empty()) == Seq::<char>::empty());
        assert(escape_seq(s) == Seq::<char>::empty());
        assert(escape_seq(s.push(c)) =~= escape_char(c) + Seq::<char>::empty());
        assert(escape_seq(s.push(c)) =~= escape_seq(s) + escape_char(c));
    } else {
        assert(s.push(c).skip(1) =~= s.skip(1).push(c));
        lemma_escape_push(s.skip(1), c);
        assert(escape_seq(s.push(c)) =~= escape_seq(s) + escape_char(c));
    }
}

/// Evaluating the escaped text as a script literal gives back the original
/// text, for every text.
pub proof fn lemma_unescape_escape(s: Seq<char>)
    ensures
        unescape_seq(escape_seq(s)) == s,
    decreases s.len(),
{
    if s.len() > 0 {
        let c = s[0];
        let rest = escape_seq(s.skip(1));
        lemma_unescape_escape(s.skip(1));
        let t = escape_char(c) + rest;
        if c == '\\' || c == '`' || c == '$' || c == '\n' || c == '\r' {
            assert(t.skip(2) =~= rest);
        } else {
            assert(t.skip(1) =~= rest);
        }
        assert(unescape_seq(t) =~= s);
    }
}

/// Escaping never maps two different texts to the same output.
pub proof fn lemma_escape_injective(a: Seq<char>, b: Seq<char>)
    requires
        escape_seq(a) == escape_seq(b),
    ensures
        a == b,
{
    lemma_unescape_escape(a);
    lemma_unescape_escape(b);
}

/// The escaped form of every text is safe to splice between backticks.
pub proof fn lemma_escape_is_safe(s: Seq<char>)
    ensures
        is_safe_literal_body(escape_seq(s)),
    decreases s.len(),
{
    if s.len() > 0 {
        let c = s[0];
        let rest = escape_seq(s.skip(1));
        lemma_escape_is_safe(s.skip(1));
        let t = escape_char(c) + rest;
        if c == '\\' || c == '`' || c == '$' || c == '\n' || c == '\r' {
            assert(t.skip(2) =~= rest);
        } else {
            assert(t.skip(1) =~= rest);
        }
    }
}

/// Escapes `message` for a backtick-delimited script literal: backslash
/// first, then backtick, dollar sign, newline and carriage return.
pub fn escape_message(message: &str) -> (r: String)
    ensures
        r@ == escape_seq(message@),
{
    let n = message.unicode_len();
    let mut out = String::new();
    let mut i: usize = 0;
    while i < n
        invariant
            n == message@.len(),
            i <= n,
            out@ == escape_seq(message@.take(i as int)),
        decreases n - i,
    {
        let c = message.get_char(i);
        proof {
            assert(message@.take(i as int + 1) =~= message@.take(i as int).push(c));
            lemma_escape_push(message@.take(i as int), c);
        }
        if c == '\\' {
            out.append("\\\\");
            proof { reveal_strlit("\\\\"); }
        } else if c == '`' {
            out.append("\\`");
            proof { reveal_strlit("\\`"); }
        } else if c == '$' {
            out.append("\\$");
            proof { reveal_strlit("\\$"); }
        } else if c == '\n' {
            out.append("\\n");
            proof { reveal_strlit("\\n"); }
        } else if c == '\r' {
            out.append("\\r");
            proof { reveal_strlit("\\r"); }
        } else {
            let one = message.substring_char(i, i + 1);
            out.append(one);
        }
        assert(out@ =~= escape_seq(message@.take(i as int + 1)));
        i = i + 1;
    }
    assert(message@.take(n as int) =~= message@);
    out
}

} // verus!
