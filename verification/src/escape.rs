//! Argument encoding for elevation mechanisms that accept one parameter
//! string instead of an argument vector.

use vstd::prelude::*;
use vstd::string::StrSliceExecFns;
use vstd::string::StringExecFns;

verus! {

/// A character that forces an argument to be quoted: space, tab or a double
/// quote.
pub open spec fn forces_quoting(c: char) -> bool {
    c == ' ' || c == '\t' || c == '"'
}

/// Whether some character of `s` forces quoting.
pub open spec fn needs_quoting(s: Seq<char>) -> bool {
    exists|i: int| 0 <= i < s.len() && forces_quoting(#[trigger] s[i])
}

/// What one character becomes inside a quoted argument: a backslash is
/// doubled, a double quote gets a backslash in front, anything else stays.
pub open spec fn escaped_char(c: char) -> Seq<char> {
    if c == '\\' {
        seq!['\\', '\\']
    } else if c == '"' {
        seq!['\\', '"']
    } else {
        seq![c]
    }
}

/// The body of a quoted argument: each character of `s` escaped, in order.
pub open spec fn escaped_body(s: Seq<char>) -> Seq<char>
    decreases s.len(),
{
    if s.len() == 0 {
        Seq::empty()
    } else {
        escaped_body(s.drop_last()) + escaped_char(s.last())
    }
}

/// The body of `s` between two double quotes.
pub open spec fn quoted(s: Seq<char>) -> Seq<char> {
    seq!['"'] + escaped_body(s) + seq!['"']
}

/// The encoding of one argument. The empty argument is written as two
/// double quotes, an argument without space, tab or double quote stays as it
/// is, and any other is quoted.
pub open spec fn escaped(s: Seq<char>) -> Seq<char> {
    if s.len() == 0 || needs_quoting(s) {
        quoted(s)
    } else {
        s
    }
}

/// The encoded arguments in order, with one space between neighbours.
pub open spec fn joined(args: Seq<Seq<char>>) -> Seq<char>
    decreases args.len(),
{
    if args.len() == 0 {
        Seq::empty()
    } else if args.len() == 1 {
        escaped(args[0])
    } else {
        joined(args.drop_last()) + seq![' '] + escaped(args.last())
    }
}

/// `String::push` of the standard library appends the character to the end
/// of the string and leaves what was there unchanged.
pub assume_specification[ String::push ](s: &mut String, ch: char)
    ensures
        final(s)@ == old(s)@.push(ch),
;

/// Tells whether `arg` holds a space, a tab or a double quote.
pub fn needs_quotes(arg: &str) -> (r: bool)
    ensures
        r == needs_quoting(arg@),
{
    let n = arg.unicode_len();
    let mut i: usize = 0;
    while i < n
        invariant
            n == arg@.len(),
            i <= n,
            forall|j: int| 0 <= j < i ==> !forces_quoting(#[trigger] arg@[j]),
        decreases n - i,
    {
        let c = arg.get_char(i);
        if c == ' ' || c == '\t' || c == '"' {
            return true;
        }
        i += 1;
    }
    false
}

/// Appends the encoding of `arg` to `out`.
pub fn push_escaped(out: &mut String, arg: &str)
    ensures
        final(out)@ == old(out)@ + escaped(arg@),
{
    let n = arg.unicode_len();
    if n != 0 && !needs_quotes(arg) {
        out.append(arg);
        return ;
    }
    let ghost before = out@;
    out.push('"');
    let mut i: usize = 0;
    while i < n
        invariant
            n == arg@.len(),
            i <= n,
            out@ == before + seq!['"'] + escaped_body(arg@.take(i as int)),
        decreases n - i,
    {
        let c = arg.get_char(i);
        proof {
            assert(arg@.take(i + 1).drop_last() == arg@.take(i as int));
            assert(arg@.take(i + 1).last() == c);
        }
        if c == '\\' {
            out.push('\\');
            out.push('\\');
        } else if c == '"' {
            out.push('\\');
            out.push('"');
        } else {
            out.push(c);
        }
        i += 1;
        assert(out@ == before + seq!['"'] + escaped_body(arg@.take(i as int)));
    }
    out.push('"');
    proof {
        assert(arg@.take(n as int) == arg@);
        assert(out@ == before + quoted(arg@));
    }
}

/// Encodes one argument.
pub fn escape_arg(arg: &str) -> (out: String)
    ensures
        out@ == escaped(arg@),
{
    let mut out = String::new();
    push_escaped(&mut out, arg);
    out
}

/// Encodes the arguments and joins them with a single space.
pub fn escape_args(args: &Vec<String>) -> (out: String)
    ensures
        out@ == joined(args.deep_view()),
{
    let mut out = String::new();
    let mut i: usize = 0;
    while i < args.len()
        invariant
            i <= args.len(),
            out@ == joined(args.deep_view().take(i as int)),
        decreases args.len() - i,
    {
        if i > 0 {
            out.push(' ');
        }
        push_escaped(&mut out, args[i].as_str());
        proof {
            let done = args.deep_view().take(i + 1);
            assert(done.drop_last() == args.deep_view().take(i as int));
            assert(done.last() == args[i as int]@);
        }
        i += 1;
    }
    proof {
        assert(args.deep_view().take(args.len() as int) == args.deep_view());
    }
    out
}

/// An argument that is not empty and holds no space, tab or double quote is
/// encoded as itself.
pub proof fn lemma_plain_argument_stays(s: Seq<char>)
    requires
        s.len() > 0,
        !needs_quoting(s),
    ensures
        escaped(s) == s,
{
}

/// Encoding such an argument a second time changes nothing.
pub proof fn lemma_escape_twice_on_plain(s: Seq<char>)
    requires
        s.len() > 0,
        !needs_quoting(s),
    ensures
        escaped(escaped(s)) == escaped(s),
{
}

/// The body of a quoted argument starts with its first character escaped.
pub proof fn lemma_escaped_body_front(s: Seq<char>)
    requires
        s.len() > 0,
    ensures
        escaped_body(s) == escaped_char(s[0]) + escaped_body(s.skip(1)),
    decreases s.len(),
{
    if s.len() == 1 {
        assert(s.drop_last() =~= Seq::<char>::empty());
        assert(s.skip(1) =~= Seq::<char>::empty());
        assert(escaped_body(s.drop_last()) + escaped_char(s.last()) =~= escaped_char(s[0])
            + escaped_body(s.skip(1)));
    } else {
        lemma_escaped_body_front(s.drop_last());
        assert(s.drop_last().skip(1) == s.skip(1).drop_last());
        assert(s.skip(1).last() == s.last());
        assert(escaped_body(s) =~= escaped_char(s[0]) + escaped_body(s.skip(1)));
    }
}

} // verus!
