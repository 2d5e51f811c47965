//! The reader of encoded command lines: the inverse of the argument
//! encoding, and the proof that it is one.
//!
//! The reader knows one escape, the backslash in front of a backslash or of
//! a double quote between double quotes. A consumer with other rules may
//! read a quoted argument differently: one that takes a backslash as an
//! escape only in front of a double quote keeps both of two doubled
//! backslashes that no quote follows.

use vstd::prelude::*;
use vstd::string::StrSliceExecFns;
use crate::escape::{
    escaped, escaped_body, escaped_char, forces_quoting, joined, lemma_escaped_body_front,
    needs_quoting,
};

verus! {

/// `word` in front of the words that follow, where there are any.
pub open spec fn word_then(word: Seq<char>, following: Option<Seq<Seq<char>>>) -> Option<
    Seq<Seq<char>>,
> {
    match following {
        Some(words) => Some(seq![word] + words),
        None => None,
    }
}

/// The words of `t`, read from left to right. `in_word` says whether a word
/// has begun, `in_quotes` whether the reader stands between double quotes,
/// and `cur` holds the characters of the word so far.
///
/// Outside quotes a space or a tab ends the word, a double quote opens a
/// quoted stretch, and any other character belongs to the word. Inside
/// quotes a double quote closes the stretch, a backslash in front of a
/// backslash or a double quote is dropped and the character after it taken
/// as it is, and any other character, a lone backslash too, belongs to the
/// word. A text that ends inside quotes has no reading.
pub open spec fn scan(t: Seq<char>, in_word: bool, in_quotes: bool, cur: Seq<char>) -> Option<
    Seq<Seq<char>>,
>
    decreases t.len(),
{
    if t.len() == 0 {
        if in_quotes {
            None
        } else if in_word {
            Some(seq![cur])
        } else {
            Some(Seq::empty())
        }
    } else if in_quotes {
        if t[0] == '"' {
            scan(t.skip(1), true, false, cur)
        } else if t[0] == '\\' && t.len() >= 2 && (t[1] == '\\' || t[1] == '"') {
            scan(t.skip(2), true, true, cur.push(t[1]))
        } else {
            scan(t.skip(1), true, true, cur.push(t[0]))
        }
    } else if t[0] == ' ' || t[0] == '\t' {
        if in_word {
            word_then(cur, scan(t.skip(1), false, false, Seq::empty()))
        } else {
            scan(t.skip(1), false, false, Seq::empty())
        }
    } else if t[0] == '"' {
        scan(t.skip(1), true, true, cur)
    } else {
        scan(t.skip(1), true, false, cur.push(t[0]))
    }
}

/// The arguments that a command line holds, or `None` where a quote is left
/// open.
pub open spec fn words(t: Seq<char>) -> Option<Seq<Seq<char>>> {
    scan(t, false, false, Seq::empty())
}

/// The words read so far in front of what the rest of the text gives.
pub open spec fn words_then(done: Seq<Seq<char>>, following: Option<Seq<Seq<char>>>) -> Option<
    Seq<Seq<char>>,
> {
    match following {
        Some(words) => Some(done + words),
        None => None,
    }
}

/// Splits a command line into its arguments; `None` where a quote is left
/// open.
pub fn split_args(text: &str) -> (r: Option<Vec<String>>)
    ensures
        match r {
            Some(args) => words(text@) == Some(args.deep_view()),
            None => words(text@) is None,
        },
{
    let n = text.unicode_len();
    let mut done: Vec<String> = Vec::new();
    let mut cur = String::new();
    let mut in_word = false;
    let mut in_quotes = false;
    let mut i: usize = 0;
    assert(text@.skip(0) == text@);
    assert(done.deep_view() =~= Seq::<Seq<char>>::empty());
    assert(words_then(done.deep_view(), words(text@)) == words(text@)) by {
        if let Some(w) = words(text@) {
            assert(done.deep_view() + w =~= w);
        }
    }
    while i < n
        invariant
            n == text@.len(),
            i <= n,
            in_quotes ==> in_word,
            !in_word ==> cur@ == Seq::<char>::empty(),
            words(text@) == words_then(
                done.deep_view(),
                scan(text@.skip(i as int), in_word, in_quotes, cur@),
            ),
        decreases n - i,
    {
        let ghost t = text@.skip(i as int);
        let ghost before = done.deep_view();
        let c = text.get_char(i);
        assert(t[0] == c);
        let mut step: usize = 1;
        if in_quotes {
            if c == '"' {
                in_quotes = false;
            } else if c == '\\' && i + 1 < n {
                let d = text.get_char(i + 1);
                assert(t[1] == d);
                if d == '\\' || d == '"' {
                    step = 2;
                    cur.push(d);
                } else {
                    cur.push(c);
                }
            } else {
                cur.push(c);
            }
        } else if c == ' ' || c == '\t' {
            if in_word {
                let ghost word = cur@;
                done.push(cur);
                cur = String::new();
                in_word = false;
                proof {
                    assert(done.deep_view() =~= before.push(word));
                    let following = scan(t.skip(1), false, false, Seq::empty());
                    if let Some(w) = following {
                        assert(before + (seq![word] + w) =~= before.push(word) + w);
                    }
                }
            }
        } else if c == '"' {
            in_word = true;
            in_quotes = true;
        } else {
            in_word = true;
            cur.push(c);
        }
        proof {
            assert(t.skip(step as int) == text@.skip(i + step));
        }
        i += step;
    }
    assert(text@.skip(n as int).len() == 0);
    if in_quotes {
        return None;
    }
    if in_word {
        let ghost before = done.deep_view();
        let ghost word = cur@;
        done.push(cur);
        assert(done.deep_view() =~= before + seq![word]);
    } else {
        assert(done.deep_view() + Seq::<Seq<char>>::empty() =~= done.deep_view());
    }
    Some(done)
}

/// Between quotes, the reader takes the body of a quoted argument and its
/// closing quote as the argument's own characters.
proof fn lemma_scan_quoted_body(s: Seq<char>, rest: Seq<char>, cur: Seq<char>)
    ensures
        scan(escaped_body(s) + seq!['"'] + rest, true, true, cur) == scan(
            rest,
            true,
            false,
            cur + s,
        ),
    decreases s.len(),
{
    let t = escaped_body(s) + seq!['"'] + rest;
    if s.len() == 0 {
        assert(t =~= seq!['"'] + rest);
        assert(t.skip(1) =~= rest);
        assert(cur + s =~= cur);
    } else {
        let c = s[0];
        let tail = s.skip(1);
        lemma_escaped_body_front(s);
        let next = escaped_body(tail) + seq!['"'] + rest;
        assert(t =~= escaped_char(c) + next);
        lemma_scan_quoted_body(tail, rest, cur.push(c));
        assert(cur.push(c) + tail =~= cur + s);
        if c == '\\' || c == '"' {
            assert(t[0] == '\\');
            assert(t[1] == c);
            assert(t.skip(2) =~= next);
        } else {
            assert(t[0] == c);
            assert(t.skip(1) =~= next);
        }
    }
}

/// Outside quotes, the reader takes a text without space, tab or double
/// quote as it is.
proof fn lemma_scan_plain(s: Seq<char>, rest: Seq<char>, in_word: bool, cur: Seq<char>)
    requires
        !needs_quoting(s),
    ensures
        scan(s + rest, in_word, false, cur) == scan(rest, in_word || s.len() > 0, false, cur + s),
    decreases s.len(),
{
    let t = s + rest;
    if s.len() == 0 {
        assert(t =~= rest);
        assert(cur + s =~= cur);
    } else {
        let c = s[0];
        let tail = s.skip(1);
        assert(!forces_quoting(c));
        assert(!needs_quoting(tail)) by {
            if needs_quoting(tail) {
                let i = choose|i: int| 0 <= i < tail.len() && forces_quoting(#[trigger] tail[i]);
                assert(forces_quoting(s[i + 1]));
            }
        }
        lemma_scan_plain(tail, rest, true, cur.push(c));
        assert(t[0] == c);
        assert(t.skip(1) =~= tail + rest);
        assert(cur.push(c) + tail =~= cur + s);
    }
}

/// At the start of a word, the reader takes an encoded argument as the
/// argument.
proof fn lemma_scan_escaped(s: Seq<char>, rest: Seq<char>)
    ensures
        scan(escaped(s) + rest, false, false, Seq::empty()) == scan(rest, true, false, s),
{
    let t = escaped(s) + rest;
    if s.len() == 0 || needs_quoting(s) {
        assert(t[0] == '"');
        assert(t.skip(1) =~= escaped_body(s) + seq!['"'] + rest);
        lemma_scan_quoted_body(s, rest, Seq::empty());
        assert(Seq::<char>::empty() + s =~= s);
    } else {
        lemma_scan_plain(s, rest, false, Seq::empty());
        assert(Seq::<char>::empty() + s =~= s);
    }
}

/// A joined line of two or more arguments starts with the first one
/// encoded and a space.
proof fn lemma_joined_front(args: Seq<Seq<char>>)
    requires
        args.len() >= 2,
    ensures
        joined(args) == escaped(args[0]) + seq![' '] + joined(args.skip(1)),
    decreases args.len(),
{
    let front = args.drop_last();
    assert(args.skip(1).last() == args.last());
    assert(args.skip(1).drop_last() =~= front.skip(1));
    if args.len() == 2 {
        assert(front[0] == args[0]);
        assert(args.skip(1)[0] == args.last());
        assert(joined(front) == escaped(args[0]));
        assert(joined(args.skip(1)) == escaped(args.last()));
    } else {
        lemma_joined_front(front);
        assert(front[0] == args[0]);
        assert(joined(args) =~= escaped(args[0]) + seq![' '] + joined(args.skip(1)));
    }
}

/// The reader gives every argument back from its encoding: one word, the
/// argument itself, whatever characters it holds.
pub proof fn lemma_words_of_escaped(s: Seq<char>)
    ensures
        words(escaped(s)) == Some(seq![s]),
{
    lemma_scan_escaped(s, Seq::empty());
    assert(escaped(s) + Seq::<char>::empty() =~= escaped(s));
}

/// The reader gives every argument list back from its joined encoding.
pub proof fn lemma_words_of_joined(args: Seq<Seq<char>>)
    ensures
        words(joined(args)) == Some(args),
    decreases args.len(),
{
    if args.len() == 0 {
        assert(args =~= Seq::<Seq<char>>::empty());
    } else if args.len() == 1 {
        lemma_words_of_escaped(args[0]);
        assert(args =~= seq![args[0]]);
    } else {
        let tail = args.skip(1);
        let rest = seq![' '] + joined(tail);
        lemma_joined_front(args);
        assert(joined(args) =~= escaped(args[0]) + rest);
        lemma_scan_escaped(args[0], rest);
        assert(rest[0] == ' ');
        assert(rest.skip(1) =~= joined(tail));
        lemma_words_of_joined(tail);
        assert(seq![args[0]] + tail =~= args);
    }
}

} // verus!
