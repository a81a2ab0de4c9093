//! A model of how a POSIX shell reads one word in argument position, and the
//! proof that quoting a byte string gives a word that reads back as it.

use vstd::prelude::*;
use crate::quoting::{SQ, DQ, escaped, escaped_byte, quoted, all_safe, is_safe_byte};

verus! {

/// The backslash byte.
pub const BACKSLASH: u8 = 92u8;

/// The newline byte.
pub const NEWLINE: u8 = 10u8;

/// The dollar byte, which starts an expansion.
pub const DOLLAR: u8 = 36u8;

/// The backquote byte, which starts a command substitution.
pub const BACKQUOTE: u8 = 96u8;

/// Where the shell stands while it reads a word.
pub enum QuoteState {
    Bare,
    Single,
    Double,
}

/// A byte that outside quotes ends the word, starts an operator, an expansion,
/// a pattern or a comment: blanks, newline, `| & ; < > ( ) $ \` * ? [ # ~`.
/// (`#` and `~` are special only at the start of a word; here they count as
/// special everywhere, which only makes the model stricter.)
pub open spec fn is_shell_special(b: u8) -> bool {
    // space, tab, newline
    ||| b == 32u8
    ||| b == 9u8
    ||| b == 10u8
    // | & ; < > ( )
    ||| b == 124u8
    ||| b == 38u8
    ||| b == 59u8
    ||| b == 60u8
    ||| b == 62u8
    ||| b == 40u8
    ||| b == 41u8
    // $ ` * ? [ # ~
    ||| b == 36u8
    ||| b == 96u8
    ||| b == 42u8
    ||| b == 63u8
    ||| b == 91u8
    ||| b == 35u8
    ||| b == 126u8
}

/// `p` in front of the text of `o`, if there is one.
pub open spec fn prepend(p: Seq<u8>, o: Option<Seq<u8>>) -> Option<Seq<u8>> {
    match o {
        Some(t) => Some(p + t),
        None => None,
    }
}

/// The text that quote removal leaves of `w` read from state `st`, or `None`
/// where `w` would be split, expanded or taken as an operator, or ends inside
/// quotes or after a lone backslash.
pub open spec fn read_word(w: Seq<u8>, st: QuoteState) -> Option<Seq<u8>>
    decreases w.len(),
{
    if w.len() == 0 {
        if st is Bare {
            Some(Seq::empty())
        } else {
            None
        }
    } else {
        let c = w[0];
        let rest = w.drop_first();
        match st {
            QuoteState::Bare => {
                if c == SQ {
                    read_word(rest, QuoteState::Single)
                } else if c == DQ {
                    read_word(rest, QuoteState::Double)
                } else if c == BACKSLASH {
                    if rest.len() == 0 {
                        None
                    } else if rest[0] == NEWLINE {
                        read_word(rest.drop_first(), QuoteState::Bare)
                    } else {
                        prepend(seq![rest[0]], read_word(rest.drop_first(), QuoteState::Bare))
                    }
                } else if is_shell_special(c) {
                    None
                } else {
                    prepend(seq![c], read_word(rest, QuoteState::Bare))
                }
            },
            QuoteState::Single => {
                if c == SQ {
                    read_word(rest, QuoteState::Bare)
                } else {
                    prepend(seq![c], read_word(rest, QuoteState::Single))
                }
            },
            QuoteState::Double => {
                if c == DQ {
                    read_word(rest, QuoteState::Bare)
                } else if c == DOLLAR || c == BACKQUOTE {
                    None
                } else if c == BACKSLASH {
                    if rest.len() == 0 {
                        None
                    } else if rest[0] == NEWLINE {
                        read_word(rest.drop_first(), QuoteState::Double)
                    } else if rest[0] == DOLLAR || rest[0] == BACKQUOTE || rest[0] == DQ
                        || rest[0] == BACKSLASH {
                        prepend(seq![rest[0]], read_word(rest.drop_first(), QuoteState::Double))
                    } else {
                        prepend(seq![c], read_word(rest, QuoteState::Double))
                    }
                } else {
                    prepend(seq![c], read_word(rest, QuoteState::Double))
                }
            },
        }
    }
}

/// The single field that a POSIX shell makes of the word `w` in argument
/// position, or `None` where it would not make exactly that one literal field.
pub open spec fn shell_word(w: Seq<u8>) -> Option<Seq<u8>> {
    if w.len() == 0 {
        None
    } else {
        read_word(w, QuoteState::Bare)
    }
}

proof fn lemma_prepend_prepend(a: Seq<u8>, b: Seq<u8>, o: Option<Seq<u8>>)
    ensures
        prepend(a, prepend(b, o)) == prepend(a + b, o),
{
    if let Some(t) = o {
        assert(a + (b + t) =~= (a + b) + t);
    }
}

/// Inside single quotes, the escaped body of `s` reads back as `s`.
proof fn lemma_read_escaped(s: Seq<u8>, r: Seq<u8>)
    ensures
        read_word(escaped(s) + r, QuoteState::Single) == prepend(
            s,
            read_word(r, QuoteState::Single),
        ),
    decreases s.len(),
{
    if s.len() == 0 {
        assert(escaped(s) + r =~= r);
        if let Some(t) = read_word(r, QuoteState::Single) {
            assert(s + t =~= t);
        }
    } else {
        let c = s[0];
        let tail = escaped(s.drop_first()) + r;
        lemma_read_escaped(s.drop_first(), r);
        assert(escaped(s) + r =~= escaped_byte(c) + tail);
        if c == SQ {
            let w0 = escaped_byte(c) + tail;
            let w1 = seq![DQ, SQ, DQ, SQ] + tail;
            let w2 = seq![SQ, DQ, SQ] + tail;
            let w3 = seq![DQ, SQ] + tail;
            let w4 = seq![SQ] + tail;
            assert(w0[0] == SQ && w0.drop_first() =~= w1);
            assert(w1[0] == DQ && w1.drop_first() =~= w2);
            assert(w2[0] == SQ && w2.drop_first() =~= w3);
            assert(w3[0] == DQ && w3.drop_first() =~= w4);
            assert(w4[0] == SQ && w4.drop_first() =~= tail);
            let tr = read_word(tail, QuoteState::Single);
            assert(read_word(w4, QuoteState::Bare) == tr);
            assert(read_word(w3, QuoteState::Double) == tr);
            assert(read_word(w2, QuoteState::Double) == prepend(seq![SQ], tr));
            assert(read_word(w1, QuoteState::Bare) == prepend(seq![SQ], tr));
            assert(read_word(w0, QuoteState::Single) == prepend(seq![SQ], tr));
        } else {
            let w0 = seq![c] + tail;
            assert(escaped_byte(c) == seq![c]);
            assert(w0[0] == c && w0.drop_first() =~= tail);
        }
        lemma_prepend_prepend(seq![c], s.drop_first(), read_word(r, QuoteState::Single));
        assert(seq![c] + s.drop_first() =~= s);
    }
}

/// A byte string of safe bytes reads back as itself outside quotes.
proof fn lemma_read_safe(s: Seq<u8>)
    requires
        all_safe(s),
    ensures
        read_word(s, QuoteState::Bare) == Some(s),
    decreases s.len(),
{
    if s.len() > 0 {
        assert(is_safe_byte(s[0]));
        assert(all_safe(s.drop_first())) by {
            assert forall|i: int| 0 <= i < s.drop_first().len() implies is_safe_byte(
                #[trigger] s.drop_first()[i],
            ) by {
                assert(s.drop_first()[i] == s[i + 1]);
            }
        }
        lemma_read_safe(s.drop_first());
        assert(seq![s[0]] + s.drop_first() =~= s);
    }
}

/// Quoting is undone by the shell: for every byte string `s`, a POSIX shell
/// reads the token `quoted(s)` as the single field `s`.
pub proof fn quote_round_trip(s: Seq<u8>)
    ensures
        shell_word(quoted(s)) == Some(s),
{
    if s.len() == 0 {
        let w = quoted(s);
        assert(w[0] == SQ && w.drop_first() =~= seq![SQ]);
        assert(seq![SQ][0] == SQ && seq![SQ].drop_first() =~= Seq::<u8>::empty());
        assert(read_word(Seq::<u8>::empty(), QuoteState::Bare) == Some(Seq::<u8>::empty()));
        assert(read_word(seq![SQ], QuoteState::Single) == Some(Seq::<u8>::empty()));
        assert(read_word(w, QuoteState::Bare) == Some(Seq::<u8>::empty()));
        assert(s =~= Seq::<u8>::empty());
    } else if all_safe(s) {
        lemma_read_safe(s);
    } else {
        let w = quoted(s);
        let body = escaped(s) + seq![SQ];
        assert(w[0] == SQ && w.drop_first() =~= body);
        lemma_read_escaped(s, seq![SQ]);
        assert(seq![SQ][0] == SQ && seq![SQ].drop_first() =~= Seq::<u8>::empty());
        assert(read_word(Seq::<u8>::empty(), QuoteState::Bare) == Some(Seq::<u8>::empty()));
        assert(read_word(seq![SQ], QuoteState::Single) == Some(Seq::<u8>::empty()));
        assert(s + Seq::<u8>::empty() =~= s);
        assert(read_word(w, QuoteState::Bare) == read_word(body, QuoteState::Single));
    }
}

} // verus!
