//! POSIX `sh` quoting of arbitrary byte strings.

use vstd::prelude::*;

verus! {

/// The single quote byte.
pub const SQ: u8 = 39u8;

/// The double quote byte.
pub const DQ: u8 = 34u8;

/// A byte that a POSIX shell reads literally outside quotes: an ASCII letter,
/// an ASCII digit, or one of `@ % + = : , . / -`.
pub open spec fn is_safe_byte(b: u8) -> bool {
    // a-z, A-Z, 0-9, then @ % + = : , . / -
    ||| (97u8 <= b && b <= 122u8)
    ||| (65u8 <= b && b <= 90u8)
    ||| (48u8 <= b && b <= 57u8)
    ||| b == 64u8
    ||| b == 37u8
    ||| b == 43u8
    ||| b == 61u8
    ||| b == 58u8
    ||| b == 44u8
    ||| b == 46u8
    ||| b == 47u8
    ||| b == 45u8
}

/// Every byte of `s` is safe.
pub open spec fn all_safe(s: Seq<u8>) -> bool {
    forall|i: int| 0 <= i < s.len() ==> is_safe_byte(#[trigger] s[i])
}

/// What a byte becomes between single quotes: itself, or for a single quote
/// the sequence `'"'"'` (close the quote, a double-quoted quote, reopen).
pub open spec fn escaped_byte(b: u8) -> Seq<u8> {
    if b == SQ {
        seq![SQ, DQ, SQ, DQ, SQ]
    } else {
        seq![b]
    }
}

/// The body of a single-quoted token for `s`.
pub open spec fn escaped(s: Seq<u8>) -> Seq<u8>
    decreases s.len(),
{
    if s.len() == 0 {
        Seq::empty()
    } else {
        escaped_byte(s[0]) + escaped(s.drop_first())
    }
}

/// The shell token for `s`: `''` when empty, `s` itself when every byte is
/// safe, else `s` in single quotes with each embedded single quote escaped.
pub open spec fn quoted(s: Seq<u8>) -> Seq<u8> {
    if s.len() == 0 {
        seq![SQ, SQ]
    } else if all_safe(s) {
        s
    } else {
        seq![SQ] + escaped(s) + seq![SQ]
    }
}

proof fn lemma_escaped_append(a: Seq<u8>, b: Seq<u8>)
    ensures
        escaped(a + b) == escaped(a) + escaped(b),
    decreases a.len(),
{
    if a.len() == 0 {
        assert(a + b =~= b);
        assert(escaped(a) + escaped(b) =~= escaped(b));
    } else {
        lemma_escaped_append(a.drop_first(), b);
        assert((a + b).drop_first() =~= a.drop_first() + b);
        assert(escaped(a + b) =~= escaped(a) + escaped(b));
    }
}

proof fn lemma_escaped_push(s: Seq<u8>, b: u8)
    ensures
        escaped(s.push(b)) == escaped(s) + escaped_byte(b),
{
    lemma_escaped_append(s, seq![b]);
    assert(s.push(b) =~= s + seq![b]);
    assert(seq![b].drop_first() =~= Seq::<u8>::empty());
    assert(escaped(Seq::<u8>::empty()) == Seq::<u8>::empty());
    assert(seq![b][0] == b);
    assert(escaped(seq![b]) =~= escaped_byte(b) + Seq::<u8>::empty());
}

/// Whether `b` may stand unquoted in a shell token.
pub fn is_safe(b: u8) -> (r: bool)
    ensures
        r == is_safe_byte(b),
{
    (97u8 <= b && b <= 122u8) || (65u8 <= b && b <= 90u8) || (48u8 <= b && b <= 57u8) || b == 64u8
        || b == 37u8 || b == 43u8 || b == 61u8 || b == 58u8 || b == 44u8 || b == 46u8 || b == 47u8
        || b == 45u8
}

/// Appends to `out` the shell token for the bytes `s`.
pub fn write_quoted(out: &mut Vec<u8>, s: &[u8])
    ensures
        final(out)@ == old(out)@ + quoted(s@),
{
    let n = s.len();
    if n == 0 {
        out.push(SQ);
        out.push(SQ);
        assert(final(out)@ =~= old(out)@ + quoted(s@));
        return;
    }
    let mut safe = true;
    let mut i: usize = 0;
    while i < n
        invariant
            n == s@.len(),
            i <= n,
            safe == (forall|j: int| 0 <= j < i ==> is_safe_byte(#[trigger] s@[j])),
        decreases n - i,
    {
        if !is_safe(s[i]) {
            safe = false;
        }
        i += 1;
    }
    if safe {
        let mut k: usize = 0;
        while k < n
            invariant
                n == s@.len(),
                k <= n,
                out@ == old(out)@ + s@.take(k as int),
            decreases n - k,
        {
            out.push(s[k]);
            assert(s@.take(k as int + 1) =~= s@.take(k as int).push(s@[k as int]));
            k += 1;
        }
        assert(s@.take(n as int) =~= s@);
    } else {
        out.push(SQ);
        let mut k: usize = 0;
        while k < n
            invariant
                n == s@.len(),
                k <= n,
                out@ == old(out)@ + seq![SQ] + escaped(s@.take(k as int)),
            decreases n - k,
        {
            let b = s[k];
            proof {
                assert(s@.take(k as int + 1) =~= s@.take(k as int).push(b));
                lemma_escaped_push(s@.take(k as int), b);
            }
            if b == SQ {
                out.push(SQ);
                out.push(DQ);
                out.push(SQ);
                out.push(DQ);
                out.push(SQ);
            } else {
                out.push(b);
            }
            assert(out@ =~= old(out)@ + seq![SQ] + escaped(s@.take(k as int + 1)));
            k += 1;
        }
        out.push(SQ);
        assert(s@.take(n as int) =~= s@);
        assert(final(out)@ =~= old(out)@ + quoted(s@));
    }
}

/// The shell token for the bytes `s`.
pub fn quote(s: &[u8]) -> (r: Vec<u8>)
    ensures
        r@ == quoted(s@),
{
    let mut out: Vec<u8> = Vec::new();
    write_quoted(&mut out, s);
    assert(out@ =~= quoted(s@));
    out
}

/// The space byte.
pub const SPACE: u8 = 32u8;

/// The newline byte.
pub const LF: u8 = 10u8;

/// `[CMD] `, which opens a trace line.
pub open spec fn cmd_tag() -> Seq<u8> {
    seq![91u8, 67u8, 77u8, 68u8, 93u8, SPACE]
}

/// Each argument as a space and its shell token, in order.
pub open spec fn quoted_args(args: Seq<Vec<u8>>) -> Seq<u8>
    decreases args.len(),
{
    if args.len() == 0 {
        Seq::empty()
    } else {
        quoted_args(args.drop_last()) + seq![SPACE] + quoted(args.last()@)
    }
}

/// The line printed before running `program` with `args`: `[CMD] `, the
/// program's token, a space and a token for each argument, and a newline.
pub open spec fn trace_line_of(program: Seq<u8>, args: Seq<Vec<u8>>) -> Seq<u8> {
    cmd_tag() + quoted(program) + quoted_args(args) + seq![LF]
}

/// The trace line for running `program` with `args`.
pub fn trace_line(program: &[u8], args: &[Vec<u8>]) -> (r: Vec<u8>)
    ensures
        r@ == trace_line_of(program@, args@),
{
    let mut out: Vec<u8> = Vec::new();
    out.push(91u8);
    out.push(67u8);
    out.push(77u8);
    out.push(68u8);
    out.push(93u8);
    out.push(SPACE);
    assert(out@ =~= cmd_tag());
    write_quoted(&mut out, program);
    let n = args.len();
    let mut i: usize = 0;
    while i < n
        invariant
            n == args@.len(),
            i <= n,
            out@ == cmd_tag() + quoted(program@) + quoted_args(args@.take(i as int)),
        decreases n - i,
    {
        out.push(SPACE);
        write_quoted(&mut out, args[i].as_slice());
        proof {
            let next = args@.take(i as int + 1);
            assert(next.drop_last() =~= args@.take(i as int));
            assert(next.last() == args@[i as int]);
        }
        assert(out@ =~= cmd_tag() + quoted(program@) + quoted_args(args@.take(i as int + 1)));
        i += 1;
    }
    out.push(LF);
    assert(args@.take(n as int) =~= args@);
    assert(out@ =~= trace_line_of(program@, args@));
    out
}

} // verus!
