//! The line source: a byte stream is consumed as newline-delimited records.
//! Each record keeps its own terminator; the final record of a stream that
//! lacks one is still a record, without it. Splitting loses and invents
//! nothing: concatenating the records yields the original bytes exactly.
use vstd::prelude::*;

verus! {

/// The record terminator.
pub const LINE_TERMINATOR: u8 = 10;

/// The views of a sequence of byte vectors.
pub open spec fn byte_views(s: Seq<Vec<u8>>) -> Seq<Seq<u8>> {
    s.map_values(|v: Vec<u8>| v@)
}

/// The records of a byte stream: split after every terminator, terminators
/// kept, a trailing unterminated record kept as well, and no empty trailing
/// record invented when the stream ends at a terminator.
pub open spec fn spec_lines(s: Seq<u8>) -> Seq<Seq<u8>>
    decreases s.len(),
{
    if s.len() == 0 {
        Seq::empty()
    } else if s[0] == LINE_TERMINATOR {
        seq![seq![LINE_TERMINATOR]] + spec_lines(s.drop_first())
    } else {
        let rest = spec_lines(s.drop_first());
        if rest.len() == 0 {
            seq![s]
        } else {
            seq![seq![s[0]] + rest[0]] + rest.drop_first()
        }
    }
}

/// Splitting a stream into records preserves every byte in order:
/// concatenating the records gives back exactly the original stream.
pub proof fn lemma_lines_flatten(s: Seq<u8>)
    ensures
        spec_lines(s).flatten() =~= s,
    decreases s.len(),
{
    if s.len() == 0 {
    } else if s[0] == LINE_TERMINATOR {
        lemma_lines_flatten(s.drop_first());
        let parts = seq![seq![LINE_TERMINATOR]] + spec_lines(s.drop_first());
        assert(parts.drop_first() =~= spec_lines(s.drop_first()));
        assert(parts.first() =~= seq![LINE_TERMINATOR]);
        assert(parts.flatten() == parts.first() + parts.drop_first().flatten());
        assert(seq![LINE_TERMINATOR] + s.drop_first() =~= s);
    } else {
        lemma_lines_flatten(s.drop_first());
        let rest = spec_lines(s.drop_first());
        if rest.len() == 0 {
            assert(spec_lines(s) =~= seq![s]);
            assert(seq![s].drop_first() =~= Seq::<Seq<u8>>::empty());
            assert(seq![s].flatten() == seq![s].first() + seq![s].drop_first().flatten());
            assert(Seq::<Seq<u8>>::empty().flatten() =~= Seq::<u8>::empty());
            assert(s + Seq::<u8>::empty() =~= s);
        } else {
            let parts = seq![seq![s[0]] + rest[0]] + rest.drop_first();
            assert(parts.drop_first() =~= rest.drop_first());
            assert(parts.first() =~= seq![s[0]] + rest[0]);
            assert(parts.flatten() == parts.first() + parts.drop_first().flatten());
            assert(rest.flatten() == rest.first() + rest.drop_first().flatten());
            assert(rest.first() == rest[0]);
            assert((seq![s[0]] + rest[0]) + rest.drop_first().flatten() =~= seq![s[0]] + (rest[0]
                + rest.drop_first().flatten()));
            assert(seq![s[0]] + s.drop_first() =~= s);
        }
    }
}

/// If the first terminator of `s` stands at index `k`, the records of `s`
/// are the prefix through that terminator followed by the records of what
/// comes after it.
pub proof fn lemma_lines_step(s: Seq<u8>, k: int)
    requires
        0 <= k < s.len(),
        forall|j: int| 0 <= j < k ==> s[j] != LINE_TERMINATOR,
        s[k] == LINE_TERMINATOR,
    ensures
        spec_lines(s) =~= seq![s.subrange(0, k + 1)] + spec_lines(s.skip(k + 1)),
    decreases k,
{
    if k == 0 {
        assert(s.subrange(0, 1) =~= seq![LINE_TERMINATOR]);
        assert(s.drop_first() =~= s.skip(1));
    } else {
        let d = s.drop_first();
        lemma_lines_step(d, k - 1);
        let rest = spec_lines(d);
        assert(rest =~= seq![d.subrange(0, k)] + spec_lines(d.skip(k)));
        assert(rest.len() > 0);
        assert(spec_lines(s) =~= seq![seq![s[0]] + rest[0]] + rest.drop_first());
        assert(seq![s[0]] + rest[0] =~= s.subrange(0, k + 1));
        assert(rest.drop_first() =~= spec_lines(d.skip(k)));
        assert(d.skip(k) =~= s.skip(k + 1));
    }
}

/// A stream with no terminator at all is one record (or none, if empty).
pub proof fn lemma_lines_tail(s: Seq<u8>)
    requires
        forall|j: int| 0 <= j < s.len() ==> s[j] != LINE_TERMINATOR,
    ensures
        s.len() == 0 ==> spec_lines(s) =~= Seq::<Seq<u8>>::empty(),
        s.len() > 0 ==> spec_lines(s) =~= seq![s],
    decreases s.len(),
{
    if s.len() > 0 {
        let d = s.drop_first();
        lemma_lines_tail(d);
        if d.len() > 0 {
            assert(spec_lines(d) =~= seq![d]);
            assert(seq![s[0]] + d =~= s);
            assert((seq![d]).drop_first() =~= Seq::<Seq<u8>>::empty());
            assert(spec_lines(s) =~= seq![seq![s[0]] + d] + Seq::<Seq<u8>>::empty());
        }
    }
}

/// A copy of the bytes of `v` from `a` (inclusive) to `b` (exclusive).
fn copy_range(v: &Vec<u8>, a: usize, b: usize) -> (r: Vec<u8>)
    requires
        a <= b <= v@.len(),
    ensures
        r@ == v@.subrange(a as int, b as int),
{
    let mut r: Vec<u8> = Vec::new();
    let mut j: usize = a;
    while j < b
        invariant
            a <= j <= b <= v@.len(),
            r@ == v@.subrange(a as int, j as int),
        decreases b - j,
    {
        r.push(v[j]);
        proof {
            assert(r@ =~= v@.subrange(a as int, j + 1));
        }
        j = j + 1;
    }
    r
}

/// Split a whole byte stream into its records: exactly `spec_lines` of it.
pub fn split_into_lines(input: &Vec<u8>) -> (lines: Vec<Vec<u8>>)
    ensures
        byte_views(lines@) == spec_lines(input@),
        lines@.len() == spec_lines(input@).len(),
        forall|k: int| 0 <= k < lines@.len() ==> #[trigger] lines@[k]@ == spec_lines(input@)[k],
{
    let n: usize = input.len();
    let mut lines: Vec<Vec<u8>> = Vec::new();
    let mut start: usize = 0;
    let mut i: usize = 0;
    proof {
        assert(input@.skip(0) =~= input@);
        assert(byte_views(lines@) =~= Seq::<Seq<u8>>::empty());
        assert(byte_views(lines@) + spec_lines(input@) =~= spec_lines(input@));
    }
    while i < n
        invariant
            start <= i <= n,
            n == input@.len(),
            forall|j: int| start <= j < i ==> input@[j] != LINE_TERMINATOR,
            spec_lines(input@) =~= byte_views(lines@) + spec_lines(input@.skip(start as int)),
        decreases n - i,
    {
        if input[i] == LINE_TERMINATOR {
            let piece = copy_range(input, start, i + 1);
            proof {
                lemma_lines_step(input@.skip(start as int), i - start);
                assert(input@.skip(start as int).subrange(0, i - start + 1) =~= input@.subrange(
                    start as int,
                    i + 1,
                ));
                assert(input@.skip(start as int).skip(i - start + 1) =~= input@.skip(i + 1));
                assert(byte_views(lines@.push(piece)) =~= byte_views(lines@).push(piece@));
            }
            lines.push(piece);
            start = i + 1;
        }
        i = i + 1;
    }
    if start < n {
        let piece = copy_range(input, start, n);
        proof {
            lemma_lines_tail(input@.skip(start as int));
            assert(input@.skip(start as int) =~= input@.subrange(start as int, n as int));
            assert(byte_views(lines@.push(piece)) =~= byte_views(lines@).push(piece@));
        }
        lines.push(piece);
    } else {
        proof {
            lemma_lines_tail(input@.skip(start as int));
        }
    }
    proof {
        assert(byte_views(lines@) =~= spec_lines(input@));
    }
    lines
}

} // verus!
