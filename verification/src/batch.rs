//! Batcher: groups a row sequence into ordered, fixed-capacity chunks.
//! The final chunk may be shorter; no chunk is ever empty, and
//! concatenating the chunks in emission order reproduces the input.

use vstd::prelude::*;

verus! {

/// Mathematical model of fixed-size batching: `s` split into consecutive
/// groups of length `c`, the last group possibly shorter, no empty group.
pub open spec fn spec_chunks<A>(s: Seq<A>, c: int) -> Seq<Seq<A>>
    recommends
        c >= 1,
    decreases s.len(),
{
    if s.len() == 0 || c < 1 {
        Seq::empty()
    } else if s.len() <= c {
        seq![s]
    } else {
        seq![s.take(c)] + spec_chunks(s.skip(c), c)
    }
}

/// The sequences a vector of vectors abstracts to, element by element.
pub open spec fn seqs_of<T>(r: Seq<Vec<T>>) -> Seq<Seq<T>> {
    r.map_values(|v: Vec<T>| v@)
}

/// Groups `rows` into chunks of `c`, in order; the last chunk holds the
/// remainder. Emits no empty chunk.
pub fn chunk_rows<T>(rows: Vec<T>, c: usize) -> (r: Vec<Vec<T>>)
    requires
        c >= 1,
    ensures
        seqs_of(r@) == spec_chunks(rows@, c as int),
{
    let ghost orig = rows@;
    let mut rows = rows;
    let mut out: Vec<Vec<T>> = Vec::new();
    while rows.len() > 0
        invariant
            c >= 1,
            seqs_of(out@) + spec_chunks(rows@, c as int) == spec_chunks(orig, c as int),
        decreases rows@.len(),
    {
        let ghost head = rows@;
        let take: usize = if c <= rows.len() { c } else { rows.len() };
        let mut cur: Vec<T> = Vec::new();
        let mut j: usize = 0;
        while j < take
            invariant
                j <= take,
                take <= head.len(),
                cur@ == head.take(j as int),
                rows@ == head.skip(j as int),
            decreases take - j,
        {
            let x = rows.remove(0);
            cur.push(x);
            j += 1;
            proof {
                assert(cur@ =~= head.take(j as int));
                assert(rows@ =~= head.skip(j as int));
            }
        }
        proof {
            if head.len() <= c {
                assert(head.take(take as int) =~= head);
                assert(head.skip(take as int) =~= Seq::<T>::empty());
                assert(spec_chunks(head, c as int) =~= seq![head.take(take as int)] + spec_chunks(
                    head.skip(take as int),
                    c as int,
                ));
            }
            assert(seqs_of(out@.push(cur)) =~= seqs_of(out@).push(cur@));
            assert(seqs_of(out@).push(head.take(take as int)) + spec_chunks(
                head.skip(take as int),
                c as int,
            ) =~= (seqs_of(out@) + spec_chunks(head, c as int)));
        }
        out.push(cur);
    }
    proof {
        assert(spec_chunks(rows@, c as int) =~= Seq::<Seq<T>>::empty());
        assert(seqs_of(out@) + Seq::<Seq<T>>::empty() =~= seqs_of(out@));
    }
    out
}

/// Concatenating the chunks in emission order reproduces the input
/// sequence exactly.
pub proof fn lemma_chunks_concat<A>(s: Seq<A>, c: int)
    requires
        c >= 1,
    ensures
        spec_chunks(s, c).flatten() == s,
    decreases s.len(),
{
    if s.len() == 0 {
        assert(spec_chunks(s, c).flatten() =~= s);
    } else if s.len() <= c {
        assert(spec_chunks(s, c) =~= seq![s]);
        seq![s].lemma_flatten_singleton();
        assert(spec_chunks(s, c).flatten() =~= s);
    } else {
        lemma_chunks_concat(s.skip(c), c);
        let w = seq![s.take(c)] + spec_chunks(s.skip(c), c);
        assert(w.drop_first() =~= spec_chunks(s.skip(c), c));
        assert(w.first() == s.take(c));
        assert(w.flatten() == s.take(c) + spec_chunks(s.skip(c), c).flatten());
        assert(s.take(c) + s.skip(c) =~= s);
    }
}

/// Every chunk but the last has exactly the configured length; the last
/// has `s.len() % c`, or `c` when the total divides evenly; none is empty.
pub proof fn lemma_chunks_shape<A>(s: Seq<A>, c: int, i: int)
    requires
        c >= 1,
        0 <= i < spec_chunks(s, c).len(),
    ensures
        i < spec_chunks(s, c).len() - 1 ==> spec_chunks(s, c)[i].len() == c,
        i == spec_chunks(s, c).len() - 1 ==> spec_chunks(s, c)[i].len() == (if (s.len() as int) % c == 0 {
            c as int
        } else {
            (s.len() as int) % c
        }),
        1 <= spec_chunks(s, c)[i].len() <= c,
    decreases s.len(),
{
    if s.len() <= c {
        assert(spec_chunks(s, c) =~= seq![s]);
        assert(s.len() > 0);
        if s.len() < c {
            assert((s.len() as int) % c == s.len()) by (nonlinear_arith)
                requires 0 < s.len() < c;
        } else {
            assert((s.len() as int) % c == 0) by (nonlinear_arith)
                requires s.len() == c >= 1;
        }
    } else {
        assert(s.skip(c).len() == s.len() - c);
        if i == 0 {
            assert(spec_chunks(s, c)[0] == s.take(c));
            assert(spec_chunks(s.skip(c), c).len() > 0);
        } else {
            lemma_chunks_shape(s.skip(c), c, i - 1);
            assert(spec_chunks(s, c)[i] == spec_chunks(s.skip(c), c)[i - 1]);
            assert((s.len() - c) % c == (s.len() as int) % c) by (nonlinear_arith)
                requires c >= 1, s.len() > c;
        }
    }
}

/// How many chunks batching emits: the row count divided by the capacity,
/// rounded up.
pub proof fn lemma_chunks_count<A>(s: Seq<A>, c: int)
    requires
        c >= 1,
    ensures
        spec_chunks(s, c).len() == (s.len() + c - 1) as int / c,
    decreases s.len(),
{
    if s.len() == 0 {
        assert(((0 + c - 1) as int) / c == 0) by (nonlinear_arith)
            requires c >= 1;
    } else if s.len() <= c {
        assert((s.len() + c - 1) as int / c == 1) by (nonlinear_arith)
            requires 1 <= s.len() <= c;
    } else {
        lemma_chunks_count(s.skip(c), c);
        assert(s.skip(c).len() == s.len() - c);
        assert((s.len() - c + c - 1) as int / c + 1 == (s.len() + c - 1) as int / c) by (nonlinear_arith)
            requires c >= 1, s.len() > c;
    }
}

} // verus!
