//! The chunker: groups a flat sequence of documents into batches of a fixed
//! size for the embedding calls. Every chunk holds exactly `chunk_size`
//! documents except possibly the last, and document order is preserved.

use vstd::prelude::*;

verus! {

/// The chunks of `s` of size `k`: successive runs of `k` elements, the last
/// run holding whatever remains. Empty when `s` is empty or `k` is zero.
pub open spec fn spec_chunks<A>(s: Seq<A>, k: nat) -> Seq<Seq<A>>
    decreases s.len(),
{
    if k == 0 || s.len() == 0 {
        Seq::empty()
    } else if s.len() <= k {
        seq![s]
    } else {
        seq![s.take(k as int)] + spec_chunks(s.skip(k as int), k)
    }
}

/// Chunking is correct: there are exactly `ceil(len / k)` chunks, every chunk
/// but the last holds exactly `k` elements, the last holds the remainder, and
/// concatenating the chunks in order reproduces the sequence.
pub proof fn lemma_chunks_correct<A>(s: Seq<A>, k: nat)
    requires
        k >= 1,
    ensures
        spec_chunks(s, k).len() == (s.len() + k - 1) as int / k as int,
        forall|i: int|
            0 <= i < spec_chunks(s, k).len() - 1 ==> (#[trigger] spec_chunks(s, k)[i]).len()
                == k,
        spec_chunks(s, k).len() > 0 ==> spec_chunks(s, k).last().len() == s.len() - k * (
        spec_chunks(s, k).len() - 1),
        spec_chunks(s, k).flatten() == s,
    decreases s.len(),
{
    let c = spec_chunks(s, k);
    if s.len() == 0 {
        vstd::arithmetic::div_mod::lemma_fundamental_div_mod_converse_div(
            k as int - 1,
            k as int,
            0,
            k as int - 1,
        );
        assert(c.flatten() =~= s);
    } else if s.len() <= k {
        vstd::arithmetic::div_mod::lemma_fundamental_div_mod_converse_div(
            (s.len() + k - 1) as int,
            k as int,
            1,
            s.len() as int - 1,
        );
        assert(c.len() == 1);
        assert(c.last() == s);
        assert(c.drop_first() =~= Seq::<Seq<A>>::empty());
        assert(c.flatten() == s + Seq::<Seq<A>>::empty().flatten());
        assert(c.flatten() =~= s);
    } else {
        let rest = spec_chunks(s.skip(k as int), k);
        lemma_chunks_correct(s.skip(k as int), k);
        assert(c.drop_first() =~= rest);
        assert(c[0] == s.take(k as int));

        // chunk count: (len + k - 1) / k == 1 + ((len - k) + k - 1) / k
        vstd::arithmetic::div_mod::lemma_div_plus_one((s.len() - 1) as int, k as int);
        assert(c.len() == 1 + rest.len());

        // every chunk of the tail keeps its size; the head chunk has size k
        assert(forall|i: int|
            1 <= i < c.len() ==> #[trigger] c[i] == rest[i - 1]);

        // the last chunk: c.last() == rest.last(), and the counts line up
        assert(c.last() == rest.last());
        assert(s.skip(k as int).len() == s.len() - k);
        assert(c.last().len() == s.len() - k * (c.len() - 1)) by {
            let n = rest.len() as int;
            assert(rest.last().len() == s.skip(k as int).len() - k * (n - 1));
            assert(c.len() - 1 == n);
            assert(k as int * n == k as int * (n - 1) + k as int) by (nonlinear_arith);
        }

        // concatenation: take(k) + skip(k) == s
        assert(c.flatten() == s.take(k as int) + rest.flatten());
        assert(c.flatten() =~= s);
    }
}

/// A prefix of the chunks never holds more documents than all chunks do.
pub proof fn lemma_flatten_take_len<A>(ss: Seq<Seq<A>>, i: int)
    requires
        0 <= i <= ss.len(),
    ensures
        ss.take(i).flatten().len() <= ss.flatten().len(),
    decreases ss.len() - i,
{
    if i == ss.len() {
        assert(ss.take(i) =~= ss);
    } else {
        assert(ss.take(i + 1) =~= ss.take(i).push(ss[i]));
        ss.take(i).lemma_flatten_push(ss[i]);
        lemma_flatten_take_len(ss, i + 1);
    }
}

/// Groups the documents into chunks of `chunk_size`, preserving order: the
/// result is exactly `spec_chunks` of the input.
pub fn chunk_documents(docs: &Vec<String>, chunk_size: usize) -> (chunks: Vec<Vec<String>>)
    requires
        chunk_size >= 1,
    ensures
        chunks@.map_values(|c: Vec<String>| c@) == spec_chunks(docs@, chunk_size as nat),
        chunks.len() == (docs.len() + chunk_size - 1) as int / chunk_size as int,
        chunks@.map_values(|c: Vec<String>| c@).flatten() == docs@,
{
    proof {
        lemma_chunks_correct(docs@, chunk_size as nat);
    }
    let mut chunks: Vec<Vec<String>> = Vec::new();
    let mut idx: usize = 0;
    proof {
        assert(docs@.skip(0) =~= docs@);
    }
    while idx < docs.len()
        invariant
            chunk_size >= 1,
            idx <= docs.len(),
            chunks@.map_values(|c: Vec<String>| c@) + spec_chunks(
                docs@.skip(idx as int),
                chunk_size as nat,
            ) =~= spec_chunks(docs@, chunk_size as nat),
        decreases docs.len() - idx,
    {
        let end: usize = if docs.len() - idx > chunk_size {
            idx + chunk_size
        } else {
            docs.len()
        };
        let mut chunk: Vec<String> = Vec::new();
        let mut i: usize = idx;
        while i < end
            invariant
                idx <= i <= end <= docs.len(),
                chunk@ =~= docs@.subrange(idx as int, i as int),
            decreases end - i,
        {
            chunk.push(docs[i].clone());
            proof {
                assert(chunk@ =~= docs@.subrange(idx as int, i + 1 as int));
            }
            i = i + 1;
        }
        let ghost pre = chunks@;
        chunks.push(chunk);
        proof {
            let rest = docs@.skip(idx as int);
            assert(chunk@ =~= rest.take(end - idx as int));
            if rest.len() <= chunk_size {
                assert(end == docs.len());
                assert(chunk@ =~= rest);
                assert(spec_chunks(rest, chunk_size as nat) == seq![rest]);
                assert(docs@.skip(end as int).len() == 0);
            } else {
                assert(end == idx + chunk_size);
                assert(rest.skip(chunk_size as int) =~= docs@.skip(end as int));
                assert(spec_chunks(rest, chunk_size as nat) == seq![rest.take(chunk_size as int)]
                    + spec_chunks(docs@.skip(end as int), chunk_size as nat));
            }
            assert(chunks@.map_values(|c: Vec<String>| c@) =~= pre.map_values(
                |c: Vec<String>| c@,
            ).push(chunk@));
            assert(chunks@.map_values(|c: Vec<String>| c@) + spec_chunks(
                docs@.skip(end as int),
                chunk_size as nat,
            ) =~= spec_chunks(docs@, chunk_size as nat));
        }
        idx = end;
    }
    proof {
        assert(docs@.skip(idx as int).len() == 0);
        assert(chunks@.map_values(|c: Vec<String>| c@) =~= spec_chunks(
            docs@,
            chunk_size as nat,
        ));
    }
    chunks
}

} // verus!
