//! The accumulation buffer of the capture path: samples go in as the device
//! delivers them and come out, oldest first, in chunks of a fixed length.

use vstd::prelude::*;

verus! {

/// The `k`-th run of `n` elements of `s`.
pub open spec fn chunk_at<T>(s: Seq<T>, n: nat, k: int) -> Seq<T> {
    s.subrange(k * n, k * n + n)
}

/// What remains of `s` after as many runs of `n` elements as it holds are
/// taken from its front.
pub open spec fn leftover<T>(s: Seq<T>, n: nat) -> Seq<T> {
    s.skip(((s.len() / n) * n) as int)
}

/// A queue of samples that is emptied in chunks of `chunk_len` samples.
pub struct ChunkBuffer<T> {
    samples: Vec<T>,
    chunk_len: usize,
}

impl<T> View for ChunkBuffer<T> {
    type V = Seq<T>;

    /// The samples waiting in the buffer, oldest first.
    closed spec fn view(&self) -> Seq<T> {
        self.samples@
    }
}

impl<T> ChunkBuffer<T> {
    /// The number of samples in one chunk.
    pub closed spec fn spec_chunk_len(&self) -> nat {
        self.chunk_len as nat
    }

    /// An empty buffer for chunks of `chunk_len` samples. A chunk holds at
    /// least one sample.
    pub fn new(chunk_len: usize) -> (buffer: ChunkBuffer<T>)
        requires
            chunk_len > 0,
        ensures
            buffer@ == Seq::<T>::empty(),
            buffer.spec_chunk_len() == chunk_len,
    {
        ChunkBuffer { samples: Vec::new(), chunk_len }
    }

    pub fn chunk_len(&self) -> (n: usize)
        ensures
            n == self.spec_chunk_len(),
    {
        self.chunk_len
    }

    /// The number of samples waiting.
    pub fn len(&self) -> (n: usize)
        ensures
            n == self@.len(),
    {
        self.samples.len()
    }

    /// Appends one sample.
    pub fn push(&mut self, sample: T)
        ensures
            final(self)@ == old(self)@.push(sample),
            final(self).spec_chunk_len() == old(self).spec_chunk_len(),
    {
        self.samples.push(sample);
    }

    /// Appends `samples`, in their order.
    pub fn extend(&mut self, samples: Vec<T>)
        ensures
            final(self)@ == old(self)@ + samples@,
            final(self).spec_chunk_len() == old(self).spec_chunk_len(),
    {
        let mut samples = samples;
        self.samples.append(&mut samples);
    }

    /// Removes the oldest chunk if a whole one is waiting.
    pub fn take_chunk(&mut self) -> (chunk: Option<Vec<T>>)
        ensures
            final(self).spec_chunk_len() == old(self).spec_chunk_len(),
            old(self)@.len() >= old(self).spec_chunk_len() ==> {
                &&& chunk is Some
                &&& chunk->0@ == old(self)@.take(old(self).spec_chunk_len() as int)
                &&& final(self)@ == old(self)@.skip(old(self).spec_chunk_len() as int)
            },
            old(self)@.len() < old(self).spec_chunk_len() ==> chunk is None && final(self)@ == old(
                self,
            )@,
    {
        if self.samples.len() < self.chunk_len {
            return None;
        }
        let mut rest = self.samples.split_off(self.chunk_len);
        std::mem::swap(&mut self.samples, &mut rest);
        Some(rest)
    }

    /// Removes every whole chunk that is waiting, oldest first. Fewer
    /// samples than one chunk stay behind.
    pub fn take_chunks(&mut self) -> (chunks: Vec<Vec<T>>)
        requires
            old(self).spec_chunk_len() > 0,
        ensures
            final(self).spec_chunk_len() == old(self).spec_chunk_len(),
            chunks@.len() == old(self)@.len() / old(self).spec_chunk_len(),
            forall|k: int|
                0 <= k < chunks@.len() ==> (#[trigger] chunks@[k])@ == chunk_at(
                    old(self)@,
                    old(self).spec_chunk_len(),
                    k,
                ),
            final(self)@ == leftover(old(self)@, old(self).spec_chunk_len()),
            final(self)@.len() < old(self).spec_chunk_len(),
    {
        let ghost all = self@;
        let ghost n = self.spec_chunk_len();
        let mut chunks: Vec<Vec<T>> = Vec::new();
        proof {
            assert(chunks@.len() * n == 0) by (nonlinear_arith)
                requires
                    chunks@.len() == 0,
            ;
            assert(all.skip(0) =~= all);
        }
        while self.samples.len() >= self.chunk_len
            invariant
                n > 0,
                self.spec_chunk_len() == n,
                chunks@.len() * n <= all.len(),
                self@ == all.skip((chunks@.len() * n) as int),
                forall|k: int| 0 <= k < chunks@.len() ==> (#[trigger] chunks@[k])@ == chunk_at(all, n, k),
            decreases self@.len(),
        {
            let ghost done = chunks@.len() as int;
            let ghost before = self@;
            let chunk = self.take_chunk();
            match chunk {
                Some(c) => {
                    proof {
                        assert((done + 1) * n == done * n + n) by (nonlinear_arith);
                        assert(c@ =~= chunk_at(all, n, done));
                        assert(self@ =~= all.skip((done + 1) * n));
                    }
                    chunks.push(c);
                },
                None => {},
            }
        }
        proof {
            let done = chunks@.len() as int;
            assert(done == all.len() as int / n as int) by (nonlinear_arith)
                requires
                    n > 0,
                    done >= 0,
                    done * n <= all.len(),
                    all.len() - done * n < n,
            ;
        }
        chunks
    }
}

/// Taking the whole chunks out of a buffer loses and reorders nothing: the
/// chunks, one after the other, followed by what stays behind, are the
/// samples that were waiting.
pub proof fn chunks_and_leftover_make_the_whole<T>(s: Seq<T>, n: nat)
    requires
        n > 0,
    ensures
        Seq::new((s.len() / n) as nat, |k: int| chunk_at(s, n, k)).flatten() + leftover(s, n) == s,
        leftover(s, n).len() == s.len() % n,
{
    let count = (s.len() / n) as nat;
    let chunks = Seq::new(count, |k: int| chunk_at(s, n, k));
    assert(s.len() == count * n + s.len() % n) by (nonlinear_arith)
        requires
            n > 0,
            count == s.len() / n,
    ;
    prefix_of_chunks(s, n, count);
    assert(chunks.take(count as int) =~= chunks);
    assert(s.take((count * n) as int) + s.skip((count * n) as int) =~= s);
}

/// Where the samples are cut into chunks does not depend on how they
/// arrived: cutting `s` and then, with what stayed behind, `t`, gives the
/// chunks and the leftover of cutting `s + t` at once.
pub proof fn chunking_ignores_arrival<T>(s: Seq<T>, t: Seq<T>, n: nat, k: int)
    requires
        n > 0,
        0 <= k < (s + t).len() / n,
    ensures
        (s + t).len() / n == s.len() / n + (leftover(s, n) + t).len() / n,
        leftover(s + t, n) == leftover(leftover(s, n) + t, n),
        k < s.len() / n ==> chunk_at(s + t, n, k) == chunk_at(s, n, k),
        k >= s.len() / n ==> chunk_at(s + t, n, k) == chunk_at(
            leftover(s, n) + t,
            n,
            k - s.len() / n,
        ),
{
    let q = (s.len() / n) as int;
    let m = n as int;
    let r = leftover(s, n) + t;
    assert(0 <= q * m <= s.len() && s.len() - q * m < m) by (nonlinear_arith)
        requires
            m > 0,
            q == s.len() as int / m,
    ;
    assert(r.len() == s.len() - q * m + t.len());
    assert((q * m + r.len()) / m == q + r.len() as int / m) by (nonlinear_arith)
        requires
            m > 0,
    ;
    let p = (r.len() / n) as int;
    assert(0 <= p * m <= r.len()) by (nonlinear_arith)
        requires
            m > 0,
            p == r.len() as int / m,
    ;
    assert((q + p) * m == q * m + p * m) by (nonlinear_arith);
    assert((s + t).skip(q * m) =~= r);
    assert(leftover(s + t, n) =~= leftover(r, n));
    assert(k * m + m <= (q + p) * m && 0 <= k * m) by (nonlinear_arith)
        requires
            m > 0,
            0 <= k < q + p,
    ;
    if k < q {
        assert(k * m + m <= q * m) by (nonlinear_arith)
            requires
                m > 0,
                k < q,
        ;
        assert(chunk_at(s + t, n, k) =~= chunk_at(s, n, k));
    } else {
        assert((k - q) * m == k * m - q * m) by (nonlinear_arith);
        assert(chunk_at(s + t, n, k) =~= chunk_at(r, n, k - q));
    }
}

/// The first `m` chunks of `s`, one after the other, are the first `m * n`
/// elements of `s`.
proof fn prefix_of_chunks<T>(s: Seq<T>, n: nat, m: nat)
    requires
        n > 0,
        m <= s.len() / n,
    ensures
        m * n <= s.len(),
        Seq::new((s.len() / n) as nat, |k: int| chunk_at(s, n, k)).take(m as int).flatten() == s.take(
            (m * n) as int,
        ),
    decreases m,
{
    let count = (s.len() / n) as nat;
    let chunks = Seq::new(count, |k: int| chunk_at(s, n, k));
    assert(m * n <= s.len()) by (nonlinear_arith)
        requires
            n > 0,
            m <= s.len() / n,
    ;
    if m == 0 {
        assert(chunks.take(0) =~= Seq::<Seq<T>>::empty());
        assert(chunks.take(0).flatten() =~= Seq::<T>::empty());
        assert(0 * n == 0);
        assert(s.take(0) =~= Seq::<T>::empty());
    } else {
        let p = (m - 1) as nat;
        prefix_of_chunks(s, n, p);
        assert(p * n + n == m * n) by (nonlinear_arith)
            requires
                p + 1 == m,
        ;
        let head = chunks.take(p as int);
        assert(chunks.take(m as int) =~= head.push(chunks[p as int]));
        head.lemma_flatten_push(chunks[p as int]);
        assert(s.take((p * n) as int) + chunk_at(s, n, p as int) =~= s.take((m * n) as int));
    }
}

} // verus!
