//! Chunked, duplicate-safe writes: the chunk plan, and the model of a store
//! that inserts unseen identifiers and skips known ones.
use vstd::prelude::*;
use crate::record::VideoInfo;

verus! {

/// The most records written in one transaction.
pub const CHUNK_SIZE: usize = 1000;

pub open spec fn min(a: int, b: int) -> int {
    if a <= b {
        a
    } else {
        b
    }
}

/// `r` splits `0..n` into consecutive ranges of `size`, the last one
/// possibly shorter, with no empty range.
pub open spec fn is_chunking(r: Seq<(usize, usize)>, n: int, size: int) -> bool {
    &&& forall|i: int|
        0 <= i < r.len() ==> (#[trigger] r[i]).0 == i * size && r[i].1 == min((i + 1) * size, n)
    &&& r.len() * size >= n
    &&& r.len() == 0 || (r.len() - 1) * size < n
}

/// The ranges `(start, end)` of the chunks of `n` records.
pub fn chunk_ranges(n: usize, size: usize) -> (r: Vec<(usize, usize)>)
    requires
        size > 0,
    ensures
        is_chunking(r@, n as int, size as int),
{
    let mut r: Vec<(usize, usize)> = Vec::new();
    let mut start: usize = 0;
    assert(r@.len() * size == 0) by (nonlinear_arith)
        requires
            r@.len() == 0,
    ;
    while start < n
        invariant
            size > 0,
            start == min(r@.len() * size, n as int),
            r@.len() == 0 || (r@.len() - 1) * size < n,
            forall|i: int|
                0 <= i < r@.len() ==> (#[trigger] r@[i]).0 == i * size && r@[i].1 == min(
                    (i + 1) * size,
                    n as int,
                ),
        decreases n - start,
    {
        let ghost k = r@.len() as int;
        assert(start == k * size);
        let end: usize = if n - start > size {
            start + size
        } else {
            n
        };
        proof {
            lemma_next_chunk(k, size as int);
        }
        r.push((start, end));
        start = end;
    }
    r
}

proof fn lemma_next_chunk(k: int, size: int)
    requires
        size > 0,
        k >= 0,
    ensures
        (k + 1) * size == k * size + size,
        k * size >= 0,
{
    assert((k + 1) * size == k * size + size) by (nonlinear_arith);
    assert(k * size >= 0) by (nonlinear_arith)
        requires
            k >= 0,
            size > 0,
    ;
}

/// The identifiers of a batch of records.
pub open spec fn ids_of(batch: Seq<VideoInfo>) -> Set<Seq<char>> {
    Set::new(|id: Seq<char>| exists|i: int| 0 <= i < batch.len() && (#[trigger] batch[i]).id@ == id)
}

/// The identifiers a store holds after a write of `batch` into a store that
/// held `stored`: an unseen identifier is inserted, a known one skipped.
pub open spec fn after_write(stored: Set<Seq<char>>, batch: Seq<VideoInfo>) -> Set<Seq<char>> {
    stored.union(ids_of(batch))
}

/// The identifiers that a write of `batch` inserts.
pub open spec fn inserted_by(stored: Set<Seq<char>>, batch: Seq<VideoInfo>) -> Set<Seq<char>> {
    ids_of(batch).difference(stored)
}

/// The identifiers stored after writing the chunks `ranges` of `batch`,
/// one after another.
pub open spec fn write_chunks(stored: Set<Seq<char>>, batch: Seq<VideoInfo>, ranges: Seq<(usize, usize)>) -> Set<Seq<char>>
    decreases ranges.len(),
{
    if ranges.len() == 0 {
        stored
    } else {
        after_write(
            write_chunks(stored, batch, ranges.drop_last()),
            batch.subrange(ranges.last().0 as int, ranges.last().1 as int),
        )
    }
}

/// Writing the same records a second time inserts no identifier and leaves
/// the store as the first write left it.
pub proof fn rewrite_inserts_nothing(stored: Set<Seq<char>>, batch: Seq<VideoInfo>)
    ensures
        inserted_by(after_write(stored, batch), batch) == Set::<Seq<char>>::empty(),
        after_write(after_write(stored, batch), batch) == after_write(stored, batch),
        inserted_by(stored, batch).subset_of(ids_of(batch)),
{
    assert(inserted_by(after_write(stored, batch), batch) =~= Set::<Seq<char>>::empty());
    assert(after_write(after_write(stored, batch), batch) =~= after_write(stored, batch));
}

proof fn lemma_ids_split(batch: Seq<VideoInfo>, a: int, c: int)
    requires
        0 <= a <= c <= batch.len(),
    ensures
        ids_of(batch.subrange(0, a)).union(ids_of(batch.subrange(a, c))) == ids_of(
            batch.subrange(0, c),
        ),
{
    let left = batch.subrange(0, a);
    let right = batch.subrange(a, c);
    let whole = batch.subrange(0, c);
    assert forall|id: Seq<char>| #[trigger] ids_of(whole).contains(id) implies ids_of(left).union(
        ids_of(right),
    ).contains(id) by {
        let i = choose|i: int| 0 <= i < whole.len() && (#[trigger] whole[i]).id@ == id;
        if i < a {
            assert(left[i] == whole[i]);
        } else {
            assert(right[i - a] == whole[i]);
        }
    }
    assert forall|id: Seq<char>| #[trigger] ids_of(left).union(ids_of(right)).contains(id) implies ids_of(
        whole,
    ).contains(id) by {
        if ids_of(left).contains(id) {
            let i = choose|i: int| 0 <= i < left.len() && (#[trigger] left[i]).id@ == id;
            assert(whole[i] == left[i]);
        } else {
            let i = choose|i: int| 0 <= i < right.len() && (#[trigger] right[i]).id@ == id;
            assert(whole[i + a] == right[i]);
        }
    }
    assert(ids_of(left).union(ids_of(right)) =~= ids_of(whole));
}

proof fn lemma_chunk_prefix(
    stored: Set<Seq<char>>,
    batch: Seq<VideoInfo>,
    ranges: Seq<(usize, usize)>,
    size: int,
    k: int,
)
    requires
        size > 0,
        is_chunking(ranges, batch.len() as int, size),
        0 <= k <= ranges.len(),
    ensures
        write_chunks(stored, batch, ranges.subrange(0, k)) == after_write(
            stored,
            batch.subrange(0, min(k * size, batch.len() as int)),
        ),
    decreases k,
{
    let n = batch.len() as int;
    if k == 0 {
        assert(k * size == 0);
        assert(batch.subrange(0, 0) =~= Seq::<VideoInfo>::empty());
        assert(ids_of(Seq::<VideoInfo>::empty()) =~= Set::<Seq<char>>::empty());
        assert(after_write(stored, batch.subrange(0, 0)) =~= stored);
    } else {
        lemma_chunk_prefix(stored, batch, ranges, size, k - 1);
        let pre = ranges.subrange(0, k);
        assert(pre.drop_last() =~= ranges.subrange(0, k - 1));
        assert(pre.last() == ranges[k - 1]);
        assert((k - 1) * size <= (ranges.len() - 1) * size) by (nonlinear_arith)
            requires
                k - 1 <= ranges.len() - 1,
                size > 0,
        ;
        assert(k * size == (k - 1) * size + size) by (nonlinear_arith);
        assert((k - 1) * size >= 0) by (nonlinear_arith)
            requires
                k >= 1,
                size > 0,
        ;
        let a = (k - 1) * size;
        let c = min(k * size, n);
        lemma_ids_split(batch, a, c);
        assert(after_write(
            after_write(stored, batch.subrange(0, a)),
            batch.subrange(a, c),
        ) =~= after_write(stored, batch.subrange(0, c)));
    }
}

/// Writing a batch chunk by chunk, along a chunking of its length, stores
/// exactly the identifiers that writing it whole would: every record is
/// written.
pub proof fn chunked_write_stores_all(
    stored: Set<Seq<char>>,
    batch: Seq<VideoInfo>,
    ranges: Seq<(usize, usize)>,
    size: int,
)
    requires
        size > 0,
        is_chunking(ranges, batch.len() as int, size),
    ensures
        write_chunks(stored, batch, ranges) == after_write(stored, batch),
{
    lemma_chunk_prefix(stored, batch, ranges, size, ranges.len() as int);
    assert(ranges.subrange(0, ranges.len() as int) =~= ranges);
    assert(batch.subrange(0, batch.len() as int) =~= batch);
}

} // verus!
