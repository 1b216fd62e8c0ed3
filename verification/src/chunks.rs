//! Chunked transfer: a large payload crosses the boundary piece by piece, so
//! that neither side ever holds more than one piece beyond the payload
//! itself.

use vstd::prelude::*;
use vstd::slice::slice_subrange;

verus! {

/// The width of the chunks that a limit asks for: the limit itself, and one
/// byte where the limit is zero.
pub open spec fn chunk_width(limit: usize) -> int {
    if limit == 0 {
        1
    } else {
        limit as int
    }
}

/// A payload cut into chunks of `width` bytes, the last one possibly
/// shorter. A payload within the width is a single chunk, and an empty
/// payload has none.
pub open spec fn chunks_of(data: Seq<u8>, width: int) -> Seq<Seq<u8>>
    decreases data.len(),
{
    if width <= 0 || data.len() == 0 {
        Seq::<Seq<u8>>::empty()
    } else if data.len() <= width {
        seq![data]
    } else {
        seq![data.subrange(0, width)] + chunks_of(data.subrange(width, data.len() as int), width)
    }
}

/// The chunks laid end to end.
pub open spec fn joined(chunks: Seq<Seq<u8>>) -> Seq<u8>
    decreases chunks.len(),
{
    if chunks.len() == 0 {
        Seq::<u8>::empty()
    } else {
        joined(chunks.drop_last()) + chunks.last()
    }
}

/// The byte strings that a list of chunks holds.
pub open spec fn chunk_views(chunks: Seq<Vec<u8>>) -> Seq<Seq<u8>> {
    chunks.map_values(|chunk: Vec<u8>| chunk@)
}

/// Joining after a chunk put in front is the chunk followed by the join.
pub proof fn lemma_joined_front(first: Seq<u8>, rest: Seq<Seq<u8>>)
    ensures
        joined(seq![first] + rest) == first + joined(rest),
    decreases rest.len(),
{
    let all = seq![first] + rest;
    if rest.len() == 0 {
        assert(all.drop_last() =~= Seq::<Seq<u8>>::empty());
        assert(rest =~= Seq::<Seq<u8>>::empty());
        assert(joined(all.drop_last()) =~= Seq::<u8>::empty());
        assert(all.last() == first);
        assert(joined(all) =~= first + joined(rest));
    } else {
        assert(all.drop_last() =~= seq![first] + rest.drop_last());
        assert(all.last() == rest.last());
        lemma_joined_front(first, rest.drop_last());
        assert(joined(all) =~= first + joined(rest));
    }
}

/// Chunking loses nothing and bounds every piece: the chunks of a payload
/// join to the payload, none is empty and none is wider than the width.
pub proof fn lemma_chunks_join(data: Seq<u8>, width: int)
    requires
        width >= 1,
    ensures
        joined(chunks_of(data, width)) == data,
        forall|k: int|
            0 <= k < chunks_of(data, width).len() ==> 1 <= (#[trigger] chunks_of(data, width)[k]).len()
                <= width,
        data.len() <= width && data.len() > 0 ==> chunks_of(data, width) == seq![data],
    decreases data.len(),
{
    if data.len() == 0 {
    } else if data.len() <= width {
        lemma_joined_front(data, Seq::<Seq<u8>>::empty());
        assert(seq![data] + Seq::<Seq<u8>>::empty() =~= seq![data]);
        assert(data + joined(Seq::<Seq<u8>>::empty()) =~= data);
    } else {
        let first = data.subrange(0, width);
        let rest = data.subrange(width, data.len() as int);
        lemma_chunks_join(rest, width);
        lemma_joined_front(first, chunks_of(rest, width));
        assert(first + rest =~= data);
    }
}

/// Walking a payload chunk by chunk visits exactly its chunks: what starts
/// at `offset` is the next chunk followed by the chunks of what is left.
pub proof fn lemma_chunks_step(data: Seq<u8>, offset: int, width: int)
    requires
        width >= 1,
        0 <= offset < data.len(),
    ensures
        ({
            let end = if offset + width < data.len() {
                offset + width
            } else {
                data.len() as int
            };
            chunks_of(data.subrange(offset, data.len() as int), width) == seq![
                data.subrange(offset, end),
            ] + chunks_of(data.subrange(end, data.len() as int), width)
        }),
{
    let tail = data.subrange(offset, data.len() as int);
    if offset + width < data.len() {
        assert(tail.subrange(0, width) =~= data.subrange(offset, offset + width));
        assert(tail.subrange(width, tail.len() as int) =~= data.subrange(
            offset + width,
            data.len() as int,
        ));
    } else {
        assert(data.subrange(data.len() as int, data.len() as int) =~= Seq::<u8>::empty());
        assert(seq![tail] + Seq::<Seq<u8>>::empty() =~= seq![tail]);
    }
}

/// The chunk of `data` that starts at `offset` under the given limit, and
/// the offset at which the next one starts. The chunk borrows from `data`;
/// nothing is copied. An offset past the end counts as the end.
pub fn next_chunk<'a>(data: &'a [u8], offset: usize, limit: usize) -> (r: (&'a [u8], usize))
    ensures
        ({
            let start = if offset <= data@.len() {
                offset as int
            } else {
                data@.len() as int
            };
            let end = if start + chunk_width(limit) < data@.len() {
                start + chunk_width(limit)
            } else {
                data@.len() as int
            };
            r.0@ == data@.subrange(start, end) && r.1 == end
        }),
{
    let n = data.len();
    let start = if offset <= n {
        offset
    } else {
        n
    };
    let width = if limit == 0 {
        1
    } else {
        limit
    };
    let end = if width < n - start {
        start + width
    } else {
        n
    };
    (slice_subrange(data, start, end), end)
}

/// Lays received chunks end to end.
pub fn join_chunks(chunks: &Vec<Vec<u8>>) -> (data: Vec<u8>)
    ensures
        data@ == joined(chunk_views(chunks@)),
{
    let mut data: Vec<u8> = Vec::new();
    let mut i: usize = 0;
    while i < chunks.len()
        invariant
            i <= chunks.len(),
            data@ == joined(chunk_views(chunks@).subrange(0, i as int)),
        decreases chunks.len() - i,
    {
        let chunk = &chunks[i];
        let ghost before = data@;
        let mut j: usize = 0;
        while j < chunk.len()
            invariant
                j <= chunk.len(),
                data@ == before + chunk@.subrange(0, j as int),
            decreases chunk.len() - j,
        {
            data.push(chunk[j]);
            assert(chunk@.subrange(0, j + 1) =~= chunk@.subrange(0, j as int).push(chunk@[j as int]));
            j += 1;
        }
        proof {
            let views = chunk_views(chunks@);
            assert(chunk@.subrange(0, j as int) =~= chunk@);
            assert(views.subrange(0, i + 1).drop_last() =~= views.subrange(0, i as int));
            assert(views.subrange(0, i + 1).last() == chunk@);
        }
        i += 1;
    }
    assert(chunk_views(chunks@).subrange(0, i as int) =~= chunk_views(chunks@));
    data
}

} // verus!
