use vstd::prelude::*;

verus! {

/// `data` cut into consecutive pieces of `size` bytes, the last one shorter
/// when `size` does not divide the length.
pub open spec fn chunks_of(data: Seq<u8>, size: nat) -> Seq<Seq<u8>>
    decreases data.len(),
{
    if data.len() == 0 || size == 0 {
        Seq::empty()
    } else if data.len() <= size {
        seq![data]
    } else {
        seq![data.take(size as int)] + chunks_of(data.skip(size as int), size)
    }
}

/// The pieces laid end to end.
pub open spec fn joined(pieces: Seq<Seq<u8>>) -> Seq<u8>
    decreases pieces.len(),
{
    if pieces.len() == 0 {
        Seq::empty()
    } else {
        pieces[0] + joined(pieces.drop_first())
    }
}

/// Cutting data into chunks loses and adds nothing: the chunks laid end to
/// end are the data again, none is empty, and none is longer than `size`.
pub proof fn lemma_chunks_rejoin(data: Seq<u8>, size: nat)
    requires
        size > 0,
    ensures
        joined(chunks_of(data, size)) == data,
        forall|i: int|
            0 <= i < chunks_of(data, size).len() ==> 0 < #[trigger] chunks_of(data, size)[i].len() <= size,
    decreases data.len(),
{
    if data.len() == 0 {
    } else if data.len() <= size {
        let c = chunks_of(data, size);
        assert(c.drop_first() == Seq::<Seq<u8>>::empty());
        assert(joined(Seq::<Seq<u8>>::empty()) == Seq::<u8>::empty());
        assert(joined(c) == data + Seq::<u8>::empty());
        assert(data + Seq::<u8>::empty() == data);
    } else {
        let rest = data.skip(size as int);
        lemma_chunks_rejoin(rest, size);
        let c = chunks_of(data, size);
        assert(c.drop_first() == chunks_of(rest, size));
        assert(data.take(size as int) + rest == data);
        assert forall|i: int| 0 <= i < c.len() implies 0 < #[trigger] c[i].len() <= size by {
            if i > 0 {
                assert(c[i] == chunks_of(rest, size)[i - 1]);
            }
        }
    }
}

/// The layout of the chunks: there are `ceil(len / size)` of them, and the
/// chunk at `i` holds the bytes from `i * size` up to `(i + 1) * size`, or
/// up to the end of the data for the last one.
pub proof fn lemma_chunks_layout(data: Seq<u8>, size: nat)
    requires
        size > 0,
    ensures
        chunks_of(data, size).len() == (data.len() + size - 1) / (size as int),
        forall|i: int|
            0 <= i < chunks_of(data, size).len() ==> #[trigger] chunks_of(data, size)[i] == data.subrange(
                i * size,
                if (i + 1) * size <= data.len() { (i + 1) * size } else { data.len() as int },
            ),
    decreases data.len(),
{
    let n = data.len() as int;
    let k = size as int;
    let c = chunks_of(data, size);
    if n == 0 {
        assert((k - 1) / k == 0) by (nonlinear_arith)
            requires
                k > 0,
        ;
    } else if n <= k {
        assert((n + k - 1) / k == 1) by (nonlinear_arith)
            requires
                0 < n <= k,
        ;
        assert(c[0] == data.subrange(0, n));
        assert forall|i: int| 0 <= i < c.len() implies #[trigger] c[i] == data.subrange(
            i * size,
            if (i + 1) * size <= data.len() { (i + 1) * size } else { data.len() as int },
        ) by {
            assert(i == 0);
            if k < n {
            }
        }
    } else {
        let rest = data.skip(k);
        lemma_chunks_layout(rest, size);
        let r = chunks_of(rest, size);
        assert(c == seq![data.take(k)] + r);
        vstd::arithmetic::div_mod::lemma_div_plus_one(n - 1, k);
        assert((n - k) + k - 1 == n - 1);
        assert forall|i: int| 0 <= i < c.len() implies #[trigger] c[i] == data.subrange(
            i * size,
            if (i + 1) * size <= data.len() { (i + 1) * size } else { data.len() as int },
        ) by {
            if i == 0 {
                assert(c[0] == data.take(k));
                assert(data.take(k) == data.subrange(0, k));
            } else {
                let j = i - 1;
                assert(c[i] == r[j]);
                assert(j * k + k == i * k) by (nonlinear_arith)
                    requires
                        j == i - 1,
                ;
                assert((j + 1) * k + k == (i + 1) * k) by (nonlinear_arith)
                    requires
                        j == i - 1,
                ;
                assert(0 <= j * k) by (nonlinear_arith)
                    requires
                        j >= 0,
                        k > 0,
                ;
                let m = rest.len() as int;
                lemma_chunk_start_inside(j, m, k);
                let end_r = if (j + 1) * size <= rest.len() { (j + 1) * size } else { rest.len() as int };
                assert(r[j] == rest.subrange(j * k, end_r));
                assert(end_r + k == (if (i + 1) * size <= data.len() { (i + 1) * size } else { data.len() as int }));
                assert(rest.subrange(j * k, end_r) =~= data.subrange(j * k + k, end_r + k));
            }
        }
    }
}

proof fn lemma_chunk_start_inside(j: int, m: int, k: int)
    by (nonlinear_arith)
    requires
        k > 0,
        0 <= j,
        j < (m + k - 1) / k,
    ensures
        j * k < m,
{
    let q = (m + k - 1) / k;
    assert(k * q <= m + k - 1);
    assert(j + 1 <= q);
    assert((j + 1) * k <= q * k);
}

/// The chunks of `data`, each at most `size` bytes long.
pub fn split_chunks(data: &Vec<u8>, size: usize) -> (res: Vec<Vec<u8>>)
    requires
        size > 0,
    ensures
        res@.len() == chunks_of(data@, size as nat).len(),
        forall|i: int| 0 <= i < res@.len() ==> #[trigger] res@[i]@ == chunks_of(data@, size as nat)[i],
{
    let mut res: Vec<Vec<u8>> = Vec::new();
    let mut pos: usize = 0;
    let ghost done: Seq<Seq<u8>> = Seq::empty();
    assert(data@.skip(0) == data@);
    assert(done + chunks_of(data@, size as nat) == chunks_of(data@, size as nat));
    while pos < data.len()
        invariant
            size > 0,
            pos <= data.len(),
            res@.len() == done.len(),
            forall|i: int| 0 <= i < res@.len() ==> #[trigger] res@[i]@ == done[i],
            done + chunks_of(data@.skip(pos as int), size as nat) == chunks_of(data@, size as nat),
        decreases data.len() - pos,
    {
        let rest = Ghost(data@.skip(pos as int));
        let end: usize = if data.len() - pos <= size { data.len() } else { pos + size };
        let mut piece: Vec<u8> = Vec::new();
        let mut j: usize = pos;
        while j < end
            invariant
                pos <= j <= end <= data.len(),
                piece@ == data@.subrange(pos as int, j as int),
            decreases end - j,
        {
            piece.push(data[j]);
            j = j + 1;
            assert(piece@ == data@.subrange(pos as int, j as int));
        }
        proof {
            let c = chunks_of(rest@, size as nat);
            if data.len() - pos <= size {
                assert(piece@ == rest@);
                assert(c == seq![rest@]);
                assert(data@.skip(end as int) == Seq::<u8>::empty());
                assert(chunks_of(data@.skip(end as int), size as nat) == Seq::<Seq<u8>>::empty());
                assert(done.push(piece@) + Seq::<Seq<u8>>::empty() == done + c);
            } else {
                assert(piece@ == rest@.take(size as int));
                assert(rest@.skip(size as int) == data@.skip(end as int));
                assert(c == seq![piece@] + chunks_of(data@.skip(end as int), size as nat));
                assert(done.push(piece@) + chunks_of(data@.skip(end as int), size as nat) == done + c);
            }
            done = done.push(piece@);
        }
        res.push(piece);
        pos = end;
    }
    proof {
        assert(data@.skip(pos as int) == Seq::<u8>::empty());
        assert(done + Seq::<Seq<u8>>::empty() == done);
    }
    res
}

} // verus!
