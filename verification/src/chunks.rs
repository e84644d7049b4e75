//! The chunk plan: how a file of a known size is divided into the byte
//! ranges that travel between a pair of workers, and how writing those
//! ranges back reassembles the file.

use vstd::prelude::*;
use vstd::arithmetic::div_mod::{
    lemma_basic_div, lemma_div_pos_is_pos, lemma_fundamental_div_mod,
    lemma_fundamental_div_mod_converse_div, lemma_mod_bound,
};
use vstd::arithmetic::mul::{lemma_mul_inequality, lemma_mul_is_distributive_sub_other_way};

verus! {

/// Number of bytes carried by every chunk of a transfer but possibly the
/// last one.  Shared by convention between all workers; it is not
/// negotiated per transfer.
pub const CHUNK_SIZE: u64 = 1048576;

/// Number of chunks needed to cover `total` bytes in pieces of `chunk`
/// bytes: the division `total / chunk`, rounded up.
pub open spec fn spec_chunk_count(total: nat, chunk: nat) -> nat
    recommends
        chunk > 0,
{
    ((total + chunk - 1) / chunk as int) as nat
}

/// Byte length of chunk `i`: a full `chunk` bytes, except that the final
/// chunk stops at the end of the file.
pub open spec fn spec_chunk_len(total: nat, chunk: nat, i: nat) -> nat
    recommends
        chunk > 0,
        i < spec_chunk_count(total, chunk),
{
    if i * chunk + chunk <= total {
        chunk
    } else {
        (total - i * chunk) as nat
    }
}

/// Index of the chunk that carries byte position `pos`.
pub open spec fn chunk_index_of(pos: nat, chunk: nat) -> nat
    recommends
        chunk > 0,
{
    pos / chunk
}

/// The chunk count is the exact ceiling of `total / chunk`: `count * chunk`
/// reaches `total` but overshoots it by less than one chunk.
pub proof fn lemma_chunk_count_bounds(total: nat, chunk: nat)
    requires
        chunk > 0,
    ensures
        total <= spec_chunk_count(total, chunk) * chunk,
        spec_chunk_count(total, chunk) * chunk < total + chunk,
        spec_chunk_count(total, chunk) == 0 <==> total == 0,
{
    let c = chunk as int;
    let x = total + c - 1;
    lemma_fundamental_div_mod(x, c);
    lemma_mod_bound(x, c);
    lemma_div_pos_is_pos(x, c);
    let q = x / c;
    let r = x % c;
    let count = spec_chunk_count(total, chunk);
    assert(x == c * q + r);
    assert(count == q);
    assert(count * chunk == c * q) by (nonlinear_arith)
        requires
            count == q && c == chunk && q >= 0,
    ;
    assert(c * q == x - r);
    if total == 0 {
        if q >= 1 {
            assert(c * q >= c) by (nonlinear_arith)
                requires
                    q >= 1 && c > 0,
            ;
            assert(false);
        }
    } else {
        if q == 0 {
            assert(c * q == 0) by (nonlinear_arith)
                requires
                    q == 0,
            ;
            assert(false);
        }
    }
}

/// Chunk tiling: the chunks of a transfer cover the byte range
/// `[0, total)` exactly.  Every chunk starts inside the file and is
/// non-empty, every chunk but the last carries a full `chunk` bytes, the
/// last chunk ends exactly at `total`, and every byte position lies in
/// one chunk and one only, namely chunk `pos / chunk`.
pub proof fn lemma_chunk_tiling(total: nat, chunk: nat)
    requires
        chunk > 0,
    ensures
        forall|i: nat|
            #![trigger spec_chunk_len(total, chunk, i)]
            #![trigger i * chunk]
            i < spec_chunk_count(total, chunk) ==> i * chunk < total && 0 < spec_chunk_len(
                total,
                chunk,
                i,
            ) <= chunk && i * chunk + spec_chunk_len(total, chunk, i) <= total,
        forall|i: nat|
            i + 1 < spec_chunk_count(total, chunk) ==> #[trigger] spec_chunk_len(
                total,
                chunk,
                i,
            ) == chunk,
        spec_chunk_count(total, chunk) > 0 ==> {
            let last = (spec_chunk_count(total, chunk) - 1) as nat;
            last * chunk + spec_chunk_len(total, chunk, last) == total
        },
        forall|pos: nat| pos < total ==> {
            let i = #[trigger] chunk_index_of(pos, chunk);
            i < spec_chunk_count(total, chunk) && i * chunk <= pos < i * chunk + spec_chunk_len(
                total,
                chunk,
                i,
            )
        },
        forall|i: nat, pos: nat|
            #![trigger spec_chunk_len(total, chunk, i), chunk_index_of(pos, chunk)]
            i < spec_chunk_count(total, chunk) && i * chunk <= pos < i * chunk + spec_chunk_len(
                total,
                chunk,
                i,
            ) ==> chunk_index_of(pos, chunk) == i,
{
    let count = spec_chunk_count(total, chunk);
    lemma_chunk_count_bounds(total, chunk);
    assert forall|i: nat|
        #![trigger spec_chunk_len(total, chunk, i)]
        #![trigger i * chunk]
        i < spec_chunk_count(total, chunk) implies i * chunk < total && 0 < spec_chunk_len(
        total,
        chunk,
        i,
    ) <= chunk && i * chunk + spec_chunk_len(total, chunk, i) <= total by {
        lemma_chunk_starts_inside(total, chunk, i);
    }
    assert forall|i: nat| i + 1 < spec_chunk_count(total, chunk) implies #[trigger] spec_chunk_len(total, chunk, i)
        == chunk by {
        lemma_chunk_starts_inside(total, chunk, i);
        // the next chunk also starts inside the file, so chunk i is full
        lemma_chunk_starts_inside(total, chunk, (i + 1) as nat);
        assert((i + 1) * chunk == i * chunk + chunk) by (nonlinear_arith);
    }
    if count > 0 {
        let last = (count - 1) as nat;
        lemma_chunk_starts_inside(total, chunk, last);
        assert(last * chunk + spec_chunk_len(total, chunk, last) == total) by {
            // total <= count * chunk == last * chunk + chunk, so the last
            // chunk is cut off at total
            assert(count * chunk == last * chunk + chunk) by (nonlinear_arith)
                requires
                    count == last + 1,
            ;
        }
    }
    assert forall|pos: nat| pos < total implies {
        let i = #[trigger] chunk_index_of(pos, chunk);
        i < spec_chunk_count(total, chunk) && i * chunk <= pos < i * chunk + spec_chunk_len(
            total,
            chunk,
            i,
        )
    } by {
        let i = chunk_index_of(pos, chunk);
        lemma_fundamental_div_mod(pos as int, chunk as int);
        assert((chunk as int) * (pos as int / chunk as int) == i * chunk) by (nonlinear_arith)
            requires
                i == pos as int / chunk as int,
        ;
        assert(i * chunk <= pos < i * chunk + chunk);
        // i < count: otherwise i * chunk >= count * chunk >= total > pos
        if i >= count {
            lemma_mul_inequality(count as int, i as int, chunk as int);
            assert(false);
        }
        lemma_chunk_starts_inside(total, chunk, i);
    }
    assert forall|i: nat, pos: nat|
        #![trigger spec_chunk_len(total, chunk, i), chunk_index_of(pos, chunk)]
        i < spec_chunk_count(total, chunk) && i * chunk <= pos < i * chunk + spec_chunk_len(
        total,
        chunk,
        i,
    ) implies chunk_index_of(pos, chunk) == i by {
        lemma_chunk_starts_inside(total, chunk, i);
        assert(pos < i * chunk + chunk);
        assert(pos as int == (i as int) * (chunk as int) + (pos - i * chunk)) by (nonlinear_arith);
        lemma_fundamental_div_mod_converse_div(
            pos as int,
            chunk as int,
            i as int,
            pos - i * chunk,
        );
    }
}

/// Every chunk of the plan starts strictly before the end of the file, is
/// non-empty, and stays inside the file.
proof fn lemma_chunk_starts_inside(total: nat, chunk: nat, i: nat)
    requires
        chunk > 0,
        i < spec_chunk_count(total, chunk),
    ensures
        i * chunk < total,
        0 < spec_chunk_len(total, chunk, i) <= chunk,
        i * chunk + spec_chunk_len(total, chunk, i) <= total,
{
    let count = spec_chunk_count(total, chunk);
    lemma_chunk_count_bounds(total, chunk);
    // i <= count - 1, so i * chunk <= (count - 1) * chunk = count * chunk - chunk < total
    lemma_mul_inequality(i as int, count - 1, chunk as int);
    lemma_mul_is_distributive_sub_other_way(chunk as int, count as int, 1);
}

/// Number of chunks a transfer of `total_size` bytes needs.
pub fn chunk_count(total_size: u64, chunk_size: u64) -> (count: u64)
    requires
        chunk_size > 0,
    ensures
        count == spec_chunk_count(total_size as nat, chunk_size as nat),
{
    if total_size == 0 {
        proof {
            lemma_basic_div(chunk_size - 1, chunk_size as int);
        }
        0
    } else {
        let count = (total_size - 1) / chunk_size + 1;
        proof {
            let t = total_size as int;
            let c = chunk_size as int;
            lemma_fundamental_div_mod(t - 1, c);
            lemma_mod_bound(t - 1, c);
            let q = (t - 1) / c;
            let r = (t - 1) % c;
            assert(t - 1 == c * q + r);
            assert((q + 1) * c == c * q + c) by (nonlinear_arith);
            assert(t + c - 1 == (q + 1) * c + r);
            lemma_fundamental_div_mod_converse_div(t + c - 1, c, q + 1, r);
        }
        count
    }
}

/// The chunk plan for a transfer: the `(offset, length)` pair of every
/// chunk, in order.  Offsets are the successive multiples of `chunk_size`;
/// every length is `chunk_size` except that the last chunk stops at
/// `total_size`.
pub fn chunk_plan(total_size: u64, chunk_size: u64) -> (plan: Vec<(u64, u64)>)
    requires
        chunk_size > 0,
    ensures
        plan@.len() == spec_chunk_count(total_size as nat, chunk_size as nat),
        forall|i: int|
            0 <= i < plan@.len() ==> (#[trigger] plan@[i]).0 == i * chunk_size && plan@[i].1
                == spec_chunk_len(total_size as nat, chunk_size as nat, i as nat),
{
    let count = chunk_count(total_size, chunk_size);
    let mut plan: Vec<(u64, u64)> = Vec::new();
    let mut i: u64 = 0;
    proof {
        lemma_chunk_tiling(total_size as nat, chunk_size as nat);
    }
    while i < count
        invariant
            chunk_size > 0,
            i <= count,
            count == spec_chunk_count(total_size as nat, chunk_size as nat),
            plan@.len() == i,
            forall|j: int|
                0 <= j < plan@.len() ==> (#[trigger] plan@[j]).0 == j * chunk_size && plan@[j].1
                    == spec_chunk_len(total_size as nat, chunk_size as nat, j as nat),
            forall|j: nat|
                #![trigger spec_chunk_len(total_size as nat, chunk_size as nat, j)]
                j < count ==> j * (chunk_size as nat) < total_size && 0 < spec_chunk_len(
                    total_size as nat,
                    chunk_size as nat,
                    j,
                ) <= chunk_size && j * (chunk_size as nat) + spec_chunk_len(
                    total_size as nat,
                    chunk_size as nat,
                    j,
                ) <= total_size,
        decreases count - i,
    {
        assert(spec_chunk_len(total_size as nat, chunk_size as nat, i as nat) <= chunk_size);
        let offset = i * chunk_size;
        let length = if chunk_size <= total_size - offset {
            chunk_size
        } else {
            total_size - offset
        };
        assert(length == spec_chunk_len(total_size as nat, chunk_size as nat, i as nat));
        plan.push((offset, length));
        i = i + 1;
    }
    plan
}

/// The bytes of chunk `i` of a file whose content is `content`.
pub open spec fn chunk_bytes(content: Seq<u8>, chunk: nat, i: nat) -> Seq<u8>
    recommends
        chunk > 0,
        i < spec_chunk_count(content.len(), chunk),
{
    content.subrange(
        (i * chunk) as int,
        (i * chunk + spec_chunk_len(content.len(), chunk, i)) as int,
    )
}

/// The byte image of a file after `data` is written at byte position
/// `offset`: positions below `offset` keep their old value, a gap between
/// the old end of the file and `offset` reads as zero, and the file grows
/// when the write reaches past its old end.
pub open spec fn write_at_spec(buf: Seq<u8>, offset: nat, data: Seq<u8>) -> Seq<u8> {
    let padded = if buf.len() < offset {
        buf + Seq::new((offset - buf.len()) as nat, |j: int| 0u8)
    } else {
        buf
    };
    let len = if padded.len() < offset + data.len() {
        offset + data.len()
    } else {
        padded.len()
    };
    Seq::new(
        len as nat,
        |j: int|
            if offset <= j && j < offset + data.len() {
                data[j - offset]
            } else {
                padded[j]
            },
    )
}

/// The byte image built by writing the first `n` chunks of `content`, in
/// order, into an empty file.
pub open spec fn assembled(content: Seq<u8>, chunk: nat, n: nat) -> Seq<u8>
    recommends
        chunk > 0,
        n <= spec_chunk_count(content.len(), chunk),
    decreases n,
{
    if n == 0 {
        Seq::empty()
    } else {
        let i = (n - 1) as nat;
        write_at_spec(assembled(content, chunk, i), i * chunk, chunk_bytes(content, chunk, i))
    }
}

/// Writing the first `n` chunks of a file, in order, into an empty file
/// produces exactly the first `n * chunk` bytes of the file (all of it
/// once `n * chunk` reaches the end).
pub proof fn lemma_assembled_prefix(content: Seq<u8>, chunk: nat, n: nat)
    requires
        chunk > 0,
        n <= spec_chunk_count(content.len(), chunk),
    ensures
        assembled(content, chunk, n) == content.take(
            if n * chunk <= content.len() {
                (n * chunk) as int
            } else {
                content.len() as int
            },
        ),
    decreases n,
{
    let total = content.len();
    if n == 0 {
        assert(n * chunk == 0) by (nonlinear_arith)
            requires
                n == 0,
        ;
        assert(assembled(content, chunk, 0) =~= content.take(0));
    } else {
        let i = (n - 1) as nat;
        lemma_assembled_prefix(content, chunk, i);
        lemma_chunk_starts_inside(total, chunk, i);
        assert(i * chunk < total);
        assert(i * chunk <= n * chunk) by (nonlinear_arith)
            requires
                i <= n,
                chunk > 0,
        ;
        assert(n * chunk == i * chunk + chunk) by (nonlinear_arith)
            requires
                n == i + 1,
        ;
        let l = spec_chunk_len(total, chunk, i);
        let prev = assembled(content, chunk, i);
        assert(prev == content.take((i * chunk) as int));
        assert(prev.len() == i * chunk);
        // the write lands exactly at the end of what is already assembled,
        // so it appends chunk i
        let end = if n * chunk <= total {
            (n * chunk) as int
        } else {
            total as int
        };
        assert(i * chunk + l == end);
        assert(assembled(content, chunk, n) =~= content.take(end));
    }
}

/// Round trip: writing every chunk of a file, in order, into an empty
/// file reproduces the file exactly.
pub proof fn lemma_chunks_reassemble(content: Seq<u8>, chunk: nat)
    requires
        chunk > 0,
    ensures
        assembled(content, chunk, spec_chunk_count(content.len(), chunk)) == content,
{
    let total = content.len();
    let count = spec_chunk_count(total, chunk);
    lemma_chunk_count_bounds(total, chunk);
    lemma_assembled_prefix(content, chunk, count);
    assert(content.take(total as int) =~= content);
}

/// Writes `data` into `buf` at byte position `offset`, growing `buf` and
/// zero-filling any gap as `write_at_spec` describes.
pub fn write_at(buf: &mut Vec<u8>, offset: usize, data: &Vec<u8>)
    requires
        offset + data@.len() <= usize::MAX,
    ensures
        final(buf)@ == write_at_spec(old(buf)@, offset as nat, data@),
{
    let ghost orig = buf@;
    while buf.len() < offset
        invariant
            orig.len() <= buf@.len(),
            buf@.len() <= offset || buf@ == orig,
            buf@.take(orig.len() as int) == orig,
            forall|j: int| orig.len() <= j < buf@.len() ==> buf@[j] == 0u8,
        decreases offset - buf@.len(),
    {
        buf.push(0u8);
        assert(buf@.take(orig.len() as int) =~= orig);
    }
    let ghost padded = if orig.len() < offset {
        orig + Seq::new((offset as nat - orig.len()) as nat, |j: int| 0u8)
    } else {
        orig
    };
    assert(buf@ =~= padded);
    let mut i: usize = 0;
    while i < data.len()
        invariant
            i <= data@.len(),
            offset + data@.len() <= usize::MAX,
            offset <= padded.len(),
            buf@.len() == if padded.len() >= offset + i {
                padded.len() as int
            } else {
                (offset + i) as int
            },
            forall|j: int| 0 <= j < offset ==> buf@[j] == padded[j],
            forall|j: int| offset <= j < offset + i ==> buf@[j] == data@[j - offset],
            forall|j: int| offset + i <= j < buf@.len() ==> buf@[j] == padded[j],
        decreases data@.len() - i,
    {
        if offset + i < buf.len() {
            let b = data[i];
            let k = offset + i;
            buf[k] = b;
        } else {
            buf.push(data[i]);
        }
        i = i + 1;
    }
    assert(buf@ =~= write_at_spec(orig, offset as nat, data@));
}

/// Copies the byte range `[start, end)` out of `v`.
pub fn subvec(v: &Vec<u8>, start: usize, end: usize) -> (r: Vec<u8>)
    requires
        start <= end <= v@.len(),
    ensures
        r@ == v@.subrange(start as int, end as int),
{
    let mut r: Vec<u8> = Vec::new();
    let mut i: usize = start;
    while i < end
        invariant
            start <= i <= end <= v@.len(),
            r@ == v@.subrange(start as int, i as int),
        decreases end - i,
    {
        r.push(v[i]);
        assert(r@ =~= v@.subrange(start as int, i + 1));
        i = i + 1;
    }
    r
}

} // verus!
