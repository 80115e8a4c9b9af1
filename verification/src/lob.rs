//! Large-object transfer planning.
//!
//! Large objects move through the native layer in chunks of at most
//! [`LOB_CHUNK_MAXSIZE`] bytes. A binary object is cut at arbitrary byte
//! positions; a character object must be cut at character boundaries, so its
//! cut steps back over UTF-8 continuation bytes.

use vstd::prelude::*;
use crate::codes::LOB_CHUNK_MAXSIZE;

verus! {

/// The chunk sizes of a binary large-object transfer: full chunks of the
/// maximum size, then the remainder.
pub open spec fn spec_chunk_plan(total: int) -> Seq<usize>
    decreases total,
{
    if total <= 0 {
        Seq::empty()
    } else if total <= LOB_CHUNK_MAXSIZE {
        seq![total as usize]
    } else {
        seq![LOB_CHUNK_MAXSIZE] + spec_chunk_plan(total - LOB_CHUNK_MAXSIZE)
    }
}

/// The sum of a sequence of sizes.
pub open spec fn spec_size_sum(s: Seq<usize>) -> int
    decreases s.len(),
{
    if s.len() == 0 {
        0
    } else {
        s[0] + spec_size_sum(s.drop_first())
    }
}

/// A chunk plan moves every byte: its sizes sum to the total, each chunk is
/// within the native bound, and no chunk is empty.
pub proof fn lemma_chunk_plan_covers(total: int)
    requires
        0 <= total <= usize::MAX,
    ensures
        spec_size_sum(spec_chunk_plan(total)) == total,
        forall|k: int|
            0 <= k < spec_chunk_plan(total).len() ==> 0 < #[trigger] spec_chunk_plan(total)[k]
                <= LOB_CHUNK_MAXSIZE,
    decreases total,
{
    let plan = spec_chunk_plan(total);
    if total == 0 {
        assert(plan =~= Seq::<usize>::empty());
    } else if total <= LOB_CHUNK_MAXSIZE {
        assert(plan =~= seq![total as usize]);
        assert(plan.drop_first() =~= Seq::<usize>::empty());
        assert(spec_size_sum(plan.drop_first()) == 0);
        assert(spec_size_sum(plan) == plan[0] + spec_size_sum(plan.drop_first()));
    } else {
        lemma_chunk_plan_covers(total - LOB_CHUNK_MAXSIZE);
        let rest = spec_chunk_plan(total - LOB_CHUNK_MAXSIZE);
        assert(plan =~= seq![LOB_CHUNK_MAXSIZE] + rest);
        assert(plan[0] == LOB_CHUNK_MAXSIZE);
        assert(plan.drop_first() =~= rest);
        assert(spec_size_sum(plan) == plan[0] + spec_size_sum(plan.drop_first()));
        assert forall|k: int|
            0 <= k < plan.len() implies 0 < #[trigger] plan[k] <= LOB_CHUNK_MAXSIZE by {
            if k > 0 {
                assert(plan[k] == rest[k - 1]);
            }
        }
    }
}

/// Computes the chunk sizes for transferring a binary large object of the
/// given size.
pub fn lob_chunk_plan(total: usize) -> (r: Vec<usize>)
    ensures
        r@ == spec_chunk_plan(total as int),
{
    let mut out: Vec<usize> = Vec::new();
    let mut left: usize = total;
    while left > 0
        invariant
            out@ + spec_chunk_plan(left as int) == spec_chunk_plan(total as int),
        decreases left,
    {
        let ghost prev = out@;
        let chunk: usize = if left <= LOB_CHUNK_MAXSIZE {
            left
        } else {
            LOB_CHUNK_MAXSIZE
        };
        out.push(chunk);
        left = left - chunk;
        proof {
            if left > 0 {
                assert(spec_chunk_plan(left + chunk) =~= seq![chunk] + spec_chunk_plan(
                    left as int,
                ));
            } else {
                assert(spec_chunk_plan(chunk as int) =~= seq![chunk]);
                assert(spec_chunk_plan(0int) =~= Seq::<usize>::empty());
            }
            assert(out@ + spec_chunk_plan(left as int) =~= prev + spec_chunk_plan(
                (left + chunk) as int,
            ));
        }
    }
    proof {
        assert(spec_chunk_plan(0int) =~= Seq::<usize>::empty());
        assert(out@ =~= out@ + spec_chunk_plan(0int));
    }
    out
}

/// A UTF-8 continuation byte: the high two bits are `10`.
pub open spec fn spec_is_continuation(b: u8) -> bool {
    b & 0xC0 == 0x80
}

/// Decides whether a byte is a UTF-8 continuation byte.
pub fn is_continuation(b: u8) -> (r: bool)
    ensures
        r == spec_is_continuation(b),
{
    b & 0xC0 == 0x80
}

/// The length of the next character-large-object chunk starting at `pos`,
/// when more than one maximal chunk of data remains: the largest cut not
/// beyond the native bound that does not split a UTF-8 character. The cut
/// steps back over continuation bytes; a cut of zero means the window held
/// only continuation bytes, which cannot happen in valid UTF-8 text.
pub fn clob_chunk_len(bytes: &Vec<u8>, pos: usize) -> (n: usize)
    requires
        pos + LOB_CHUNK_MAXSIZE < bytes@.len(),
    ensures
        n <= LOB_CHUNK_MAXSIZE,
        forall|k: int| n < k <= LOB_CHUNK_MAXSIZE ==> #[trigger] spec_is_continuation(bytes@[pos + k]),
        n > 0 ==> !spec_is_continuation(bytes@[pos + n]),
{
    let len = bytes.len();
    let mut n: usize = LOB_CHUNK_MAXSIZE;
    while n > 0 && is_continuation(bytes[pos + n])
        invariant
            len == bytes@.len(),
            pos + LOB_CHUNK_MAXSIZE < bytes@.len(),
            n <= LOB_CHUNK_MAXSIZE,
            forall|k: int| n < k <= LOB_CHUNK_MAXSIZE ==> #[trigger] spec_is_continuation(bytes@[pos + k]),
        decreases n,
    {
        n = n - 1;
    }
    n
}

} // verus!
