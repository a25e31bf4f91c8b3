//! Partition of a record collection into fixed-capacity batches, and the
//! progress figures reported for each batch.

use vstd::prelude::*;

verus! {

/// Number of batches of capacity `b` needed for `n` records.
pub open spec fn ceil_div(n: int, b: int) -> int
    recommends
        b > 0,
{
    n / b + if n % b != 0 { 1int } else { 0int }
}

/// First record (0-based) of the 1-based batch `k`.
pub open spec fn batch_start(b: int, k: int) -> int {
    (k - 1) * b
}

/// One past the last record of the 1-based batch `k` out of `n` records.
pub open spec fn batch_end(n: int, b: int, k: int) -> int {
    if k * b <= n {
        k * b
    } else {
        n
    }
}

/// Number of records in the 1-based batch `k`.
pub open spec fn batch_len(n: int, b: int, k: int) -> int {
    batch_end(n, b, k) - batch_start(b, k)
}

/// `k * b < n` exactly when batch `k + 1` exists.
pub proof fn lemma_ceil_div_bound(n: int, b: int, k: int)
    requires
        n >= 0,
        b > 0,
        k >= 0,
    ensures
        k < ceil_div(n, b) <==> k * b < n,
        ceil_div(n, b) >= 0,
        ceil_div(n, b) * b >= n,
        n > 0 ==> ceil_div(n, b) >= 1,
{
    let q = n / b;
    let r = n % b;
    vstd::arithmetic::div_mod::lemma_fundamental_div_mod(n, b);
    assert(0 <= r < b);
    assert(q >= 0) by {
        vstd::arithmetic::div_mod::lemma_div_pos_is_pos(n, b);
    }
    assert(n == b * q + r);
    if r == 0 {
        assert(k < q <==> k * b < q * b) by (nonlinear_arith)
            requires
                b > 0,
        ;
        assert(ceil_div(n, b) * b >= n) by (nonlinear_arith)
            requires
                ceil_div(n, b) == q,
                n == b * q + r,
                r == 0,
        ;
    } else {
        assert(k <= q <==> k * b < q * b + r) by (nonlinear_arith)
            requires
                b > 0,
                0 < r < b,
                k >= 0,
        ;
        assert(ceil_div(n, b) * b >= n) by (nonlinear_arith)
            requires
                ceil_div(n, b) == q + 1,
                n == b * q + r,
                r < b,
        ;
    }
    if n > 0 {
        assert(0 * b < n);
    }
}

/// One batch: the half-open range `start..end` of record positions, and its
/// 1-based sequence number.
#[derive(Clone, Copy, Debug, PartialEq, Eq, Structural)]
pub struct Batch {
    pub start: usize,
    pub end: usize,
    pub sequence_number: usize,
}

/// The 1-based batch `k` of `n` records in batches of `b`.
pub open spec fn spec_batch(n: int, b: int, k: int) -> Batch
    recommends
        1 <= k <= ceil_div(n, b),
{
    Batch {
        start: batch_start(b, k) as usize,
        end: batch_end(n, b, k) as usize,
        sequence_number: k as usize,
    }
}

/// Sequence number (1-based) of the batch holding the record at position
/// `index`: the number of batches begun once that record is buffered.
pub fn get_iteration(batch_size: &usize, index: &usize) -> (r: usize)
    requires
        *batch_size > 0,
        *index < usize::MAX,
    ensures
        r == ceil_div(*index + 1, *batch_size as int),
{
    let position = *index + 1;
    let mut iteration = position / *batch_size;
    if position % *batch_size != 0 {
        assert(iteration < usize::MAX) by {
            let p = position as int;
            let b = *batch_size as int;
            vstd::arithmetic::div_mod::lemma_fundamental_div_mod(p, b);
            if b == 1 {
                assert(p % 1 == 0);
            }
            assert(p / b < p) by (nonlinear_arith)
                requires
                    b >= 2,
                    p == b * (p / b) + p % b,
                    0 <= p % b,
                    p > 0,
            ;
        }
        iteration += 1;
    }
    iteration
}

/// Records currently sent and records not yet acknowledged when batch
/// `iteration` of `total_size` records, in batches of `batch_size`, begins.
pub open spec fn summary_spec(total_size: int, batch_size: int, iteration: int) -> (int, int) {
    let remaining = total_size + batch_size - iteration * batch_size;
    (if remaining < batch_size { remaining } else { batch_size }, remaining)
}

/// Progress figures for batch `iteration` (1-based): the size of that batch
/// and the number of records from its start to the end of the collection.
pub fn get_upload_summary(total_size: usize, batch_size: usize, iteration: usize) -> (r: (
    usize,
    usize,
))
    requires
        total_size + batch_size <= usize::MAX,
        iteration * batch_size <= total_size + batch_size,
    ensures
        r.0 == summary_spec(total_size as int, batch_size as int, iteration as int).0,
        r.1 == summary_spec(total_size as int, batch_size as int, iteration as int).1,
{
    let mut current = batch_size;
    let remaining = total_size + batch_size - (iteration * batch_size);
    if remaining < batch_size {
        current = remaining;
    }
    (current, remaining)
}

/// The batches of `total` records in batches of `batch_size`, in order.
pub fn plan_batches(total: usize, batch_size: usize) -> (r: Vec<Batch>)
    requires
        batch_size > 0,
    ensures
        r@.len() == ceil_div(total as int, batch_size as int),
        forall|i: int|
            0 <= i < r@.len() ==> #[trigger] r@[i] == spec_batch(
                total as int,
                batch_size as int,
                i + 1,
            ),
{
    let ghost n = total as int;
    let ghost b = batch_size as int;
    let mut r: Vec<Batch> = Vec::new();
    let mut start: usize = 0;
    proof {
        lemma_ceil_div_bound(n, b, 0);
    }
    while start < total
        invariant
            b == batch_size as int,
            n == total as int,
            b > 0,
            start <= total,
            start < total ==> start as int == r@.len() * b,
            start == total ==> r@.len() == ceil_div(n, b),
            r@.len() <= ceil_div(n, b),
            start < total ==> r@.len() < ceil_div(n, b),
            forall|i: int| 0 <= i < r@.len() ==> #[trigger] r@[i] == spec_batch(n, b, i + 1),
        decreases total - start,
    {
        let ghost k = r@.len() as int;
        proof {
            lemma_ceil_div_bound(n, b, k);
            lemma_ceil_div_bound(n, b, k + 1);
        }
        let end: usize = if total - start > batch_size {
            start + batch_size
        } else {
            total
        };
        assert((k + 1) * b == k * b + b) by (nonlinear_arith);
        let sequence_number = get_iteration(&batch_size, &(end - 1));
        proof {
            lemma_sequence_of_last(n, b, k + 1);
        }
        r.push(Batch { start, end, sequence_number });
        assert(r@[k] == spec_batch(n, b, k + 1));
        start = end;
    }
    r
}

/// The last record of batch `k` lies in batch `k`.
proof fn lemma_sequence_of_last(n: int, b: int, k: int)
    requires
        b > 0,
        k >= 1,
        (k - 1) * b < n,
    ensures
        ceil_div(batch_end(n, b, k), b) == k,
{
    let e = batch_end(n, b, k);
    assert(k * b == (k - 1) * b + b) by (nonlinear_arith);
    assert((k - 1) * b < e <= k * b);
    lemma_ceil_div_bound(e, b, k - 1);
    lemma_ceil_div_bound(e, b, k);
}

/// Batching `n >= 1` records in batches of `b >= 1` gives `ceil(n / b)`
/// batches that tile `0..n` in order; every batch but the last holds `b`
/// records and the last holds `n - b * (ceil(n / b) - 1)`, between 1 and `b`.
pub proof fn lemma_batch_sizes(n: int, b: int)
    requires
        n >= 1,
        b >= 1,
    ensures
        ceil_div(n, b) >= 1,
        batch_start(b, 1) == 0,
        batch_end(n, b, ceil_div(n, b)) == n,
        forall|k: int|
            1 <= k < ceil_div(n, b) ==> #[trigger] batch_len(n, b, k) == b && batch_end(n, b, k)
                == batch_start(b, k + 1),
        batch_len(n, b, ceil_div(n, b)) == n - b * (ceil_div(n, b) - 1),
        1 <= batch_len(n, b, ceil_div(n, b)) <= b,
{
    let c = ceil_div(n, b);
    lemma_ceil_div_bound(n, b, 0);
    lemma_ceil_div_bound(n, b, c);
    lemma_ceil_div_bound(n, b, c - 1);
    assert(c * b == (c - 1) * b + b) by (nonlinear_arith);
    assert(b * (c - 1) == (c - 1) * b) by (nonlinear_arith);
    assert forall|k: int| 1 <= k < ceil_div(n, b) implies #[trigger] batch_len(n, b, k) == b
        && batch_end(n, b, k) == batch_start(b, k + 1) by {
        lemma_ceil_div_bound(n, b, k);
        assert(k * b == (k - 1) * b + b) by (nonlinear_arith);
    }
}

/// At batch `k` the reported remaining count is the number of records not yet
/// acknowledged (all records from the start of batch `k` on), the reported
/// current size is the size of batch `k`, the remaining count strictly
/// decreases from one batch to the next, and on the final batch it equals
/// the current size.
pub proof fn lemma_remaining_count(n: int, b: int, k: int)
    requires
        n >= 1,
        b >= 1,
        1 <= k <= ceil_div(n, b),
    ensures
        k * b <= n + b,
        summary_spec(n, b, k).1 == n - batch_start(b, k),
        summary_spec(n, b, k).0 == batch_len(n, b, k),
        k < ceil_div(n, b) ==> summary_spec(n, b, k + 1).1 < summary_spec(n, b, k).1,
        k == ceil_div(n, b) ==> summary_spec(n, b, k).1 == summary_spec(n, b, k).0,
{
    lemma_ceil_div_bound(n, b, k - 1);
    lemma_ceil_div_bound(n, b, k);
    assert(k * b == (k - 1) * b + b) by (nonlinear_arith);
    assert((k + 1) * b == k * b + b) by (nonlinear_arith);
}

} // verus!
