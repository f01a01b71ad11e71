//! Disk space accounting.

use vstd::prelude::*;

verus! {

/// The space of one disk or partition, in bytes.
#[derive(Clone, Copy, Debug, PartialEq, Eq, Structural)]
pub struct DiskSpace {
    pub total_space: u64,
    pub available_space: u64,
}

/// The total space of all the partitions.
pub open spec fn total_space_sum(partitions: Seq<DiskSpace>) -> nat
    decreases partitions.len(),
{
    if partitions.len() == 0 {
        0
    } else {
        total_space_sum(partitions.drop_last()) + partitions.last().total_space as nat
    }
}

/// The available space of all the partitions.
pub open spec fn available_space_sum(partitions: Seq<DiskSpace>) -> nat
    decreases partitions.len(),
{
    if partitions.len() == 0 {
        0
    } else {
        available_space_sum(partitions.drop_last()) + partitions.last().available_space as nat
    }
}

/// Every partition adds its own space to the sums, whatever the others hold:
/// no partitions sum to nothing, and appending a partition adds exactly its
/// total and its available space.
pub proof fn lemma_sums_add_each_partition(partitions: Seq<DiskSpace>, partition: DiskSpace)
    ensures
        total_space_sum(Seq::<DiskSpace>::empty()) == 0,
        available_space_sum(Seq::<DiskSpace>::empty()) == 0,
        total_space_sum(partitions.push(partition)) == total_space_sum(partitions)
            + partition.total_space,
        available_space_sum(partitions.push(partition)) == available_space_sum(partitions)
            + partition.available_space,
{
    assert(partitions.push(partition).drop_last() =~= partitions);
}

/// The sums over two lists of partitions put together are the sums of the
/// sums over each.
pub proof fn lemma_sums_concat(first: Seq<DiskSpace>, second: Seq<DiskSpace>)
    ensures
        total_space_sum(first + second) == total_space_sum(first) + total_space_sum(second),
        available_space_sum(first + second) == available_space_sum(first) + available_space_sum(
            second,
        ),
    decreases second.len(),
{
    if second.len() == 0 {
        assert(first + second =~= first);
    } else {
        lemma_sums_concat(first, second.drop_last());
        assert((first + second).drop_last() =~= first + second.drop_last());
        assert((first + second).last() == second.last());
    }
}

impl DiskSpace {
    /// The space in use: the total less the available space.
    pub fn used(&self) -> (used: u64)
        requires
            self.available_space <= self.total_space,
        ensures
            used + self.available_space == self.total_space,
    {
        self.total_space - self.available_space
    }
}

/// The total space of a set of partitions and the space in use on them. The
/// sums are taken in `u64`, so the total must fit in it, and no more space
/// may be available than there is in total.
pub fn disk_usage(partitions: &Vec<DiskSpace>) -> (usage: (u64, u64))
    requires
        total_space_sum(partitions@) <= u64::MAX,
        available_space_sum(partitions@) <= total_space_sum(partitions@),
    ensures
        usage.0 == total_space_sum(partitions@),
        usage.1 + available_space_sum(partitions@) == total_space_sum(partitions@),
{
    let mut total_bytes: u64 = 0;
    let mut available_bytes: u64 = 0;
    let mut i: usize = 0;
    while i < partitions.len()
        invariant
            i <= partitions.len(),
            total_space_sum(partitions@) <= u64::MAX,
            available_space_sum(partitions@) <= total_space_sum(partitions@),
            total_bytes == total_space_sum(partitions@.take(i as int)),
            available_bytes == available_space_sum(partitions@.take(i as int)),
        decreases partitions.len() - i,
    {
        proof {
            assert(partitions@.take(i + 1).drop_last() =~= partitions@.take(i as int));
            lemma_sums_grow(partitions@, i as int + 1);
        }
        total_bytes = total_bytes + partitions[i].total_space;
        available_bytes = available_bytes + partitions[i].available_space;
        i = i + 1;
    }
    assert(partitions@.take(i as int) =~= partitions@);
    (total_bytes, total_bytes - available_bytes)
}

/// The sums over a prefix are at most the sums over the whole.
proof fn lemma_sums_grow(partitions: Seq<DiskSpace>, n: int)
    requires
        0 <= n <= partitions.len(),
    ensures
        total_space_sum(partitions.take(n)) <= total_space_sum(partitions),
        available_space_sum(partitions.take(n)) <= available_space_sum(partitions),
    decreases partitions.len() - n,
{
    if n < partitions.len() {
        lemma_sums_grow(partitions, n + 1);
        assert(partitions.take(n + 1).drop_last() =~= partitions.take(n));
    } else {
        assert(partitions.take(n) =~= partitions);
    }
}

} // verus!
