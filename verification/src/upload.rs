//! Partial uploads: the byte range of one record, copied from a source
//! buffer into a destination buffer.

use crate::encoding::image;
use crate::record::{Vertex, RECORD_SIZE};
use crate::storage::{blanks, flatten};
use crate::trail::TrailView;
use vstd::endian::Endian;
use vstd::prelude::*;

verus! {

/// A copy of `size` bytes from offset `src_offset` of a source buffer to
/// offset `dst_offset` of a destination buffer.
#[derive(Clone, Copy, Debug, PartialEq, Eq)]
pub struct CopyRegion {
    pub src_offset: u64,
    pub dst_offset: u64,
    pub size: u64,
}

/// The bytes of record `index` in a buffer of records.
pub open spec fn record_bytes(buffer: Seq<u8>, index: nat) -> Seq<u8> {
    buffer.subrange(RECORD_SIZE * index, RECORD_SIZE * index + RECORD_SIZE)
}

impl CopyRegion {
    /// The region that uploads record `index`: one record's worth of bytes, at
    /// the record's own offset in both buffers.
    pub open spec fn of_record(index: nat) -> CopyRegion {
        CopyRegion {
            src_offset: (RECORD_SIZE * index) as u64,
            dst_offset: (RECORD_SIZE * index) as u64,
            size: RECORD_SIZE as u64,
        }
    }

    /// Both byte ranges lie inside their buffers.
    pub open spec fn fits(self, src_len: nat, dst_len: nat) -> bool {
        self.src_offset + self.size <= src_len && self.dst_offset + self.size <= dst_len
    }

    /// The destination buffer after the copy.
    pub open spec fn applied(self, src: Seq<u8>, dst: Seq<u8>) -> Seq<u8> {
        Seq::new(
            dst.len(),
            |k: int|
                if self.dst_offset <= k < self.dst_offset + self.size {
                    src[k - self.dst_offset + self.src_offset]
                } else {
                    dst[k]
                },
        )
    }

    /// The region that uploads record `index`.
    pub fn for_record(index: u32) -> (region: CopyRegion)
        ensures
            region == CopyRegion::of_record(index as nat),
            region.src_offset == 24 * index,
            region.dst_offset == 24 * index,
            region.size == 24,
    {
        let offset: u64 = (RECORD_SIZE as u64) * (index as u64);
        CopyRegion { src_offset: offset, dst_offset: offset, size: RECORD_SIZE as u64 }
    }

    /// Carries the copy out on two buffers in memory. Returns `false`, and
    /// leaves `dst` as it was, when a range does not lie inside its buffer.
    pub fn apply(&self, src: &Vec<u8>, dst: &mut Vec<u8>) -> (done: bool)
        ensures
            done == self.fits(src@.len(), old(dst)@.len()),
            done ==> final(dst)@ == self.applied(src@, old(dst)@),
            !done ==> final(dst)@ == old(dst)@,
    {
        let src_len: usize = src.len();
        let dst_len: usize = dst.len();
        if self.size > src_len as u64 || self.src_offset > src_len as u64 - self.size {
            return false;
        }
        if self.size > dst_len as u64 || self.dst_offset > dst_len as u64 - self.size {
            return false;
        }
        let size: usize = self.size as usize;
        let from: usize = self.src_offset as usize;
        let to: usize = self.dst_offset as usize;
        let mut k: usize = 0;
        while k < size
            invariant
                k <= size,
                src_len == src@.len(),
                dst_len == dst@.len(),
                from + size <= src_len,
                to + size <= dst_len,
                dst@.len() == old(dst)@.len(),
                forall|m: int| 0 <= m < to + k ==> dst@[m] == self.applied(src@, old(dst)@)[m],
                forall|m: int| to + k <= m < dst@.len() ==> dst@[m] == old(dst)@[m],
                size == self.size,
                from == self.src_offset,
                to == self.dst_offset,
            decreases size - k,
        {
            dst[to + k] = src[from + k];
            k = k + 1;
        }
        true
    }
}

/// An upload of record `i` leaves every other record of the destination as
/// it was, and makes record `i` of the destination equal to record `i` of the
/// source. The source is only read.
pub proof fn lemma_upload_isolated(src: Seq<u8>, dst: Seq<u8>, i: nat, j: nat)
    requires
        i != j,
        i <= u32::MAX,
        CopyRegion::of_record(i).fits(src.len(), dst.len()),
        RECORD_SIZE * j + RECORD_SIZE <= dst.len(),
    ensures
        CopyRegion::of_record(i).applied(src, dst).len() == dst.len(),
        record_bytes(CopyRegion::of_record(i).applied(src, dst), j) == record_bytes(dst, j),
        record_bytes(CopyRegion::of_record(i).applied(src, dst), i) == record_bytes(src, i),
{
    let after = CopyRegion::of_record(i).applied(src, dst);
    assert(record_bytes(after, j) =~= record_bytes(dst, j));
    assert(record_bytes(after, i) =~= record_bytes(src, i));
}

/// The upload that goes with an append keeps the destination buffer a mirror
/// of the trail: if the buffer held the bytes of the trail's slots before
/// the append, then after the copy of the written slot, from a source buffer
/// that holds the new point in that slot, it holds the bytes of the trail's
/// slots after the append. This is so in either byte order.
pub proof fn lemma_upload_mirrors_append(trail: TrailView, point: Vertex, order: Endian)
    requires
        trail.wf(),
        trail.write_index() is Some,
    ensures
        ({
            let index = trail.write_index()->0;
            let source = image(
                flatten(blanks(trail.capacity()).update(index as int, point)),
                order,
            );
            let mirror = image(flatten(trail.storage), order);
            CopyRegion::of_record(index).applied(source, mirror) == image(
                flatten(trail.appended(point).storage),
                order,
            )
        }),
{
    let index = trail.write_index()->0;
    let source = image(flatten(blanks(trail.capacity()).update(index as int, point)), order);
    let mirror = image(flatten(trail.storage), order);
    let after = image(flatten(trail.appended(point).storage), order);
    let copied = CopyRegion::of_record(index).applied(source, mirror);
    assert forall|k: int| 0 <= k < copied.len() implies copied[k] == after[k] by {
        let slot = (k / 4) / 6;
        assert(slot == k / 24);
    }
}

} // verus!
