//! The plane table: a short vector with one entry per plane of an image,
//! kept inline for up to four planes.

use smallvec::SmallVec;
use vstd::prelude::*;

verus! {

/// The largest number of planes that an image can have, and the number of
/// entries that a plane table holds without allocating.
pub const DEFAULT_MAX_VIDEO_PLANES: usize = 4;

/// A table with one entry per plane: a byte count or offset, and the
/// plane's row stride. It is a short vector of the `smallvec` crate.
#[verifier::external_body]
pub struct BufferPlaneVec {
    entries: SmallVec<[(usize, u32); 4]>,
}

/// The entries of a plane table, first plane first.
pub uninterp spec fn plane_entries(table: BufferPlaneVec) -> Seq<(usize, u32)>;

impl View for BufferPlaneVec {
    type V = Seq<(usize, u32)>;

    open spec fn view(&self) -> Seq<(usize, u32)> {
        plane_entries(*self)
    }
}

/// Calls `smallvec::SmallVec::with_capacity`: an empty table. Within the
/// inline capacity nothing is allocated.
#[verifier::external_body]
pub(crate) fn plane_table_with_capacity(n: usize) -> (table: BufferPlaneVec)
    requires
        n <= DEFAULT_MAX_VIDEO_PLANES,
    ensures
        plane_entries(table) == Seq::<(usize, u32)>::empty(),
{
    BufferPlaneVec { entries: SmallVec::with_capacity(n) }
}

/// Calls `smallvec::SmallVec::push`: the entry is appended after the
/// entries present. Within the inline capacity nothing is allocated.
#[verifier::external_body]
pub(crate) fn plane_table_push(table: &mut BufferPlaneVec, entry: (usize, u32))
    requires
        plane_entries(*old(table)).len() < DEFAULT_MAX_VIDEO_PLANES,
    ensures
        plane_entries(*final(table)) == plane_entries(*old(table)).push(entry),
{
    table.entries.push(entry)
}

/// Calls `smallvec::SmallVec::as_slice`: the entries, in order.
#[verifier::external_body]
pub(crate) fn plane_table_slice(table: &BufferPlaneVec) -> (entries: &[(usize, u32)])
    ensures
        entries@ == plane_entries(*table),
{
    table.entries.as_slice()
}

impl BufferPlaneVec {
    /// The number of entries.
    pub fn len(&self) -> (n: usize)
        ensures
            n == self@.len(),
    {
        plane_table_slice(self).len()
    }

    /// The entries as a vector, first plane first.
    pub fn to_vec(&self) -> (r: Vec<(usize, u32)>)
        ensures
            r@ == self@,
    {
        let entries = plane_table_slice(self);
        let mut copy: Vec<(usize, u32)> = Vec::with_capacity(entries.len());
        let mut i: usize = 0;
        while i < entries.len()
            invariant
                i <= entries@.len(),
                entries@ == self@,
                copy@ == self@.subrange(0, i as int),
            decreases entries@.len() - i,
        {
            copy.push(entries[i]);
            assert(self@.subrange(0, i as int).push(self@[i as int]) =~= self@.subrange(
                0,
                i + 1,
            ));
            i = i + 1;
        }
        assert(self@.subrange(0, i as int) =~= self@);
        copy
    }
}

} // verus!
