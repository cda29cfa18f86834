//! What a device buffer is to this crate: a usage set, a byte size, an
//! identity that changes with every allocation, and the records written to it.
//!
//! Nothing here runs on a device. `DeviceImage` and `Transfer` are the
//! mathematical side of an upload: they say what a device buffer holds once
//! the upload has been performed on it.

use vstd::prelude::*;

verus! {

/// The buffer may be mapped for reading.
pub const MAP_READ: u32 = 0x001;

/// The buffer may be mapped for writing.
pub const MAP_WRITE: u32 = 0x002;

/// The buffer may be the source of a copy.
pub const COPY_SRC: u32 = 0x004;

/// The buffer may be the destination of a copy or of a queued write.
pub const COPY_DST: u32 = 0x008;

/// The buffer may be bound as an index buffer.
pub const INDEX: u32 = 0x010;

/// The buffer may be bound as a vertex buffer.
pub const VERTEX: u32 = 0x020;

/// The buffer may be bound as a uniform buffer.
pub const UNIFORM: u32 = 0x040;

/// The buffer may be bound as a storage buffer.
pub const STORAGE: u32 = 0x080;

/// The buffer may hold the arguments of indirect draws.
pub const INDIRECT: u32 = 0x100;

/// The buffer may receive resolved query results.
pub const QUERY_RESOLVE: u32 = 0x200;

/// A set of buffer usages, one bit per usage.
#[derive(Clone, Copy, Debug, PartialEq, Eq, Structural)]
pub struct BufferUsage {
    pub bits: u32,
}

impl BufferUsage {
    /// Every usage of `other` is one of `self`.
    pub open spec fn contains(self, other: BufferUsage) -> bool {
        self.bits & other.bits == other.bits
    }

    /// The usages of `self` together with those of `other`.
    pub open spec fn union(self, other: BufferUsage) -> BufferUsage {
        BufferUsage { bits: self.bits | other.bits }
    }

    /// The set that holds "destination of a copy" and nothing else.
    pub open spec fn copy_dst() -> BufferUsage {
        BufferUsage { bits: COPY_DST }
    }

    /// The set with exactly the usages whose bits are set in `bits`.
    pub fn from_bits(bits: u32) -> (usage: BufferUsage)
        ensures
            usage.bits == bits,
    {
        BufferUsage { bits }
    }

    /// The bits of the usages in the set.
    pub fn bits(self) -> (bits: u32)
        ensures
            bits == self.bits,
    {
        self.bits
    }

    /// The usages of `self` together with "destination of a copy".
    pub fn with_copy_dst(self) -> (usage: BufferUsage)
        ensures
            usage == self.union(BufferUsage::copy_dst()),
            usage.contains(BufferUsage::copy_dst()),
            usage.contains(self),
    {
        let given: u32 = self.bits;
        let bits: u32 = given | COPY_DST;
        assert((given | 0x008u32) & 0x008u32 == 0x008u32) by (bit_vector);
        assert((given | 0x008u32) & given == given) by (bit_vector);
        BufferUsage { bits }
    }
}

/// What one device buffer holds, record by record.
///
/// `generation` stands for the buffer's identity: two images with different
/// generations are different allocations. `contents` maps the position of
/// each record that has been written to the record; positions that were never
/// written are not in its domain.
pub struct DeviceImage<T> {
    pub generation: nat,
    pub size: nat,
    pub usage: BufferUsage,
    pub contents: Map<int, T>,
}

impl<T> DeviceImage<T> {
    /// A buffer of `size` bytes that nothing has been written to yet.
    pub open spec fn allocated(generation: nat, size: nat, usage: BufferUsage) -> DeviceImage<T> {
        DeviceImage { generation, size, usage, contents: Map::empty() }
    }

    /// The image after `records` have been written from position `first` on.
    pub open spec fn written(self, first: int, records: Seq<T>) -> DeviceImage<T> {
        DeviceImage {
            contents: Map::new(
                |i: int| first <= i < first + records.len() || self.contents.dom().contains(i),
                |i: int|
                    if first <= i < first + records.len() {
                        records[i - first]
                    } else {
                        self.contents[i]
                    },
            ),
            ..self
        }
    }

    /// The first `records.len()` positions hold exactly `records`.
    pub open spec fn holds(self, records: Seq<T>) -> bool {
        forall|i: int|
            #![trigger records[i]]
            #![trigger self.contents.dom().contains(i)]
            0 <= i < records.len() ==> self.contents.dom().contains(i) && self.contents[i]
                == records[i]
    }

    /// The records at the first `count` positions, as a read of the buffer
    /// would return them.
    pub open spec fn read_back(self, count: nat) -> Seq<T> {
        Seq::new(count, |i: int| self.contents[i])
    }
}

/// An upload, as the records and numbers it carries.
pub enum Transfer<T> {
    /// Nothing is sent; the device buffer stays as it is.
    Nothing,
    /// `records` go into the existing buffer from record position `first` on,
    /// which is byte `offset`.
    Write { first: nat, offset: nat, records: Seq<T> },
    /// A new buffer of `size` bytes takes the place of the old one and
    /// receives `records` from its start.
    Replace { size: nat, usage: BufferUsage, records: Seq<T> },
}

impl<T> Transfer<T> {
    /// The size of one record in bytes.
    pub open spec fn record_size() -> nat {
        vstd::layout::size_of::<T>()
    }

    /// The upload allocates a new device buffer.
    pub open spec fn reallocates(self) -> bool {
        self is Replace
    }

    /// The number of bytes the upload sends.
    pub open spec fn byte_len(self) -> nat {
        match self {
            Transfer::Nothing => 0,
            Transfer::Write { records, .. } => records.len() * Self::record_size(),
            Transfer::Replace { records, .. } => records.len() * Self::record_size(),
        }
    }

    /// The upload can be performed on `device`: a write lies at a record
    /// boundary, inside the buffer, and the buffer accepts writes; a
    /// replacement is large enough for the records it carries.
    pub open spec fn fits(self, device: DeviceImage<T>) -> bool {
        match self {
            Transfer::Nothing => true,
            Transfer::Write { first, offset, .. } => {
                &&& offset == first * Self::record_size()
                &&& offset + self.byte_len() <= device.size
                &&& device.usage.contains(BufferUsage::copy_dst())
            },
            Transfer::Replace { size, usage, .. } => {
                &&& self.byte_len() <= size
                &&& usage.contains(BufferUsage::copy_dst())
            },
        }
    }

    /// The device buffer after the upload has been performed on `device`.
    pub open spec fn apply(self, device: DeviceImage<T>) -> DeviceImage<T> {
        match self {
            Transfer::Nothing => device,
            Transfer::Write { first, records, .. } => device.written(first as int, records),
            Transfer::Replace { size, usage, records } => DeviceImage::allocated(
                device.generation + 1,
                size,
                usage,
            ).written(0, records),
        }
    }
}

/// A read of the first `records.len()` records of a buffer that holds
/// `records` returns `records`.
pub proof fn lemma_read_back_of_held<T>(device: DeviceImage<T>, records: Seq<T>)
    requires
        device.holds(records),
    ensures
        device.read_back(records.len()) == records,
{
    assert(device.read_back(records.len()) =~= records);
}

/// Writing `records` behind a prefix the buffer already holds extends what it
/// holds by `records`.
pub proof fn lemma_written_extends<T>(device: DeviceImage<T>, prefix: Seq<T>, records: Seq<T>)
    requires
        device.holds(prefix),
    ensures
        device.written(prefix.len() as int, records).holds(prefix + records),
{
    let after = device.written(prefix.len() as int, records);
    let all = prefix + records;
    assert forall|i: int| 0 <= i < all.len() implies #[trigger] after.contents.dom().contains(i)
        && after.contents[i] == all[i] by {
        if i < prefix.len() {
            assert(all[i] == prefix[i]);
        } else {
            assert(all[i] == records[i - prefix.len()]);
        }
    }
}

} // verus!
