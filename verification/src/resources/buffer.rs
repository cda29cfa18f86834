//! The host mirror of a device buffer.
//!
//! A `BackedBuffer` owns the records that a device buffer is meant to hold
//! and remembers how large that device buffer is, how often it has been
//! replaced, and how many of the leading records it already holds. Records
//! are appended through a `Batch`; committing the batch yields the one
//! `Upload` that brings the device buffer up to date.

use super::device::{BufferUsage, DeviceImage, Transfer};
use vstd::layout::size_of;
use vstd::prelude::*;
use vstd::slice::slice_subrange;

verus! {

/// A backed buffer as contracts see it.
pub struct BufferModel<T> {
    /// The host mirror, in insertion order.
    pub records: Seq<T>,
    /// How many leading records the device buffer holds.
    pub synced: nat,
    /// The byte size of the device buffer.
    pub device_size: nat,
    /// The usages the device buffer was allocated with.
    pub usage: BufferUsage,
    /// How often the device buffer has been replaced.
    pub version: nat,
}

impl<T> BufferModel<T> {
    /// The size of one record in bytes.
    pub open spec fn record_size() -> nat {
        size_of::<T>()
    }

    /// The number of records fits the 32 bits it is reported in, the records
    /// counted as synced are records of the mirror and fit into the device
    /// buffer, and the device buffer accepts writes.
    pub open spec fn wf(self) -> bool {
        &&& self.synced <= self.records.len() <= u32::MAX
        &&& self.synced * Self::record_size() <= self.device_size
        &&& self.usage.contains(BufferUsage::copy_dst())
    }

    /// The device buffer holds every record of the mirror.
    pub open spec fn is_synced(self) -> bool {
        self.synced == self.records.len()
    }

    /// The device buffer has room for every record of the mirror.
    pub open spec fn fits_device(self) -> bool {
        self.records.len() * Self::record_size() <= self.device_size
    }

    /// The records the device buffer does not hold yet.
    pub open spec fn pending(self) -> Seq<T> {
        self.records.skip(self.synced as int)
    }

    /// `device` is the device buffer of this mirror: it has the recorded
    /// size, usages and identity, and holds the records counted as synced.
    pub open spec fn mirrored_by(self, device: DeviceImage<T>) -> bool {
        &&& device.generation == self.version
        &&& device.size == self.device_size
        &&& device.usage == self.usage
        &&& device.holds(self.records.take(self.synced as int))
    }

    /// An empty mirror over a device buffer with room for `capacity` records.
    pub open spec fn with_capacity(capacity: nat, usage: BufferUsage) -> BufferModel<T> {
        BufferModel {
            records: Seq::empty(),
            synced: 0,
            device_size: capacity * Self::record_size(),
            usage: usage.union(BufferUsage::copy_dst()),
            version: 0,
        }
    }

    /// A mirror of `records` over a device buffer that holds exactly them.
    pub open spec fn with_data(records: Seq<T>, usage: BufferUsage) -> BufferModel<T> {
        BufferModel {
            records,
            synced: records.len(),
            device_size: records.len() * Self::record_size(),
            usage: usage.union(BufferUsage::copy_dst()),
            version: 0,
        }
    }

    /// The device buffer that a freshly constructed mirror stands for.
    pub open spec fn initial_device(self) -> DeviceImage<T> {
        DeviceImage::allocated(self.version, self.device_size, self.usage).written(
            0,
            self.records.take(self.synced as int),
        )
    }

    /// The mirror with `value` appended; the device buffer is not touched.
    pub open spec fn push(self, value: T) -> BufferModel<T> {
        BufferModel { records: self.records.push(value), ..self }
    }

    /// The mirror with all of `values` appended, in order.
    pub open spec fn extend(self, values: Seq<T>) -> BufferModel<T> {
        BufferModel { records: self.records + values, ..self }
    }

    /// Storage reserved for `capacity` records takes more bytes than the
    /// device buffer has.
    pub open spec fn outgrown(self, capacity: nat) -> bool {
        capacity * Self::record_size() > self.device_size
    }

    /// The upload that brings the device buffer up to date when the mirror
    /// has storage reserved for `capacity` records.
    pub open spec fn upload(self, capacity: nat) -> Transfer<T> {
        if self.is_synced() {
            Transfer::Nothing
        } else if self.outgrown(capacity) {
            Transfer::Replace {
                size: capacity * Self::record_size(),
                usage: self.usage,
                records: self.records,
            }
        } else {
            Transfer::Write {
                first: self.synced,
                offset: self.synced * Self::record_size(),
                records: self.pending(),
            }
        }
    }

    /// The state after that upload: every record counts as synced, and a
    /// replacement has raised the size and the version.
    pub open spec fn commit(self, capacity: nat) -> BufferModel<T> {
        if self.is_synced() {
            self
        } else if self.outgrown(capacity) {
            BufferModel {
                synced: self.records.len(),
                device_size: capacity * Self::record_size(),
                version: self.version + 1,
                ..self
            }
        } else {
            BufferModel { synced: self.records.len(), ..self }
        }
    }

    /// `after` and `sent` are the state and the upload of a commit of this
    /// buffer, for some amount of storage that has room for its records.
    pub open spec fn committed_as(self, after: BufferModel<T>, sent: Transfer<T>) -> bool {
        exists|capacity: nat|
            self.records.len() <= capacity && after == #[trigger] self.commit(capacity) && sent
                == self.upload(capacity)
    }

    /// The upload that rewrites the whole mirror in place.
    pub open spec fn refresh(self) -> Transfer<T> {
        Transfer::Write { first: 0, offset: 0, records: self.records }
    }

    /// The state after the mirror's records have been replaced by `records`
    /// and rewritten in place.
    pub open spec fn rewritten(self, records: Seq<T>) -> BufferModel<T> {
        BufferModel { records, synced: records.len(), ..self }
    }
}

/// A vertex buffer and the index buffer that is filled along with it, as
/// contracts see the pair.
pub struct IndexedModel<T> {
    pub vertices: BufferModel<T>,
    pub indices: BufferModel<u32>,
}

impl<T> IndexedModel<T> {
    /// Both buffers are well formed.
    pub open spec fn wf(self) -> bool {
        self.vertices.wf() && self.indices.wf()
    }

    /// The pair after `v` has been appended as a vertex: the index mirror
    /// gains the position that `v` got, the number of vertices before.
    pub open spec fn vertex(self, v: T) -> IndexedModel<T> {
        IndexedModel {
            vertices: self.vertices.push(v),
            indices: self.indices.push(self.vertices.records.len() as u32),
        }
    }

    /// The pair after the end points `a` and `b` of a line have been
    /// appended, in that order.
    pub open spec fn line(self, a: T, b: T) -> IndexedModel<T> {
        self.vertex(a).vertex(b)
    }

    /// The pair after each buffer has been committed against its own device
    /// buffer, with storage for `vertex_capacity` vertices and
    /// `index_capacity` indices.
    pub open spec fn commit(self, vertex_capacity: nat, index_capacity: nat) -> IndexedModel<T> {
        IndexedModel {
            vertices: self.vertices.commit(vertex_capacity),
            indices: self.indices.commit(index_capacity),
        }
    }

    /// The uploads of that commit: the first for the vertices, the second
    /// for the indices.
    pub open spec fn uploads(self, vertex_capacity: nat, index_capacity: nat) -> (
        Transfer<T>,
        Transfer<u32>,
    ) {
        (self.vertices.upload(vertex_capacity), self.indices.upload(index_capacity))
    }
}

/// What the caller has to do to the device buffer.
pub enum Upload<'a, T> {
    /// Nothing: the device buffer is up to date.
    Nothing,
    /// Write `records` into the existing device buffer at byte `offset`,
    /// which is where record number `first` begins.
    Write { first: usize, offset: u64, records: &'a [T] },
    /// Allocate a device buffer of `size` bytes with `usage`, write `records`
    /// at its start, and use it in place of the old one.
    Replace { size: u64, usage: BufferUsage, records: &'a [T] },
}

impl<'a, T> View for Upload<'a, T> {
    type V = Transfer<T>;

    open spec fn view(&self) -> Transfer<T> {
        match *self {
            Upload::Nothing => Transfer::Nothing,
            Upload::Write { first, offset, records } => Transfer::Write {
                first: first as nat,
                offset: offset as nat,
                records: records@,
            },
            Upload::Replace { size, usage, records } => Transfer::Replace {
                size: size as nat,
                usage,
                records: records@,
            },
        }
    }
}

impl<'a, T> Upload<'a, T> {
    /// Whether the upload allocates a new device buffer, so that whatever
    /// was bound to the old one has to be rebuilt.
    pub fn reallocates(&self) -> (yes: bool)
        ensures
            yes == self@.reallocates(),
    {
        match self {
            Upload::Replace { .. } => true,
            _ => false,
        }
    }
}

/// `Vec::capacity`, the number of records the vector can hold without
/// reallocating. Taken on trust from the standard library: that this is at
/// least the length of the vector, which it documents as `len` initialised
/// elements followed by `capacity - len` uninitialised ones; and that the
/// storage takes at most `isize::MAX` bytes, since it documents that
/// `with_capacity`, `reserve` and `push` panic rather than let the capacity
/// exceed `isize::MAX` bytes, and that elements of size zero take no storage.
#[verifier::external_body]
fn reserved_records<T>(records: &Vec<T>) -> (capacity: usize)
    ensures
        records@.len() <= capacity,
        capacity * size_of::<T>() <= isize::MAX,
{
    records.capacity()
}

/// A typed host mirror together with what is known of its device buffer.
pub struct BackedBuffer<T> {
    data: Vec<T>,
    synced: usize,
    device_size: u64,
    usage: BufferUsage,
    version: u32,
}

impl<T> View for BackedBuffer<T> {
    type V = BufferModel<T>;

    closed spec fn view(&self) -> BufferModel<T> {
        BufferModel {
            records: self.data@,
            synced: self.synced as nat,
            device_size: self.device_size as nat,
            usage: self.usage,
            version: self.version as nat,
        }
    }
}

impl<T: Copy> BackedBuffer<T> {
    /// The buffer's model is well formed.
    pub open spec fn wf(&self) -> bool {
        self@.wf()
    }

    /// An empty mirror for a device buffer of `capacity` records.
    ///
    /// The caller allocates that device buffer: `byte_capacity()` bytes with
    /// `usage()`. Nothing is uploaded.
    ///
    /// Storage for `capacity` records has to fit the address space. For the
    /// primitive record types `vstd::layout::layout_of_primitives` gives the
    /// size that this is measured with; `try_with_capacity` tests it at run
    /// time for any record type.
    pub fn with_capacity(capacity: u64, usage: BufferUsage) -> (buffer: Self)
        requires
            capacity <= usize::MAX,
            capacity * size_of::<T>() <= isize::MAX,
        ensures
            buffer.wf(),
            buffer@ == BufferModel::<T>::with_capacity(capacity as nat, usage),
    {
        let record_size = core::mem::size_of::<T>() as u64;
        let usage = usage.with_copy_dst();
        BackedBuffer {
            data: Vec::with_capacity(capacity as usize),
            synced: 0,
            device_size: capacity * record_size,
            usage,
            version: 0,
        }
    }

    /// `with_capacity`, for callers that do not know whether `capacity`
    /// records fit the address space: `None` where they do not.
    pub fn try_with_capacity(capacity: u64, usage: BufferUsage) -> (buffer: Option<Self>)
        ensures
            buffer is Some <==> capacity <= usize::MAX && capacity * size_of::<T>() <= isize::MAX,
            buffer matches Some(buffer) ==> buffer.wf() && buffer@ == BufferModel::<
                T,
            >::with_capacity(capacity as nat, usage),
    {
        let record_size = core::mem::size_of::<T>();
        assert(capacity * record_size <= 0xffff_ffff_ffff_ffff * 0xffff_ffff_ffff_ffff)
            by (nonlinear_arith)
            requires
                capacity <= 0xffff_ffff_ffff_ffff,
                record_size <= 0xffff_ffff_ffff_ffff,
        ;
        let bytes: u128 = capacity as u128 * record_size as u128;
        if capacity <= usize::MAX as u64 && bytes <= isize::MAX as u128 {
            Some(Self::with_capacity(capacity, usage))
        } else {
            None
        }
    }

    /// A mirror of `data` for a device buffer that holds exactly `data`.
    ///
    /// The caller allocates that device buffer, `byte_capacity()` bytes with
    /// `usage()`, and fills it with `records()`.
    pub fn with_data(data: Vec<T>, usage: BufferUsage) -> (buffer: Self)
        requires
            data@.len() <= u32::MAX,
        ensures
            buffer.wf(),
            buffer@ == BufferModel::<T>::with_data(data@, usage),
    {
        let len = data.len();
        let capacity = reserved_records(&data);
        let record_size = core::mem::size_of::<T>();
        proof {
            vstd::arithmetic::mul::lemma_mul_inequality(
                len as int,
                capacity as int,
                record_size as int,
            );
        }
        let usage = usage.with_copy_dst();
        BackedBuffer {
            data,
            synced: len,
            device_size: (len * record_size) as u64,
            usage,
            version: 0,
        }
    }

    /// The number of records in the mirror.
    pub fn len(&self) -> (len: u32)
        requires
            self.wf(),
        ensures
            len == self@.records.len(),
    {
        self.data.len() as u32
    }

    /// How often the device buffer has been replaced.
    pub fn version(&self) -> (version: u32)
        ensures
            version == self@.version,
    {
        self.version
    }

    /// The byte size of the device buffer.
    pub fn byte_capacity(&self) -> (size: u64)
        ensures
            size == self@.device_size,
    {
        self.device_size
    }

    /// The usages of the device buffer.
    pub fn usage(&self) -> (usage: BufferUsage)
        ensures
            usage == self@.usage,
    {
        self.usage
    }

    /// Whether the device buffer holds every record of the mirror.
    pub fn is_synced(&self) -> (synced: bool)
        ensures
            synced == self@.is_synced(),
    {
        self.synced == self.data.len()
    }

    /// Whether the device buffer has room for every record of the mirror.
    pub fn has_room(&self) -> (fits: bool)
        ensures
            fits == self@.fits_device(),
    {
        let len = self.data.len();
        let record_size = core::mem::size_of::<T>();
        assert(len * record_size <= 0xffff_ffff_ffff_ffff * 0xffff_ffff_ffff_ffff)
            by (nonlinear_arith)
            requires
                len <= 0xffff_ffff_ffff_ffff,
                record_size <= 0xffff_ffff_ffff_ffff,
        ;
        len as u128 * record_size as u128 <= self.device_size as u128
    }

    /// The records of the mirror.
    pub fn records(&self) -> (records: &[T])
        ensures
            records@ == self@.records,
    {
        self.data.as_slice()
    }

    /// Opens a batch of appends at the end of the mirror.
    ///
    /// The device buffer has to be up to date: a batch that was opened
    /// earlier has been committed.
    pub fn batch<'a>(&'a mut self) -> (batch: Batch<'a, T>)
        requires
            old(self).wf(),
            old(self)@.is_synced(),
        ensures
            batch.wf(),
            *batch.vertices == *old(self),
            batch.start_vertex == old(self)@.records.len(),
            *final(batch.vertices) == *final(self),
    {
        Batch::new(self)
    }

    /// Opens a batch that appends vertices to this buffer and, for each of
    /// them, its position to `indices`.
    pub fn batch_indexed<'a>(&'a mut self, indices: &'a mut BackedBuffer<u32>) -> (batch:
        IndexedBatch<'a, T>)
        requires
            old(self).wf(),
            old(self)@.is_synced(),
            old(indices).wf(),
            old(indices)@.is_synced(),
        ensures
            batch.wf(),
            *batch.batch.vertices == *old(self),
            *batch.indices == *old(indices),
            batch.batch.start_vertex == old(self)@.records.len(),
            batch.start_index == old(indices)@.records.len(),
            *final(batch.batch.vertices) == *final(self),
            *final(batch.indices) == *final(indices),
    {
        IndexedBatch::new(self, indices)
    }

    /// Lets `mutator` rewrite the records of the mirror in place and returns
    /// the upload that rewrites the device buffer from its start.
    ///
    /// The device buffer has to have room for the mirror, as it has whenever
    /// it is up to date. The number of records stays what it was, so the
    /// device buffer is neither outgrown nor replaced.
    pub fn update<'a, F: FnOnce(&mut [T])>(&'a mut self, mutator: F) -> (upload: Upload<'a, T>)
        requires
            old(self).wf(),
            old(self)@.fits_device(),
            forall|records: &mut [T]|
                records@ == old(self)@.records ==> call_requires(mutator, (records,)),
            forall|records: &mut [T]|
                call_ensures(mutator, (records,), ()) ==> final(records)@.len() == records@.len(),
        ensures
            final(self).wf(),
            final(self)@.records.len() == old(self)@.records.len(),
            final(self)@ == old(self)@.rewritten(final(self)@.records),
            upload@ == final(self)@.refresh(),
            exists|records: &mut [T]|
                records@ == old(self)@.records && final(records)@ == final(self)@.records
                    && #[trigger] call_ensures(mutator, (records,), ()),
    {
        mutator(self.data.as_mut_slice());
        self.synced = self.data.len();
        Upload::Write { first: 0, offset: 0, records: self.data.as_slice() }
    }

    /// Brings the bookkeeping up to date for a mirror whose storage has room
    /// for `capacity` records, and returns the upload that does the same to
    /// the device buffer.
    fn reconcile<'a>(&'a mut self, start: usize, capacity: usize) -> (upload: Upload<'a, T>)
        requires
            old(self).wf(),
            start == old(self)@.synced,
            old(self)@.records.len() <= capacity,
            capacity * size_of::<T>() <= u64::MAX,
            old(self)@.version < u32::MAX,
        ensures
            final(self).wf(),
            final(self)@ == old(self)@.commit(capacity as nat),
            upload@ == old(self)@.upload(capacity as nat),
    {
        let len = self.data.len();
        if start < len {
            let record_size = core::mem::size_of::<T>() as u64;
            let size: u64 = capacity as u64 * record_size;
            proof {
                vstd::arithmetic::mul::lemma_mul_inequality(
                    len as int,
                    capacity as int,
                    record_size as int,
                );
                vstd::arithmetic::mul::lemma_mul_inequality(
                    start as int,
                    len as int,
                    record_size as int,
                );
            }
            if size > self.device_size {
                self.device_size = size;
                self.version = self.version + 1;
                self.synced = len;
                Upload::Replace { size, usage: self.usage, records: self.data.as_slice() }
            } else {
                self.synced = len;
                let offset: u64 = start as u64 * record_size;
                let all = self.data.as_slice();
                let records = slice_subrange(all, start, len);
                assert(records@ == all@.skip(start as int));
                Upload::Write { first: start, offset, records }
            }
        } else {
            Upload::Nothing
        }
    }
}

/// An open batch of appends to one backed buffer.
///
/// Pushing changes the mirror only. `commit` ends the batch and yields the
/// upload for everything pushed since it was opened.
pub struct Batch<'a, T> {
    /// The buffer that receives the records.
    pub vertices: &'a mut BackedBuffer<T>,
    /// The length of the mirror when the batch was opened.
    pub start_vertex: usize,
}

impl<'a, T: Copy> Batch<'a, T> {
    /// The buffer is well formed and the device buffer holds exactly the
    /// records that were in the mirror when the batch was opened.
    pub open spec fn wf(&self) -> bool {
        &&& self.vertices.wf()
        &&& self.start_vertex == self.vertices@.synced
    }

    /// Opens a batch at the end of the mirror of `vertices`.
    pub fn new(vertices: &'a mut BackedBuffer<T>) -> (batch: Self)
        requires
            old(vertices).wf(),
            old(vertices)@.is_synced(),
        ensures
            batch.wf(),
            *batch.vertices == *old(vertices),
            batch.start_vertex == old(vertices)@.records.len(),
            *final(batch.vertices) == *final(vertices),
    {
        let start_vertex = vertices.data.len();
        Batch { vertices, start_vertex }
    }

    /// Appends `value` to the mirror.
    pub fn push(&mut self, value: T) -> (batch: &mut Self)
        requires
            old(self).wf(),
            old(self).vertices@.records.len() < u32::MAX,
        ensures
            batch.wf(),
            batch.vertices@ == old(self).vertices@.push(value),
            batch.start_vertex == old(self).start_vertex,
            *final(batch.vertices) == *final(old(self).vertices),
            *final(self) == *final(batch),
    {
        self.vertices.data.push(value);
        self
    }

    /// Ends the batch for a mirror whose storage has room for `capacity`
    /// records: the device buffer is replaced if that storage has outgrown
    /// it, and otherwise receives the pushed records behind those it holds.
    pub fn commit_with_capacity(self, capacity: usize) -> (upload: Upload<'a, T>)
        requires
            self.wf(),
            old(self.vertices)@.records.len() <= capacity,
            capacity * size_of::<T>() <= u64::MAX,
            old(self.vertices)@.version < u32::MAX,
        ensures
            final(self.vertices).wf(),
            final(self.vertices)@ == old(self.vertices)@.commit(capacity as nat),
            upload@ == old(self.vertices)@.upload(capacity as nat),
    {
        let Batch { vertices, start_vertex } = self;
        vertices.reconcile(start_vertex, capacity)
    }

    /// Ends the batch, judging the mirror by the storage it has reserved.
    ///
    /// How much that is rests with the allocator, so the contract says what
    /// holds for any amount that has room for the records.
    pub fn commit(self) -> (upload: Upload<'a, T>)
        requires
            self.wf(),
            old(self.vertices)@.version < u32::MAX,
        ensures
            final(self.vertices).wf(),
            final(self.vertices)@.is_synced(),
            final(self.vertices)@.records == old(self.vertices)@.records,
            final(self.vertices)@.version == old(self.vertices)@.version + (if upload@.reallocates() {
                1nat
            } else {
                0nat
            }),
            upload@ is Nothing <==> old(self.vertices)@.is_synced(),
            old(self.vertices)@.committed_as(final(self.vertices)@, upload@),
    {
        let Batch { vertices, start_vertex } = self;
        let capacity = reserved_records(&vertices.data);
        vertices.reconcile(start_vertex, capacity)
    }
}

/// An open batch that appends vertices to one backed buffer and, for each
/// vertex, its position to a second backed buffer of indices.
pub struct IndexedBatch<'a, T> {
    /// The buffer that receives the indices.
    pub indices: &'a mut BackedBuffer<u32>,
    /// The length of the index mirror when the batch was opened.
    pub start_index: usize,
    /// The batch that receives the vertices.
    pub batch: Batch<'a, T>,
}

impl<'a, T> View for IndexedBatch<'a, T> {
    type V = IndexedModel<T>;

    open spec fn view(&self) -> IndexedModel<T> {
        IndexedModel { vertices: self.batch.vertices@, indices: self.indices@ }
    }
}

impl<'a, T: Copy> IndexedBatch<'a, T> {
    /// Both halves are well formed, each against its own buffer.
    pub open spec fn wf(&self) -> bool {
        &&& self.batch.wf()
        &&& self.indices.wf()
        &&& self.start_index == self.indices@.synced
    }

    /// Opens a batch at the ends of the mirrors of `vertices` and `indices`.
    pub fn new(vertices: &'a mut BackedBuffer<T>, indices: &'a mut BackedBuffer<u32>) -> (batch:
        Self)
        requires
            old(vertices).wf(),
            old(vertices)@.is_synced(),
            old(indices).wf(),
            old(indices)@.is_synced(),
        ensures
            batch.wf(),
            *batch.batch.vertices == *old(vertices),
            *batch.indices == *old(indices),
            batch.batch.start_vertex == old(vertices)@.records.len(),
            batch.start_index == old(indices)@.records.len(),
            *final(batch.batch.vertices) == *final(vertices),
            *final(batch.indices) == *final(indices),
    {
        let start_index = indices.data.len();
        IndexedBatch { indices, start_index, batch: Batch::new(vertices) }
    }

    /// Appends `v` to the vertex mirror and the position it got there, the
    /// number of vertices before the call, to the index mirror.
    pub fn vertex(&mut self, v: T) -> (batch: &mut Self)
        requires
            old(self).wf(),
            old(self).batch.vertices@.records.len() < u32::MAX,
            old(self).indices@.records.len() < u32::MAX,
        ensures
            batch.wf(),
            batch@ == old(self)@.vertex(v),
            batch.batch.start_vertex == old(self).batch.start_vertex,
            batch.start_index == old(self).start_index,
            *final(batch.batch.vertices) == *final(old(self).batch.vertices),
            *final(batch.indices) == *final(old(self).indices),
            *final(self) == *final(batch),
    {
        let position = self.batch.vertices.len();
        self.indices.data.push(position);
        self.batch.push(v);
        self
    }

    /// Appends the two end points of a line: `a`, then `b`.
    pub fn line(&mut self, a: T, b: T) -> (batch: &mut Self)
        requires
            old(self).wf(),
            old(self).batch.vertices@.records.len() + 1 < u32::MAX,
            old(self).indices@.records.len() + 1 < u32::MAX,
        ensures
            batch.wf(),
            batch@ == old(self)@.line(a, b),
            batch.batch.start_vertex == old(self).batch.start_vertex,
            batch.start_index == old(self).start_index,
            *final(batch.batch.vertices) == *final(old(self).batch.vertices),
            *final(batch.indices) == *final(old(self).indices),
            *final(self) == *final(batch),
    {
        self.vertex(a);
        self.vertex(b);
        self
    }

    /// Ends the batch for mirrors whose storage has room for
    /// `vertex_capacity` vertices and `index_capacity` indices. Each buffer
    /// is judged against its own device buffer and gets its own upload: the
    /// first is for the vertices, the second for the indices.
    pub fn commit_with_capacity(self, vertex_capacity: usize, index_capacity: usize) -> (uploads: (
        Upload<'a, T>,
        Upload<'a, u32>,
    ))
        requires
            self.wf(),
            old(self.batch.vertices)@.records.len() <= vertex_capacity,
            vertex_capacity * size_of::<T>() <= u64::MAX,
            old(self.batch.vertices)@.version < u32::MAX,
            old(self.indices)@.records.len() <= index_capacity,
            index_capacity * size_of::<u32>() <= u64::MAX,
            old(self.indices)@.version < u32::MAX,
        ensures
            final(self.batch.vertices).wf(),
            final(self.batch.vertices)@ == old(self.batch.vertices)@.commit(vertex_capacity as nat),
            uploads.0@ == old(self.batch.vertices)@.upload(vertex_capacity as nat),
            final(self.indices).wf(),
            final(self.indices)@ == old(self.indices)@.commit(index_capacity as nat),
            uploads.1@ == old(self.indices)@.upload(index_capacity as nat),
    {
        let IndexedBatch { indices, start_index, batch } = self;
        let vertex_upload = batch.commit_with_capacity(vertex_capacity);
        let index_upload = indices.reconcile(start_index, index_capacity);
        (vertex_upload, index_upload)
    }

    /// Ends the batch, judging each mirror by the storage it has reserved.
    pub fn commit(self) -> (uploads: (Upload<'a, T>, Upload<'a, u32>))
        requires
            self.wf(),
            old(self.batch.vertices)@.version < u32::MAX,
            old(self.indices)@.version < u32::MAX,
        ensures
            final(self.batch.vertices).wf(),
            final(self.batch.vertices)@.is_synced(),
            final(self.batch.vertices)@.records == old(self.batch.vertices)@.records,
            old(self.batch.vertices)@.committed_as(final(self.batch.vertices)@, uploads.0@),
            final(self.indices).wf(),
            final(self.indices)@.is_synced(),
            final(self.indices)@.records == old(self.indices)@.records,
            old(self.indices)@.committed_as(final(self.indices)@, uploads.1@),
    {
        let IndexedBatch { indices, start_index, batch } = self;
        let vertex_upload = batch.commit();
        let index_capacity = reserved_records(&indices.data);
        let index_upload = indices.reconcile(start_index, index_capacity);
        (vertex_upload, index_upload)
    }
}

} // verus!
