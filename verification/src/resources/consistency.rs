//! What holds between a mirror and its device buffer, whatever is appended
//! and however the allocator sizes the mirror's storage.
//!
//! Every statement here is about the models that the contracts of
//! `BackedBuffer`, `Batch` and `IndexedBatch` are written in, so it holds of
//! every run of those functions whose uploads the caller performs.

use super::buffer::{BufferModel, IndexedModel};
use super::device::{BufferUsage, DeviceImage, Transfer};
use vstd::prelude::*;

verus! {

/// One operation on a backed buffer.
pub enum Step<T> {
    /// A record is appended to the mirror.
    Push { value: T },
    /// An open batch is committed while the mirror has storage for
    /// `capacity` records.
    Commit { capacity: nat },
    /// The mirror is rewritten in place to hold `records`.
    Rewrite { records: Seq<T> },
}

impl<T> BufferModel<T> {
    /// The buffer after `step`.
    pub open spec fn step(self, step: Step<T>) -> BufferModel<T> {
        match step {
            Step::Push { value } => self.push(value),
            Step::Commit { capacity } => self.commit(capacity),
            Step::Rewrite { records } => self.rewritten(records),
        }
    }

    /// Whether `step` replaces the device buffer.
    pub open spec fn replaces(self, step: Step<T>) -> bool {
        match step {
            Step::Commit { capacity } => self.upload(capacity).reallocates(),
            _ => false,
        }
    }

    /// Whether `step` may be taken: a push leaves the number of records
    /// countable in 32 bits, a commit comes with storage that has room for
    /// the records, and a rewrite finds room for the mirror in the device
    /// buffer and keeps the number of records.
    pub open spec fn admits(self, step: Step<T>) -> bool {
        match step {
            Step::Push { .. } => self.records.len() < u32::MAX,
            Step::Commit { capacity } => self.records.len() <= capacity,
            Step::Rewrite { records } => self.fits_device() && records.len()
                == self.records.len(),
        }
    }

    /// The upload that `step` hands to the caller.
    pub open spec fn transfer(self, step: Step<T>) -> Transfer<T> {
        match step {
            Step::Push { .. } => Transfer::Nothing,
            Step::Commit { capacity } => self.upload(capacity),
            Step::Rewrite { records } => self.rewritten(records).refresh(),
        }
    }

    /// The buffer after all of `steps`, first to last.
    pub open spec fn run(self, steps: Seq<Step<T>>) -> BufferModel<T>
        decreases steps.len(),
    {
        if steps.len() == 0 {
            self
        } else {
            self.run(steps.drop_last()).step(steps.last())
        }
    }

    /// Each of `steps` may be taken in the state it finds.
    pub open spec fn admits_all(self, steps: Seq<Step<T>>) -> bool
        decreases steps.len(),
    {
        steps.len() == 0 || (self.admits_all(steps.drop_last()) && self.run(
            steps.drop_last(),
        ).admits(steps.last()))
    }

    /// The device buffer after the uploads of all of `steps` have been
    /// performed on `device`, first to last.
    pub open spec fn device_after(self, device: DeviceImage<T>, steps: Seq<Step<T>>)
        -> DeviceImage<T>
        decreases steps.len(),
    {
        if steps.len() == 0 {
            device
        } else {
            self.run(steps.drop_last()).transfer(steps.last()).apply(
                self.device_after(device, steps.drop_last()),
            )
        }
    }

    /// How many of `steps` replace the device buffer.
    pub open spec fn replacements(self, steps: Seq<Step<T>>) -> nat
        decreases steps.len(),
    {
        if steps.len() == 0 {
            0
        } else {
            let before = self.replacements(steps.drop_last());
            if self.run(steps.drop_last()).replaces(steps.last()) {
                before + 1
            } else {
                before
            }
        }
    }
}

/// A freshly constructed buffer is mirrored by the device buffer that its
/// caller allocates for it, and is well formed as long as its records can be
/// counted in 32 bits.
pub proof fn lemma_constructed_is_mirrored<T>(capacity: nat, records: Seq<T>, usage: BufferUsage)
    requires
        records.len() <= u32::MAX,
    ensures
        BufferModel::<T>::with_capacity(capacity, usage).wf(),
        BufferModel::<T>::with_capacity(capacity, usage).is_synced(),
        BufferModel::<T>::with_capacity(capacity, usage).mirrored_by(
            BufferModel::<T>::with_capacity(capacity, usage).initial_device(),
        ),
        BufferModel::<T>::with_data(records, usage).wf(),
        BufferModel::<T>::with_data(records, usage).is_synced(),
        BufferModel::<T>::with_data(records, usage).mirrored_by(
            BufferModel::<T>::with_data(records, usage).initial_device(),
        ),
        BufferModel::<T>::with_data(records, usage).initial_device().read_back(records.len())
            == records,
{
    let given: u32 = usage.bits;
    assert((given | 0x008u32) & 0x008u32 == 0x008u32) by (bit_vector);
    let empty = BufferModel::<T>::with_capacity(capacity, usage);
    assert(empty.records.take(0) =~= Seq::<T>::empty());
    assert(0 * BufferModel::<T>::record_size() == 0);
    let full = BufferModel::<T>::with_data(records, usage);
    assert(full.records.take(full.synced as int) =~= records);
    super::device::lemma_written_extends(
        DeviceImage::<T>::allocated(0, full.device_size, full.usage),
        Seq::<T>::empty(),
        records,
    );
    assert(Seq::<T>::empty() + records =~= records);
    super::device::lemma_read_back_of_held(full.initial_device(), records);
}

/// Committing brings the device buffer up to date: the upload can be
/// performed on the device buffer as it is, and once it has been, the device
/// buffer mirrors every record, so that reading its first `len` records back
/// gives the mirror.
pub proof fn lemma_commit_restores_mirror<T>(
    buffer: BufferModel<T>,
    device: DeviceImage<T>,
    capacity: nat,
)
    requires
        buffer.wf(),
        buffer.mirrored_by(device),
        buffer.records.len() <= capacity,
    ensures
        buffer.upload(capacity).fits(device),
        buffer.commit(capacity).wf(),
        buffer.commit(capacity).is_synced(),
        buffer.commit(capacity).records == buffer.records,
        buffer.commit(capacity).mirrored_by(buffer.upload(capacity).apply(device)),
        buffer.upload(capacity).apply(device).read_back(buffer.records.len()) == buffer.records,
{
    let size = BufferModel::<T>::record_size();
    let len = buffer.records.len();
    let after = buffer.commit(capacity);
    let sent = buffer.upload(capacity);
    let result = sent.apply(device);
    assert(len * size <= capacity * size) by (nonlinear_arith)
        requires
            len <= capacity,
    ;
    assert(buffer.synced * size + (len - buffer.synced) * size == len * size)
        by (nonlinear_arith);
    assert(after.records.take(after.synced as int) =~= buffer.records);
    if buffer.is_synced() {
        assert(buffer.records.take(buffer.synced as int) =~= buffer.records);
    } else if buffer.outgrown(capacity) {
        super::device::lemma_written_extends(
            DeviceImage::<T>::allocated(device.generation + 1, capacity * size, buffer.usage),
            Seq::<T>::empty(),
            buffer.records,
        );
        assert(Seq::<T>::empty() + buffer.records =~= buffer.records);
    } else {
        let held = buffer.records.take(buffer.synced as int);
        super::device::lemma_written_extends(device, held, buffer.pending());
        assert(held + buffer.pending() =~= buffer.records);
    }
    super::device::lemma_read_back_of_held(result, buffer.records);
}

/// The same of a commit whose storage is not known: whatever amount the
/// allocator had reserved, the upload fits the device buffer, leaves it
/// mirroring every record, and raises the version exactly if it replaces the
/// device buffer.
pub proof fn lemma_committed_restores_mirror<T>(
    buffer: BufferModel<T>,
    device: DeviceImage<T>,
    after: BufferModel<T>,
    sent: Transfer<T>,
)
    requires
        buffer.wf(),
        buffer.mirrored_by(device),
        buffer.committed_as(after, sent),
    ensures
        sent.fits(device),
        after.wf(),
        after.is_synced(),
        after.records == buffer.records,
        after.mirrored_by(sent.apply(device)),
        sent.apply(device).read_back(after.records.len()) == after.records,
        after.version == buffer.version + (if sent.reallocates() {
            1nat
        } else {
            0nat
        }),
        buffer.records.len() * BufferModel::<T>::record_size() > buffer.device_size
            ==> sent.reallocates(),
{
    let capacity = choose|capacity: nat|
        buffer.records.len() <= capacity && after == #[trigger] buffer.commit(capacity) && sent
            == buffer.upload(capacity);
    lemma_commit_restores_mirror(buffer, device, capacity);
    assert(buffer.records.len() * BufferModel::<T>::record_size() <= capacity * BufferModel::<
        T,
    >::record_size()) by (nonlinear_arith)
        requires
            buffer.records.len() <= capacity,
    ;
    if buffer.records.len() * BufferModel::<T>::record_size() > buffer.device_size {
        assert(buffer.synced * BufferModel::<T>::record_size() <= buffer.device_size);
        assert(!buffer.is_synced());
    }
}

/// Appending all of `values` is appending them one by one.
pub proof fn lemma_extend_is_repeated_push<T>(buffer: BufferModel<T>, values: Seq<T>, value: T)
    ensures
        buffer.extend(Seq::empty()) == buffer,
        buffer.extend(values.push(value)) == buffer.extend(values).push(value),
{
    assert(buffer.records + Seq::<T>::empty() =~= buffer.records);
    assert(buffer.records + values.push(value) =~= (buffer.records + values).push(value));
}

/// Whatever a batch appends to a buffer that was up to date, the upload of
/// its commit leaves the device buffer holding the whole mirror: the records
/// from before, then the appended ones, in order.
pub proof fn lemma_batch_restores_mirror<T>(
    buffer: BufferModel<T>,
    device: DeviceImage<T>,
    values: Seq<T>,
    capacity: nat,
)
    requires
        buffer.wf(),
        buffer.is_synced(),
        buffer.mirrored_by(device),
        buffer.records.len() + values.len() <= u32::MAX,
        buffer.records.len() + values.len() <= capacity,
    ensures
        ({
            let filled = buffer.extend(values);
            let after = filled.commit(capacity);
            let result = filled.upload(capacity).apply(device);
            &&& filled.upload(capacity).fits(device)
            &&& after.wf()
            &&& after.is_synced()
            &&& after.records == buffer.records + values
            &&& after.mirrored_by(result)
            &&& result.read_back(after.records.len()) == after.records
        }),
{
    let filled = buffer.extend(values);
    assert(filled.records.take(filled.synced as int) =~= buffer.records.take(
        buffer.synced as int,
    ));
    lemma_commit_restores_mirror(filled, device, capacity);
}

/// Rewriting the mirror in place leaves the device buffer holding the new
/// records, as long as there are as many as before and the device buffer has
/// room for them.
pub proof fn lemma_rewrite_restores_mirror<T>(
    buffer: BufferModel<T>,
    device: DeviceImage<T>,
    records: Seq<T>,
)
    requires
        buffer.wf(),
        buffer.fits_device(),
        buffer.mirrored_by(device),
        records.len() == buffer.records.len(),
    ensures
        buffer.rewritten(records).refresh().fits(device),
        buffer.rewritten(records).wf(),
        buffer.rewritten(records).is_synced(),
        buffer.rewritten(records).version == buffer.version,
        buffer.rewritten(records).mirrored_by(buffer.rewritten(records).refresh().apply(device)),
{
    let after = buffer.rewritten(records);
    assert(0 * BufferModel::<T>::record_size() == 0);
    assert(after.records.take(after.synced as int) =~= records);
    super::device::lemma_written_extends(device, Seq::<T>::empty(), records);
    assert(Seq::<T>::empty() + records =~= records);
}

/// Through any sequence of steps the device buffer keeps mirroring the
/// buffer: every upload can be performed on the device buffer as the uploads
/// before it left it, the device buffer then holds the records counted as
/// synced, and whenever the buffer is up to date, which it is after every
/// commit, reading its records back from the device buffer gives the mirror.
pub proof fn lemma_mirror_is_kept<T>(
    buffer: BufferModel<T>,
    device: DeviceImage<T>,
    steps: Seq<Step<T>>,
)
    requires
        buffer.wf(),
        buffer.mirrored_by(device),
        buffer.admits_all(steps),
    ensures
        buffer.run(steps).wf(),
        buffer.run(steps).mirrored_by(buffer.device_after(device, steps)),
        buffer.run(steps).is_synced() ==> buffer.device_after(device, steps).read_back(
            buffer.run(steps).records.len(),
        ) == buffer.run(steps).records,
        steps.len() > 0 ==> buffer.run(steps.drop_last()).transfer(steps.last()).fits(
            buffer.device_after(device, steps.drop_last()),
        ),
        steps.len() > 0 && steps.last() is Commit ==> buffer.run(steps).is_synced(),
    decreases steps.len(),
{
    let after = buffer.run(steps);
    let held = buffer.device_after(device, steps);
    if steps.len() > 0 {
        let before = buffer.run(steps.drop_last());
        let had = buffer.device_after(device, steps.drop_last());
        lemma_mirror_is_kept(buffer, device, steps.drop_last());
        match steps.last() {
            Step::Push { value } => {
                assert(after.records.take(after.synced as int) =~= before.records.take(
                    before.synced as int,
                ));
            },
            Step::Commit { capacity } => {
                lemma_commit_restores_mirror(before, had, capacity);
            },
            Step::Rewrite { records } => {
                lemma_rewrite_restores_mirror(before, had, records);
            },
        }
    }
    if after.is_synced() {
        assert(after.records.take(after.synced as int) =~= after.records);
        super::device::lemma_read_back_of_held(held, after.records);
    }
}

/// The version goes up by one with a commit that replaces the device buffer
/// and stays what it was with every other step; the identity of the device
/// buffer changes with exactly the same steps.
pub proof fn lemma_step_version<T>(buffer: BufferModel<T>, device: DeviceImage<T>, step: Step<T>)
    ensures
        buffer.step(step).version == buffer.version + (if buffer.replaces(step) {
            1nat
        } else {
            0nat
        }),
        buffer.transfer(step).apply(device).generation == device.generation + (if buffer.replaces(
            step,
        ) {
            1nat
        } else {
            0nat
        }),
{
}

/// Over any sequence of steps the version rises by the number of steps that
/// replace the device buffer.
pub proof fn lemma_version_counts_replacements<T>(buffer: BufferModel<T>, steps: Seq<Step<T>>)
    ensures
        buffer.run(steps).version == buffer.version + buffer.replacements(steps),
    decreases steps.len(),
{
    if steps.len() > 0 {
        lemma_version_counts_replacements(buffer, steps.drop_last());
    }
}

/// The version never goes down: after more steps it is at least what it was
/// after fewer.
pub proof fn lemma_version_never_decreases<T>(
    buffer: BufferModel<T>,
    steps: Seq<Step<T>>,
    earlier: int,
)
    requires
        0 <= earlier <= steps.len(),
    ensures
        buffer.run(steps.take(earlier)).version <= buffer.run(steps).version,
    decreases steps.len(),
{
    if earlier == steps.len() {
        assert(steps.take(earlier) =~= steps);
    } else {
        lemma_version_never_decreases(buffer, steps.drop_last(), earlier);
        assert(steps.drop_last().take(earlier) =~= steps.take(earlier));
    }
}

/// A batch that is committed without a push changes nothing: no upload, the
/// same records, the same version, the same device buffer.
pub proof fn lemma_empty_batch_changes_nothing<T>(
    buffer: BufferModel<T>,
    device: DeviceImage<T>,
    capacity: nat,
)
    requires
        buffer.is_synced(),
    ensures
        buffer.upload(capacity) == Transfer::<T>::Nothing,
        buffer.commit(capacity) == buffer,
        buffer.upload(capacity).apply(device) == device,
{
}

/// Growth is paid for once. When a batch fills a buffer whose device buffer
/// has room for `room` records to one record more than that, its commit
/// replaces the device buffer by one with room for all of them; a further
/// record that still fits the mirror's storage is then written in place.
pub proof fn lemma_growth_is_paid_once<T>(
    buffer: BufferModel<T>,
    room: nat,
    values: Seq<T>,
    capacity: nat,
    next: T,
)
    requires
        BufferModel::<T>::record_size() > 0,
        buffer.wf(),
        buffer.is_synced(),
        buffer.device_size == room * BufferModel::<T>::record_size(),
        buffer.records.len() + values.len() == room + 1,
        room + 2 <= capacity,
    ensures
        ({
            let filled = buffer.extend(values);
            let grown = filled.commit(capacity);
            let one_more = grown.push(next);
            &&& filled.upload(capacity) == Transfer::Replace {
                size: capacity * BufferModel::<T>::record_size(),
                usage: buffer.usage,
                records: buffer.records + values,
            }
            &&& grown.version == buffer.version + 1
            &&& grown.device_size >= (room + 1) * BufferModel::<T>::record_size()
            &&& one_more.upload(capacity) == Transfer::Write {
                first: room + 1,
                offset: (room + 1) * BufferModel::<T>::record_size(),
                records: seq![next],
            }
            &&& one_more.commit(capacity).version == grown.version
            &&& one_more.commit(capacity).device_size == grown.device_size
        }),
{
    let size = BufferModel::<T>::record_size();
    let filled = buffer.extend(values);
    let grown = filled.commit(capacity);
    let one_more = grown.push(next);
    assert(room * size < capacity * size && (room + 1) * size <= capacity * size)
        by (nonlinear_arith)
        requires
            size > 0,
            room + 2 <= capacity,
    ;
    assert(values.len() > 0) by (nonlinear_arith)
        requires
            size > 0,
            buffer.synced * size <= room * size,
            buffer.synced + values.len() == room + 1,
    ;
    assert(one_more.pending() =~= seq![next]);
}

/// The indices that a run of vertices gets are the positions the vertices
/// got, in push order: the number of vertices before the run, and up from
/// there.
pub open spec fn positions(first: nat, count: nat) -> Seq<u32> {
    Seq::new(count, |i: int| (first + i) as u32)
}

impl<T> IndexedModel<T> {
    /// The pair after each of `values` has been appended as a vertex.
    pub open spec fn extend(self, values: Seq<T>) -> IndexedModel<T>
        decreases values.len(),
    {
        if values.len() == 0 {
            self
        } else {
            self.extend(values.drop_last()).vertex(values.last())
        }
    }
}

/// After any run of vertices the vertex mirror has gained the vertices and
/// the index mirror their positions, both in push order, and neither device
/// buffer has been touched.
pub proof fn lemma_indices_are_positions<T>(pair: IndexedModel<T>, values: Seq<T>)
    ensures
        pair.extend(values).vertices == pair.vertices.extend(values),
        pair.extend(values).indices == pair.indices.extend(
            positions(pair.vertices.records.len(), values.len()),
        ),
        forall|i: int|
            0 <= i < values.len() && pair.vertices.records.len() + i <= u32::MAX ==> #[trigger] positions(
                pair.vertices.records.len(),
                values.len(),
            )[i] == pair.vertices.records.len() + i,
    decreases values.len(),
{
    let first = pair.vertices.records.len();
    if values.len() == 0 {
        assert(pair.vertices.records + values =~= pair.vertices.records);
        assert(pair.indices.records + positions(first, 0) =~= pair.indices.records);
    } else {
        let front = values.drop_last();
        lemma_indices_are_positions(pair, front);
        assert(pair.vertices.records + values =~= (pair.vertices.records + front).push(
            values.last(),
        ));
        assert(pair.indices.records + positions(first, values.len()) =~= (pair.indices.records
            + positions(first, front.len())).push((first + front.len()) as u32));
    }
}

/// Two lines are four vertices, and their indices are the four positions.
pub proof fn lemma_two_lines<T>(pair: IndexedModel<T>, v0: T, v1: T, v2: T, v3: T)
    ensures
        pair.line(v0, v1).line(v2, v3) == pair.extend(seq![v0, v1, v2, v3]),
        pair.line(v0, v1).line(v2, v3).vertices.records == pair.vertices.records + seq![
            v0,
            v1,
            v2,
            v3,
        ],
        pair.line(v0, v1).line(v2, v3).indices.records == pair.indices.records + seq![
            pair.vertices.records.len() as u32,
            (pair.vertices.records.len() + 1) as u32,
            (pair.vertices.records.len() + 2) as u32,
            (pair.vertices.records.len() + 3) as u32,
        ],
{
    let all = seq![v0, v1, v2, v3];
    assert(all.drop_last() =~= seq![v0, v1, v2]);
    assert(all.drop_last().drop_last() =~= seq![v0, v1]);
    assert(all.drop_last().drop_last().drop_last() =~= seq![v0]);
    assert(all.drop_last().drop_last().drop_last().drop_last() =~= Seq::<T>::empty());
    reveal_with_fuel(IndexedModel::extend, 5);
    assert(pair.line(v0, v1).line(v2, v3) == pair.extend(all));
    lemma_indices_are_positions(pair, all);
    let first = pair.vertices.records.len();
    assert(positions(first, 4) =~= seq![
        first as u32,
        (first + 1) as u32,
        (first + 2) as u32,
        (first + 3) as u32,
    ]);
}

/// Each buffer of an indexed batch is committed on its own account: what
/// happens to the index buffer depends on the index buffer alone, and what
/// happens to the vertex buffer on the vertex buffer alone.
pub proof fn lemma_commits_are_independent<T>(
    one: IndexedModel<T>,
    other: IndexedModel<T>,
    one_vertex_capacity: nat,
    other_vertex_capacity: nat,
    one_index_capacity: nat,
    other_index_capacity: nat,
)
    ensures
        one.indices == other.indices && one_index_capacity == other_index_capacity ==> one.commit(
            one_vertex_capacity,
            one_index_capacity,
        ).indices == other.commit(other_vertex_capacity, other_index_capacity).indices
            && one.uploads(one_vertex_capacity, one_index_capacity).1 == other.uploads(
            other_vertex_capacity,
            other_index_capacity,
        ).1,
        one.vertices == other.vertices && one_vertex_capacity == other_vertex_capacity
            ==> one.commit(one_vertex_capacity, one_index_capacity).vertices == other.commit(
            other_vertex_capacity,
            other_index_capacity,
        ).vertices && one.uploads(one_vertex_capacity, one_index_capacity).0 == other.uploads(
            other_vertex_capacity,
            other_index_capacity,
        ).0,
{
}

} // verus!
