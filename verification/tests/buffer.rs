use drawing::resources::buffer::{BackedBuffer, Batch, IndexedBatch, Upload};
use drawing::resources::device::{BufferUsage, COPY_DST, INDEX, STORAGE, UNIFORM, VERTEX};

/// A device buffer in host memory: it performs uploads on its bytes the way
/// a graphics queue would and lets a test read the records back.
struct HostDevice {
    identity: u32,
    usage: u32,
    bytes: Vec<u8>,
}

impl HostDevice {
    fn allocate(size: u64, usage: BufferUsage) -> Self {
        HostDevice { identity: 0, usage: usage.bits(), bytes: vec![0xAA; size as usize] }
    }

    fn size(&self) -> u64 {
        self.bytes.len() as u64
    }

    fn write(&mut self, offset: u64, data: &[u8]) {
        let start = offset as usize;
        assert!(start + data.len() <= self.bytes.len(), "a write stays inside the buffer");
        assert_eq!(self.usage & COPY_DST, COPY_DST, "the buffer accepts writes");
        self.bytes[start..start + data.len()].copy_from_slice(data);
    }

    fn perform<T: bytemuck::Pod>(&mut self, upload: Upload<'_, T>) {
        let stride = std::mem::size_of::<T>() as u64;
        match upload {
            Upload::Nothing => {}
            Upload::Write { first, offset, records } => {
                assert_eq!(offset, first as u64 * stride, "a write starts at a record boundary");
                self.write(offset, bytemuck::cast_slice(records));
            }
            Upload::Replace { size, usage, records } => {
                *self = HostDevice {
                    identity: self.identity + 1,
                    usage: usage.bits(),
                    bytes: vec![0xAA; size as usize],
                };
                self.write(0, bytemuck::cast_slice(records));
            }
        }
    }

    fn read_back<T: bytemuck::Pod>(&self, count: usize) -> Vec<T> {
        let stride = std::mem::size_of::<T>();
        (0..count)
            .map(|i| bytemuck::pod_read_unaligned(&self.bytes[i * stride..(i + 1) * stride]))
            .collect()
    }
}

fn storage() -> BufferUsage {
    BufferUsage::from_bits(STORAGE)
}

#[test]
fn capacity_sixteen_then_seventeen_records() {
    let mut buffer: BackedBuffer<u64> = BackedBuffer::with_capacity(16, storage());
    assert_eq!(buffer.byte_capacity(), 128);
    assert_eq!(buffer.usage().bits(), STORAGE | COPY_DST);
    assert_eq!(buffer.version(), 0);
    assert_eq!(buffer.len(), 0);

    let mut batch = buffer.batch();
    batch.push(11);
    match batch.commit() {
        Upload::Write { first, offset, records } => {
            assert_eq!(first, 0);
            assert_eq!(offset, 0);
            assert_eq!(records, &[11u64]);
            assert_eq!(bytemuck::cast_slice::<u64, u8>(records).len(), 8);
        }
        _ => panic!("one record within capacity is a partial write"),
    }
    assert_eq!(buffer.version(), 0);
    assert_eq!(buffer.len(), 1);
    assert_eq!(buffer.byte_capacity(), 128);

    let mut batch = buffer.batch();
    for i in 0..16u64 {
        batch.push(100 + i);
    }
    let size = match batch.commit() {
        Upload::Replace { size, usage, records } => {
            assert!(size >= 17 * 8);
            assert_eq!(usage.bits(), STORAGE | COPY_DST);
            assert_eq!(records.len(), 17);
            assert_eq!(records[0], 11);
            assert_eq!(records[1], 100);
            assert_eq!(records[16], 115);
            size
        }
        _ => panic!("seventeen records outgrow a capacity of sixteen"),
    };
    assert_eq!(buffer.version(), 1);
    assert_eq!(buffer.len(), 17);
    assert_eq!(buffer.byte_capacity(), size);
}

#[test]
fn commit_with_capacity_writes_in_place_up_to_the_device_size() {
    let mut buffer: BackedBuffer<u32> = BackedBuffer::with_capacity(4, storage());
    let mut batch = buffer.batch();
    batch.push(1).push(2).push(3).push(4);
    match batch.commit_with_capacity(4) {
        Upload::Write { first, offset, records } => {
            assert_eq!((first, offset), (0, 0));
            assert_eq!(records, &[1, 2, 3, 4]);
        }
        _ => panic!("four records fit a device buffer of four"),
    }
    assert_eq!(buffer.version(), 0);
    assert_eq!(buffer.byte_capacity(), 16);
    assert!(buffer.is_synced());
}

#[test]
fn commit_with_capacity_replaces_at_the_reserved_size() {
    let mut buffer: BackedBuffer<u32> = BackedBuffer::with_capacity(4, storage());
    let mut batch = buffer.batch();
    batch.push(1).push(2);
    assert!(matches!(batch.commit_with_capacity(4), Upload::Write { first: 0, offset: 0, .. }));

    let mut batch = buffer.batch();
    batch.push(3).push(4).push(5);
    match batch.commit_with_capacity(8) {
        Upload::Replace { size, usage, records } => {
            assert_eq!(size, 32);
            assert_eq!(usage.bits(), STORAGE | COPY_DST);
            assert_eq!(records, &[1, 2, 3, 4, 5]);
        }
        _ => panic!("storage for eight records outgrows a device buffer of four"),
    }
    assert_eq!(buffer.version(), 1);
    assert_eq!(buffer.byte_capacity(), 32);
    assert_eq!(buffer.len(), 5);
}

#[test]
fn partial_write_starts_behind_the_records_already_there() {
    let mut buffer: BackedBuffer<u64> = BackedBuffer::with_capacity(8, storage());
    let mut batch = buffer.batch();
    batch.push(10).push(20).push(30);
    let _ = batch.commit_with_capacity(8);

    let mut batch = buffer.batch();
    assert_eq!(batch.start_vertex, 3);
    batch.push(40).push(50);
    match batch.commit_with_capacity(8) {
        Upload::Write { first, offset, records } => {
            assert_eq!(first, 3);
            assert_eq!(offset, 24);
            assert_eq!(records, &[40, 50]);
        }
        _ => panic!("five records fit a device buffer of eight"),
    }
    assert_eq!(buffer.version(), 0);
    assert_eq!(buffer.records(), &[10, 20, 30, 40, 50]);
}

#[test]
fn device_holds_the_mirror_after_every_commit() {
    let mut buffer: BackedBuffer<u64> = BackedBuffer::with_capacity(2, storage());
    let mut device = HostDevice::allocate(buffer.byte_capacity(), buffer.usage());
    let mut next = 0u64;
    for round in 0..12usize {
        let mut batch = buffer.batch();
        for _ in 0..round {
            batch.push(next * next + 1);
            next += 1;
        }
        device.perform(batch.commit());
        let len = buffer.len() as usize;
        assert_eq!(device.read_back::<u64>(len), buffer.records());
        assert_eq!(device.identity, buffer.version());
        assert_eq!(device.size(), buffer.byte_capacity());
        assert!(buffer.is_synced());
    }
    assert_eq!(buffer.len(), 66);
}

#[test]
fn device_holds_the_mirror_for_records_of_other_sizes() {
    let mut bytes: BackedBuffer<u8> = BackedBuffer::with_capacity(3, storage());
    let mut byte_device = HostDevice::allocate(bytes.byte_capacity(), bytes.usage());
    let mut pairs: BackedBuffer<[u32; 2]> = BackedBuffer::with_capacity(1, storage());
    let mut pair_device = HostDevice::allocate(pairs.byte_capacity(), pairs.usage());
    for round in 0..20u32 {
        let mut batch = bytes.batch();
        batch.push(round as u8).push(255 - round as u8);
        byte_device.perform(batch.commit());
        assert_eq!(byte_device.read_back::<u8>(bytes.len() as usize), bytes.records());

        let mut batch = pairs.batch();
        batch.push([round, round + 1]);
        pair_device.perform(batch.commit());
        assert_eq!(pair_device.read_back::<[u32; 2]>(pairs.len() as usize), pairs.records());
    }
    assert_eq!(bytes.len(), 40);
    assert_eq!(pairs.len(), 20);
}

#[test]
fn version_rises_by_one_with_each_replacement_and_never_falls() {
    let mut buffer: BackedBuffer<u32> = BackedBuffer::with_capacity(1, storage());
    let mut seen = buffer.version();
    let mut replacements = 0;
    for round in 0..40u32 {
        let mut batch = buffer.batch();
        if round % 3 != 0 {
            batch.push(round);
        }
        let replaced = batch.commit().reallocates();
        let version = buffer.version();
        if replaced {
            replacements += 1;
            assert_eq!(version, seen + 1);
        } else {
            assert_eq!(version, seen);
        }
        seen = version;

        let before = buffer.version();
        let _ = buffer.update(|records| {
            if let Some(first) = records.first_mut() {
                *first += 1;
            }
        });
        assert_eq!(buffer.version(), before);
    }
    assert_eq!(buffer.version(), replacements);
    assert!(replacements >= 1);
}

#[test]
fn batch_without_a_push_changes_nothing() {
    let mut buffer: BackedBuffer<u64> = BackedBuffer::with_data(vec![5, 6, 7], storage());
    let mut device = HostDevice::allocate(buffer.byte_capacity(), buffer.usage());
    device.write(0, bytemuck::cast_slice(buffer.records()));

    let batch = buffer.batch();
    let upload = batch.commit();
    assert!(matches!(upload, Upload::Nothing));
    device.perform(upload);
    assert_eq!(buffer.version(), 0);
    assert_eq!(buffer.len(), 3);
    assert_eq!(buffer.byte_capacity(), 24);
    assert_eq!(device.identity, 0);
    assert_eq!(device.read_back::<u64>(3), vec![5, 6, 7]);

    let batch = Batch::new(&mut buffer);
    assert!(matches!(batch.commit_with_capacity(1000), Upload::Nothing));
    assert_eq!(buffer.version(), 0);
    assert_eq!(buffer.byte_capacity(), 24);
}

#[test]
fn one_record_past_the_capacity_is_one_replacement() {
    let capacity = 5u64;
    let mut buffer: BackedBuffer<u64> = BackedBuffer::with_capacity(capacity, storage());
    let mut batch = buffer.batch();
    for i in 0..=capacity {
        batch.push(i);
    }
    let size = match batch.commit() {
        Upload::Replace { size, records, .. } => {
            assert_eq!(records.len() as u64, capacity + 1);
            assert!(size >= (capacity + 1) * 8);
            size
        }
        _ => panic!("six records outgrow a capacity of five"),
    };
    assert_eq!(buffer.version(), 1);

    let room = size / 8;
    if room > capacity + 1 {
        let mut batch = buffer.batch();
        batch.push(99);
        match batch.commit() {
            Upload::Write { first, offset, records } => {
                assert_eq!(first as u64, capacity + 1);
                assert_eq!(offset, (capacity + 1) * 8);
                assert_eq!(records, &[99]);
            }
            _ => panic!("a record within the new capacity is written in place"),
        }
        assert_eq!(buffer.version(), 1);
        assert_eq!(buffer.byte_capacity(), size);
    }
}

#[test]
fn one_record_past_the_capacity_with_given_storage() {
    let mut buffer: BackedBuffer<u16> = BackedBuffer::with_capacity(3, storage());
    let mut batch = buffer.batch();
    batch.push(1).push(2).push(3).push(4);
    match batch.commit_with_capacity(6) {
        Upload::Replace { size, records, .. } => {
            assert_eq!(size, 12);
            assert_eq!(records, &[1, 2, 3, 4]);
        }
        _ => panic!("four records outgrow a capacity of three"),
    }
    assert_eq!(buffer.version(), 1);

    let mut batch = buffer.batch();
    batch.push(5);
    match batch.commit_with_capacity(6) {
        Upload::Write { first, offset, records } => {
            assert_eq!((first, offset), (4, 8));
            assert_eq!(records, &[5]);
        }
        _ => panic!("five records fit storage for six"),
    }
    assert_eq!(buffer.version(), 1);
    assert_eq!(buffer.byte_capacity(), 12);
}

#[test]
fn two_lines_index_their_four_vertices_in_push_order() {
    let mut vertices: BackedBuffer<(i32, i32)> =
        BackedBuffer::with_capacity(8, BufferUsage::from_bits(VERTEX));
    let mut indices: BackedBuffer<u32> = BackedBuffer::with_capacity(8, BufferUsage::from_bits(INDEX));
    let mut batch = vertices.batch_indexed(&mut indices);
    assert_eq!(batch.start_index, 0);
    batch.line((0, 0), (1, 1)).line((2, 2), (3, 3));
    let (vertex_upload, index_upload) = batch.commit();
    match vertex_upload {
        Upload::Write { first, offset, records } => {
            assert_eq!((first, offset), (0, 0));
            assert_eq!(records, &[(0, 0), (1, 1), (2, 2), (3, 3)]);
        }
        _ => panic!("four vertices fit a capacity of eight"),
    }
    match index_upload {
        Upload::Write { first, offset, records } => {
            assert_eq!((first, offset), (0, 0));
            assert_eq!(records, &[0, 1, 2, 3]);
        }
        _ => panic!("four indices fit a capacity of eight"),
    }
    assert_eq!(indices.records(), &[0, 1, 2, 3]);
    assert_eq!(vertices.len(), 4);
    assert_eq!(indices.len(), 4);

    let mut batch = IndexedBatch::new(&mut vertices, &mut indices);
    batch.vertex((4, 4));
    let (vertex_upload, index_upload) = batch.commit();
    assert!(matches!(vertex_upload, Upload::Write { first: 4, offset: 32, .. }));
    assert!(matches!(index_upload, Upload::Write { first: 4, offset: 16, .. }));
    assert_eq!(indices.records(), &[0, 1, 2, 3, 4]);
}

#[test]
fn index_buffer_is_replaced_on_its_own_account() {
    let mut vertices: BackedBuffer<u64> = BackedBuffer::with_capacity(16, BufferUsage::from_bits(VERTEX));
    let mut indices: BackedBuffer<u32> = BackedBuffer::with_capacity(2, BufferUsage::from_bits(INDEX));
    let mut batch = vertices.batch_indexed(&mut indices);
    batch.line(7, 8).line(9, 10);
    let (vertex_upload, index_upload) = batch.commit_with_capacity(16, 4);
    assert!(matches!(vertex_upload, Upload::Write { first: 0, offset: 0, .. }));
    match index_upload {
        Upload::Replace { size, usage, records } => {
            assert_eq!(size, 16);
            assert_eq!(usage.bits(), INDEX | COPY_DST);
            assert_eq!(records, &[0, 1, 2, 3]);
        }
        _ => panic!("four indices outgrow a capacity of two"),
    }
    assert_eq!(vertices.version(), 0);
    assert_eq!(indices.version(), 1);

    let mut small: BackedBuffer<u64> = BackedBuffer::with_capacity(1, BufferUsage::from_bits(VERTEX));
    let mut wide: BackedBuffer<u32> = BackedBuffer::with_capacity(64, BufferUsage::from_bits(INDEX));
    let mut batch = small.batch_indexed(&mut wide);
    batch.line(1, 2);
    let (vertex_upload, index_upload) = batch.commit_with_capacity(2, 64);
    assert!(matches!(vertex_upload, Upload::Replace { size: 16, .. }));
    assert!(matches!(index_upload, Upload::Write { first: 0, offset: 0, .. }));
    assert_eq!(small.version(), 1);
    assert_eq!(wide.version(), 0);
}

#[test]
fn with_data_mirrors_the_records_at_their_exact_size() {
    let buffer: BackedBuffer<u32> = BackedBuffer::with_data(vec![9, 8, 7], BufferUsage::from_bits(UNIFORM));
    assert_eq!(buffer.len(), 3);
    assert_eq!(buffer.version(), 0);
    assert_eq!(buffer.byte_capacity(), 12);
    assert_eq!(buffer.usage().bits(), UNIFORM | COPY_DST);
    assert_eq!(buffer.records(), &[9, 8, 7]);
    assert!(buffer.is_synced());

    let empty: BackedBuffer<u32> = BackedBuffer::with_data(Vec::new(), storage());
    assert_eq!(empty.len(), 0);
    assert_eq!(empty.byte_capacity(), 0);
}

#[test]
fn capacity_zero_is_an_empty_device_buffer_that_the_first_record_replaces() {
    let mut buffer: BackedBuffer<u64> = BackedBuffer::with_capacity(0, storage());
    assert_eq!(buffer.byte_capacity(), 0);
    assert_eq!(buffer.len(), 0);
    assert!(buffer.is_synced());
    assert!(matches!(buffer.batch().commit(), Upload::Nothing));

    let mut batch = buffer.batch();
    batch.push(1);
    match batch.commit() {
        Upload::Replace { size, records, .. } => {
            assert!(size >= 8);
            assert_eq!(records, &[1]);
        }
        _ => panic!("any record outgrows an empty device buffer"),
    }
    assert_eq!(buffer.version(), 1);
}

#[test]
fn update_rewrites_the_whole_mirror_in_place() {
    let mut buffer: BackedBuffer<u32> = BackedBuffer::with_data(vec![1, 2, 3], storage());
    let mut device = HostDevice::allocate(buffer.byte_capacity(), buffer.usage());
    device.write(0, bytemuck::cast_slice(buffer.records()));

    let upload = buffer.update(|records| records[1] = 20);
    match &upload {
        Upload::Write { first, offset, records } => {
            assert_eq!((*first, *offset), (0, 0));
            assert_eq!(*records, &[1, 20, 3]);
        }
        _ => panic!("an update writes in place"),
    }
    device.perform(upload);
    assert_eq!(buffer.records(), &[1, 20, 3]);
    assert_eq!(buffer.version(), 0);
    assert_eq!(buffer.len(), 3);
    assert_eq!(buffer.byte_capacity(), 12);
    assert_eq!(device.read_back::<u32>(3), vec![1, 20, 3]);
    assert_eq!(device.identity, 0);
}

#[test]
fn buffer_is_out_of_sync_until_the_batch_is_committed() {
    let mut buffer: BackedBuffer<u32> = BackedBuffer::with_capacity(4, storage());
    {
        let mut batch = buffer.batch();
        batch.push(1);
    }
    assert!(!buffer.is_synced());
    assert_eq!(buffer.len(), 1);
}

#[test]
fn records_of_size_zero_never_outgrow_the_device_buffer() {
    let mut buffer: BackedBuffer<()> = BackedBuffer::with_capacity(2, storage());
    assert_eq!(buffer.byte_capacity(), 0);
    let mut batch = buffer.batch();
    batch.push(()).push(()).push(());
    match batch.commit() {
        Upload::Write { first, offset, records } => {
            assert_eq!((first, offset), (0, 0));
            assert_eq!(records.len(), 3);
        }
        _ => panic!("records without bytes take no room"),
    }
    assert_eq!(buffer.version(), 0);
    assert_eq!(buffer.len(), 3);
}

#[test]
fn upload_says_whether_it_reallocates() {
    let records = [1u32, 2];
    assert!(!Upload::<u32>::Nothing.reallocates());
    assert!(!Upload::Write { first: 0, offset: 0, records: &records }.reallocates());
    assert!(Upload::Replace { size: 8, usage: storage(), records: &records }.reallocates());
}

#[test]
fn try_with_capacity_refuses_what_does_not_fit_the_address_space() {
    let buffer = BackedBuffer::<u64>::try_with_capacity(16, storage()).expect("128 bytes fit");
    assert_eq!(buffer.byte_capacity(), 128);
    assert_eq!(buffer.usage().bits(), STORAGE | COPY_DST);
    assert_eq!(buffer.len(), 0);
    assert!(BackedBuffer::<u64>::try_with_capacity(u64::MAX, storage()).is_none());
    assert!(BackedBuffer::<u64>::try_with_capacity(isize::MAX as u64 / 8 + 1, storage()).is_none());
    assert!(BackedBuffer::<()>::try_with_capacity(1 << 40, storage()).is_some());
}

#[test]
fn update_uploads_what_an_abandoned_batch_left_behind() {
    let mut buffer: BackedBuffer<u32> = BackedBuffer::with_capacity(4, storage());
    let mut device = HostDevice::allocate(buffer.byte_capacity(), buffer.usage());
    {
        let mut batch = buffer.batch();
        batch.push(1).push(2);
    }
    assert!(!buffer.is_synced());
    assert!(buffer.has_room());
    device.perform(buffer.update(|records| records[0] = 9));
    assert!(buffer.is_synced());
    assert_eq!(device.read_back::<u32>(2), vec![9, 2]);
    assert_eq!(buffer.version(), 0);
}

#[test]
fn has_room_compares_the_mirror_with_the_device_buffer() {
    let mut buffer: BackedBuffer<u64> = BackedBuffer::with_capacity(2, storage());
    assert!(buffer.has_room());
    {
        let mut batch = buffer.batch();
        batch.push(1).push(2);
        assert!(batch.vertices.has_room());
        batch.push(3);
        assert!(!batch.vertices.has_room());
    }
    assert!(!buffer.has_room());
}
