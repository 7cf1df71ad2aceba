use rs_wgpu_learn::command::{Command, CommandEncoder};
use rs_wgpu_learn::error::GpuError;
use rs_wgpu_learn::pipeline::{storage_layout, BindingLayoutEntry, ComputePipelineDescriptor};
use rs_wgpu_learn::shader::WorkgroupSize;
use rs_wgpu_learn::transfer::{
    allocate_readback, bind_storage, bytes_of_word, bytes_to_words, copy_to_readback,
    dispatch_compute, read_back, upload, word_from_bytes, words_to_bytes, workgroup_count,
    advance_mapping, can_dispatch, BindGroup, BufferUsage, MapAction, MapEvent, MapState,
};

fn bits(values: &[f32]) -> Vec<u32> {
    values.iter().map(|v| v.to_bits()).collect()
}

fn floats(words: &[u32]) -> Vec<f32> {
    words.iter().map(|w| f32::from_bits(*w)).collect()
}

fn kernel() -> ComputePipelineDescriptor {
    ComputePipelineDescriptor {
        entry: "main".to_string(),
        workgroup_size: WorkgroupSize { x: 1, y: 1, z: 1 },
        layout: storage_layout(),
    }
}

/// Stands in for the device: applies `transform` to each element of the
/// bytes that were written to the storage buffer.
fn run_on_host(written: &[u8], transform: fn(f32) -> f32) -> Vec<u8> {
    let words = bytes_to_words(&written.to_vec()).unwrap();
    let out: Vec<u32> = words.iter().map(|w| transform(f32::from_bits(*w)).to_bits()).collect();
    words_to_bytes(&out)
}

#[test]
fn word_bytes_are_little_endian() {
    assert_eq!(bytes_of_word(0x0403_0201), [1, 2, 3, 4]);
    assert_eq!(bytes_of_word(0), [0, 0, 0, 0]);
    assert_eq!(bytes_of_word(u32::MAX), [255, 255, 255, 255]);
    assert_eq!(bytes_of_word(256), [0, 1, 0, 0]);
    assert_eq!(bytes_of_word(1.0f32.to_bits()), [0x00, 0x00, 0x80, 0x3f]);
    assert_eq!(bytes_of_word(0xdead_beef), 0xdead_beefu32.to_le_bytes());
    assert_eq!(word_from_bytes(1, 2, 3, 4), 0x0403_0201);
    assert_eq!(word_from_bytes(255, 255, 255, 255), u32::MAX);
    assert_eq!(word_from_bytes(0x00, 0x00, 0x80, 0x3f), 1.0f32.to_bits());
}

#[test]
fn words_and_bytes_round_trip() {
    let words = vec![0u32, 1, 255, 256, 65535, 65536, 0x0102_0304, u32::MAX];
    let bytes = words_to_bytes(&words);
    assert_eq!(bytes.len(), 32);
    assert_eq!(&bytes[24..28], &[4, 3, 2, 1]);
    assert_eq!(bytes_to_words(&bytes), Some(words));
    assert_eq!(words_to_bytes(&Vec::new()), Vec::<u8>::new());
    assert_eq!(bytes_to_words(&Vec::new()), Some(Vec::new()));
}

#[test]
fn ragged_bytes_are_no_words() {
    assert_eq!(bytes_to_words(&vec![1]), None);
    assert_eq!(bytes_to_words(&vec![1, 2, 3]), None);
    assert_eq!(bytes_to_words(&vec![1, 2, 3, 4, 5]), None);
    assert_eq!(bytes_to_words(&vec![1, 2, 3, 4]), Some(vec![0x0403_0201]));
}

#[test]
fn upload_sizes_the_buffer_to_the_input() {
    let input = bits(&[1.0, 2.0, 3.0, 4.0]);
    let (buffer, bytes) = upload(&input);
    assert_eq!(buffer.size(), 16);
    assert_eq!(
        buffer.usage(),
        BufferUsage { storage: true, copy_src: true, copy_dst: true, map_read: false }
    );
    assert_eq!(bytes.len(), 16);
    assert_eq!(&bytes[0..4], &1.0f32.to_le_bytes());
    assert_eq!(&bytes[12..16], &4.0f32.to_le_bytes());
    let (empty, bytes) = upload(&Vec::new());
    assert_eq!(empty.size(), 0);
    assert!(bytes.is_empty());
}

#[test]
fn readback_buffer_has_the_size_asked_for() {
    let buffer = allocate_readback(16);
    assert_eq!(buffer.size(), 16);
    assert_eq!(
        buffer.usage(),
        BufferUsage { storage: false, copy_src: false, copy_dst: true, map_read: true }
    );
    assert_eq!(allocate_readback(0).size(), 0);
    assert_eq!(allocate_readback(u64::MAX).size(), u64::MAX);
}

#[test]
fn bind_storage_takes_storage_buffers_only() {
    let layout = storage_layout();
    let (storage, _) = upload(&bits(&[1.0, 2.0]));
    assert_eq!(bind_storage(&layout[0], &storage), Some(BindGroup { binding: 0, buffer_size: 8 }));
    assert_eq!(bind_storage(&layout[0], &allocate_readback(8)), None);
    let constrained = BindingLayoutEntry { min_binding_size: Some(16), ..layout[0] };
    assert_eq!(bind_storage(&constrained, &storage), None);
}

#[test]
fn one_workgroup_for_each_element() {
    assert_eq!(workgroup_count(&vec![0; 4]), Some(4));
    assert_eq!(workgroup_count(&vec![0; 1]), Some(1));
    assert_eq!(workgroup_count(&Vec::new()), None);
    assert_eq!(workgroup_count(&vec![0; 65535]), Some(65535));
    assert_eq!(workgroup_count(&vec![0; 65536]), None);
}

#[test]
fn dispatch_has_to_fit_kernel_and_data() {
    let group = BindGroup { binding: 0, buffer_size: 16 };
    assert!(can_dispatch(&kernel(), &group, 4));
    assert!(can_dispatch(&kernel(), &group, 3));
    assert!(can_dispatch(&kernel(), &group, 0));
    assert!(!can_dispatch(&kernel(), &group, 5));
    assert!(!can_dispatch(&kernel(), &group, 7));
    assert!(!can_dispatch(&kernel(), &BindGroup { binding: 1, buffer_size: 16 }, 4));
    let large = BindGroup { binding: 0, buffer_size: u64::MAX };
    assert!(can_dispatch(&kernel(), &large, 65535));
    assert!(!can_dispatch(&kernel(), &large, 65536));
    for (x, y, z) in [(2, 1, 1), (1, 2, 1), (1, 1, 2), (64, 1, 1), (0, 0, 0)] {
        let wide = ComputePipelineDescriptor { workgroup_size: WorkgroupSize { x, y, z }, ..kernel() };
        assert!(!can_dispatch(&wide, &group, 4));
    }
    let unbound = ComputePipelineDescriptor { layout: Vec::new(), ..kernel() };
    assert!(!can_dispatch(&unbound, &group, 4));
    let read_only = BindingLayoutEntry {
        kind: rs_wgpu_learn::pipeline::BindingKind::StorageBuffer { read_only: true },
        ..storage_layout()[0]
    };
    let other = ComputePipelineDescriptor { layout: vec![read_only], ..kernel() };
    assert!(!can_dispatch(&other, &group, 4));
    let twice = ComputePipelineDescriptor {
        layout: vec![storage_layout()[0], storage_layout()[0]],
        ..kernel()
    };
    assert!(!can_dispatch(&twice, &group, 4));
}

#[test]
fn dispatch_records_one_compute_pass() {
    let group = BindGroup { binding: 0, buffer_size: 16 };
    assert!(can_dispatch(&kernel(), &group, 4));
    let buffer = dispatch_compute(&kernel(), &group, 4);
    assert_eq!(buffer.len(), 1);
    assert_eq!(
        buffer.get(0),
        Some(Command::ComputePass {
            bind_group_index: 0,
            workgroups_x: 4,
            workgroups_y: 1,
            workgroups_z: 1,
        })
    );
    assert_eq!(buffer.get(1), None);
}

#[test]
fn copy_of_equal_sizes_is_recorded() {
    let (src, _) = upload(&bits(&[1.0, 2.0, 3.0, 4.0]));
    let dst = allocate_readback(16);
    let mut encoder = CommandEncoder::new();
    assert_eq!(copy_to_readback(&mut encoder, &src, &dst), Ok(()));
    let buffer = encoder.finish();
    assert_eq!(buffer.len(), 1);
    assert_eq!(buffer.get(0), Some(Command::CopyBuffer { size: 16 }));
}

#[test]
fn copy_of_mismatched_sizes_fails() {
    let (src, _) = upload(&bits(&[1.0, 2.0, 3.0, 4.0]));
    for size in [0u64, 4, 12, 15, 17, 20, 32, u64::MAX] {
        let dst = allocate_readback(size);
        let mut encoder = CommandEncoder::new();
        assert_eq!(copy_to_readback(&mut encoder, &src, &dst), Err(GpuError::SizeMismatch));
        assert_eq!(encoder.finish().len(), 0);
    }
}

#[test]
fn later_jobs_may_follow_a_failed_copy() {
    let (src, _) = upload(&bits(&[1.0, 2.0]));
    let mut encoder = CommandEncoder::new();
    assert_eq!(
        copy_to_readback(&mut encoder, &src, &allocate_readback(4)),
        Err(GpuError::SizeMismatch)
    );
    assert_eq!(copy_to_readback(&mut encoder, &src, &allocate_readback(8)), Ok(()));
    let buffer = encoder.finish();
    assert_eq!(buffer.len(), 1);
    assert_eq!(buffer.get(0), Some(Command::CopyBuffer { size: 8 }));
}

#[test]
fn read_back_reports_a_failed_mapping() {
    let buffer = allocate_readback(16);
    assert_eq!(read_back(&buffer, None), Err(GpuError::MapFailed));
    let (storage, bytes) = upload(&bits(&[1.0]));
    assert_eq!(read_back(&storage, Some(&bytes)), Err(GpuError::MapFailed));
    assert_eq!(read_back(&storage, None), Err(GpuError::MapFailed));
}

#[test]
fn read_back_wants_the_whole_buffer() {
    let buffer = allocate_readback(8);
    assert_eq!(read_back(&buffer, Some(&vec![0; 4])), Err(GpuError::SizeMismatch));
    assert_eq!(read_back(&buffer, Some(&vec![0; 12])), Err(GpuError::SizeMismatch));
    assert_eq!(read_back(&buffer, Some(&vec![0; 8])), Ok(vec![0, 0]));
    let ragged = allocate_readback(6);
    assert_eq!(read_back(&ragged, Some(&vec![0; 6])), Err(GpuError::SizeMismatch));
    assert_eq!(read_back(&allocate_readback(0), Some(&Vec::new())), Ok(Vec::new()));
}

#[test]
fn doubling_kernel_doubles_each_element() {
    let input = bits(&[1.0, 2.0, 3.0, 4.0]);
    let (storage, written) = upload(&input);
    let readback = allocate_readback(storage.size());
    let group = bind_storage(&storage_layout()[0], &storage).unwrap();
    let count = workgroup_count(&input).unwrap();
    assert_eq!(count, 4);
    assert!(can_dispatch(&kernel(), &group, count));
    let pass = dispatch_compute(&kernel(), &group, count);
    assert_eq!(pass.len(), 1);
    let mut encoder = CommandEncoder::new();
    assert_eq!(copy_to_readback(&mut encoder, &storage, &readback), Ok(()));
    let mapped = run_on_host(&written, |x| x * 2.0);
    let words = read_back(&readback, Some(&mapped)).unwrap();
    assert_eq!(floats(&words), vec![2.0, 4.0, 6.0, 8.0]);
}

#[test]
fn identity_kernel_returns_the_input() {
    for n in [1usize, 2, 3, 7, 64, 1000] {
        let input: Vec<u32> = (0..n).map(|i| (i as f32 * 0.5 - 3.0).to_bits()).collect();
        let (storage, written) = upload(&input);
        assert_eq!(storage.size(), 4 * n as u64);
        let readback = allocate_readback(storage.size());
        let mut encoder = CommandEncoder::new();
        assert_eq!(copy_to_readback(&mut encoder, &storage, &readback), Ok(()));
        let mapped = run_on_host(&written, |x| x);
        let words = read_back(&readback, Some(&mapped)).unwrap();
        assert_eq!(words.len(), n);
        assert_eq!(words, input);
    }
}

#[test]
fn mapping_is_waited_for_before_the_range_is_read() {
    let (state, action) = advance_mapping(MapState::Unmapped, MapEvent::Begin);
    assert_eq!((state, action), (MapState::Pending, MapAction::MapAndWait));
    assert_eq!(
        advance_mapping(state, MapEvent::RangeCopied),
        (MapState::Pending, MapAction::Ignore)
    );
    let (state, action) = advance_mapping(state, MapEvent::Completed);
    assert_eq!((state, action), (MapState::Mapped, MapAction::CopyRange));
    let (state, action) = advance_mapping(state, MapEvent::RangeCopied);
    assert_eq!((state, action), (MapState::Unmapped, MapAction::Unmap));
}

#[test]
fn mapping_error_gives_map_failed() {
    let (state, _) = advance_mapping(MapState::Unmapped, MapEvent::Begin);
    assert_eq!(
        advance_mapping(state, MapEvent::Errored),
        (MapState::Unmapped, MapAction::Abort(GpuError::MapFailed))
    );
    assert_eq!(
        advance_mapping(MapState::Unmapped, MapEvent::Errored),
        (MapState::Unmapped, MapAction::Ignore)
    );
    assert_eq!(
        advance_mapping(MapState::Unmapped, MapEvent::Completed),
        (MapState::Unmapped, MapAction::Ignore)
    );
    assert_eq!(
        advance_mapping(MapState::Mapped, MapEvent::Begin),
        (MapState::Mapped, MapAction::Ignore)
    );
}
