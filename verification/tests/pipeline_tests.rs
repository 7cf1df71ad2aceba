use rs_wgpu_learn::device::{Acquisition, DeviceContext, NegotiationEvent, PowerPreference};
use rs_wgpu_learn::error::GpuError;
use rs_wgpu_learn::pipeline::{
    build_compute_pipeline, build_render_pipeline, storage_layout, BindingKind,
    BindingLayoutEntry, BlendMode, PipelineDescriptor, PrimitiveTopology,
};
use rs_wgpu_learn::shader::{find_sole_entry, has_entry, EntryPoint, ShaderStage, WorkgroupSize};
use rs_wgpu_learn::surface::TextureFormat;

fn context() -> DeviceContext {
    let (mut acquisition, _) = Acquisition::begin(PowerPreference::NoPreference, true);
    acquisition.advance(NegotiationEvent::AdapterFound);
    acquisition.advance(NegotiationEvent::DeviceGranted);
    acquisition.context().unwrap().unwrap()
}

fn entry(name: &str, stage: ShaderStage) -> EntryPoint {
    EntryPoint { name: name.to_string(), stage, workgroup_size: WorkgroupSize { x: 0, y: 0, z: 0 } }
}

fn kernel(name: &str, x: u32, y: u32, z: u32) -> EntryPoint {
    EntryPoint {
        name: name.to_string(),
        stage: ShaderStage::Compute,
        workgroup_size: WorkgroupSize { x, y, z },
    }
}

fn triangle() -> Option<Vec<EntryPoint>> {
    Some(vec![entry("vs", ShaderStage::Vertex), entry("fs", ShaderStage::Fragment)])
}

#[test]
fn has_entry_matches_name_and_stage() {
    let entries = vec![entry("vs", ShaderStage::Vertex), entry("fs", ShaderStage::Fragment)];
    assert!(has_entry(&entries, "vs", ShaderStage::Vertex));
    assert!(has_entry(&entries, "fs", ShaderStage::Fragment));
    assert!(!has_entry(&entries, "vs", ShaderStage::Fragment));
    assert!(!has_entry(&entries, "fs", ShaderStage::Vertex));
    assert!(!has_entry(&entries, "main", ShaderStage::Compute));
    assert!(!has_entry(&Vec::new(), "vs", ShaderStage::Vertex));
}

#[test]
fn find_sole_entry_wants_exactly_one() {
    let none = vec![entry("vs", ShaderStage::Vertex)];
    assert_eq!(find_sole_entry(&none, ShaderStage::Compute), None);
    let one = vec![entry("vs", ShaderStage::Vertex), kernel("kernel", 1, 1, 1)];
    assert_eq!(find_sole_entry(&one, ShaderStage::Compute), Some(1));
    assert_eq!(find_sole_entry(&one, ShaderStage::Vertex), Some(0));
    let two = vec![kernel("a", 1, 1, 1), kernel("b", 1, 1, 1)];
    assert_eq!(find_sole_entry(&two, ShaderStage::Compute), None);
    assert_eq!(find_sole_entry(&Vec::new(), ShaderStage::Compute), None);
}

#[test]
fn render_pipeline_draws_a_triangle_list() {
    let built = build_render_pipeline(&context(), TextureFormat::Bgra8UnormSrgb, &triangle());
    match built {
        Ok(PipelineDescriptor::Render(d)) => {
            assert_eq!(d.vertex_entry, "vs");
            assert_eq!(d.fragment_entry, "fs");
            assert_eq!(d.topology, PrimitiveTopology::TriangleList);
            assert_eq!(d.vertex_buffers, 0);
            assert_eq!(d.target.format, TextureFormat::Bgra8UnormSrgb);
            assert_eq!(d.target.blend, BlendMode::Replace);
            assert!(d.target.write_all_channels);
            assert!(!d.depth_stencil);
            assert_eq!(d.sample_count, 1);
        }
        _ => panic!("no render pipeline"),
    }
}

#[test]
fn render_pipeline_takes_the_surface_format() {
    for format in [TextureFormat::Rgba16Float, TextureFormat::Other(3)] {
        match build_render_pipeline(&context(), format, &triangle()) {
            Ok(PipelineDescriptor::Render(d)) => assert_eq!(d.target.format, format),
            _ => panic!("no render pipeline"),
        }
    }
}

#[test]
fn render_pipeline_needs_both_entry_points() {
    let vertex_only = Some(vec![entry("vs", ShaderStage::Vertex)]);
    let built = build_render_pipeline(&context(), TextureFormat::Bgra8Unorm, &vertex_only);
    assert!(matches!(built, Err(GpuError::ShaderCompilationError)));
    let kernel_only = Some(vec![kernel("main", 1, 1, 1)]);
    let built = build_render_pipeline(&context(), TextureFormat::Bgra8Unorm, &kernel_only);
    assert!(matches!(built, Err(GpuError::ShaderCompilationError)));
    let empty = Some(Vec::new());
    let built = build_render_pipeline(&context(), TextureFormat::Bgra8Unorm, &empty);
    assert!(matches!(built, Err(GpuError::ShaderCompilationError)));
}

#[test]
fn render_pipeline_rejects_a_shader_that_did_not_validate() {
    let built = build_render_pipeline(&context(), TextureFormat::Bgra8Unorm, &None);
    assert!(matches!(built, Err(GpuError::ShaderCompilationError)));
}

#[test]
fn render_pipeline_wants_the_stage_to_match() {
    let swapped = Some(vec![entry("vs", ShaderStage::Fragment), entry("fs", ShaderStage::Vertex)]);
    assert!(matches!(
        build_render_pipeline(&context(), TextureFormat::Bgra8Unorm, &swapped),
        Err(GpuError::ShaderCompilationError)
    ));
    let right = Some(vec![entry("fs", ShaderStage::Fragment), entry("vs", ShaderStage::Vertex)]);
    assert!(matches!(
        build_render_pipeline(&context(), TextureFormat::Bgra8Unorm, &right),
        Ok(PipelineDescriptor::Render(_))
    ));
}

#[test]
fn compute_pipeline_binds_one_storage_buffer() {
    match build_compute_pipeline(&context(), &Some(vec![kernel("main", 1, 1, 1)])) {
        Ok(PipelineDescriptor::Compute(d)) => {
            assert_eq!(d.entry, "main");
            assert_eq!(d.workgroup_size, WorkgroupSize { x: 1, y: 1, z: 1 });
            assert_eq!(
                d.layout,
                vec![BindingLayoutEntry {
                    binding: 0,
                    visibility: ShaderStage::Compute,
                    kind: BindingKind::StorageBuffer { read_only: false },
                    has_dynamic_offset: false,
                    min_binding_size: None,
                }]
            );
        }
        _ => panic!("no compute pipeline"),
    }
}

#[test]
fn compute_pipeline_takes_name_and_size_of_the_kernel() {
    let compiled = Some(vec![entry("vs", ShaderStage::Vertex), kernel("double_all", 8, 4, 2)]);
    match build_compute_pipeline(&context(), &compiled) {
        Ok(PipelineDescriptor::Compute(d)) => {
            assert_eq!(d.entry, "double_all");
            assert_eq!(d.workgroup_size, WorkgroupSize { x: 8, y: 4, z: 2 });
        }
        _ => panic!("no compute pipeline"),
    }
}

#[test]
fn compute_pipeline_wants_exactly_one_kernel() {
    let two = Some(vec![kernel("first", 1, 1, 1), kernel("second", 1, 1, 1)]);
    assert!(matches!(
        build_compute_pipeline(&context(), &two),
        Err(GpuError::ShaderCompilationError)
    ));
    assert!(matches!(
        build_compute_pipeline(&context(), &triangle()),
        Err(GpuError::ShaderCompilationError)
    ));
    assert!(matches!(
        build_compute_pipeline(&context(), &Some(Vec::new())),
        Err(GpuError::ShaderCompilationError)
    ));
    assert!(matches!(
        build_compute_pipeline(&context(), &None),
        Err(GpuError::ShaderCompilationError)
    ));
}

#[test]
fn storage_layout_is_always_the_same() {
    assert_eq!(storage_layout(), storage_layout());
    let layout = storage_layout();
    assert_eq!(layout.len(), 1);
    assert_eq!(layout[0].binding, 0);
    assert!(layout[0].accepts(0));
    assert!(layout[0].accepts(16));
    assert!(layout[0].accepts(u64::MAX));
    let constrained = BindingLayoutEntry { min_binding_size: Some(16), ..layout[0] };
    assert!(!constrained.accepts(15));
    assert!(constrained.accepts(16));
}
