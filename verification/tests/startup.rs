use mandelbrot_gpu::app_state::{
    AppState, BindingKind, DeviceFault, InitError, InitReport, InitStep, ShaderStage, Topology,
    BIND_GROUP, STEP_COUNT,
};
use mandelbrot_gpu::uniforms::UNIFORMS_SIZE;
use mandelbrot_gpu::user_settings::UserSettings;

const STEPS: [InitStep; 6] = [
    InitStep::Buffer,
    InitStep::BindGroupLayout,
    InitStep::BindGroup,
    InitStep::ShaderModule,
    InitStep::PipelineLayout,
    InitStep::Pipeline,
];

const FAULTS: [DeviceFault; 3] = [
    DeviceFault::OutOfMemory,
    DeviceFault::Validation,
    DeviceFault::Internal,
];

#[test]
fn planned_objects() {
    let plan = AppState::planned();
    assert_eq!(
        plan,
        AppState {
            buffer_size: 80,
            buffer_uniform: true,
            buffer_copy_dst: true,
            buffer_mapped_at_creation: false,
            layout_entries: 1,
            binding: 0,
            binding_kind: BindingKind::UniformBuffer,
            dynamic_offset: false,
            vertex_visible: false,
            fragment_visible: true,
            group_entries: 1,
            bound_offset: 0,
            bound_size: None,
            bind_groups: 1,
            shader_modules: 1,
            vertex_buffers: 0,
            topology: Topology::TriangleList,
            color_targets: 1,
            depth_stencil: false,
        }
    );
    assert_eq!(plan.buffer_size, UNIFORMS_SIZE as u64);
    assert_eq!(
        plan.buffer_size,
        UserSettings::new().uniforms().to_bytes().len() as u64
    );
    assert!(BIND_GROUP < plan.bind_groups);
    assert_eq!(STEP_COUNT, STEPS.len());
}

#[test]
fn entry_points_of_the_shader() {
    assert_eq!(ShaderStage::Vertex.entry_point(), "vs_main");
    assert_eq!(ShaderStage::Fragment.entry_point(), "fs_main");
}

#[test]
fn clean_creation_gives_the_planned_objects() {
    let report = InitReport::new();
    assert_eq!(AppState::new(&report), Ok(AppState::planned()));
}

#[test]
fn shader_that_does_not_compile_fails_the_launch() {
    let mut report = InitReport::new();
    report.record(InitStep::ShaderModule, Some(DeviceFault::Validation));
    let verdict = AppState::new(&report);
    assert_eq!(
        verdict,
        Err(InitError {
            step: InitStep::ShaderModule,
            fault: DeviceFault::Validation
        })
    );
    assert!(verdict.is_err());
}

#[test]
fn buffer_without_memory_fails_the_launch() {
    let mut report = InitReport::new();
    report.record(InitStep::Buffer, Some(DeviceFault::OutOfMemory));
    assert_eq!(
        AppState::new(&report),
        Err(InitError {
            step: InitStep::Buffer,
            fault: DeviceFault::OutOfMemory
        })
    );
}

#[test]
fn every_single_failure_is_reported_as_it_came() {
    for step in STEPS {
        for fault in FAULTS {
            let mut report = InitReport::new();
            report.record(step, Some(fault));
            assert_eq!(AppState::new(&report), Err(InitError { step, fault }));
        }
    }
}

#[test]
fn first_failure_wins() {
    for (i, first) in STEPS.iter().enumerate() {
        for later in &STEPS[i + 1..] {
            let mut report = InitReport::new();
            report.record(*later, Some(DeviceFault::Internal));
            report.record(*first, Some(DeviceFault::Validation));
            assert_eq!(
                AppState::new(&report),
                Err(InitError {
                    step: *first,
                    fault: DeviceFault::Validation
                })
            );
        }
    }
}

#[test]
fn failure_of_every_step_reports_the_buffer() {
    let mut report = InitReport::new();
    for step in STEPS {
        report.record(step, Some(DeviceFault::Internal));
    }
    report.record(InitStep::Buffer, Some(DeviceFault::OutOfMemory));
    assert_eq!(
        AppState::new(&report),
        Err(InitError {
            step: InitStep::Buffer,
            fault: DeviceFault::OutOfMemory
        })
    );
}

#[test]
fn record_changes_one_step() {
    let mut report = InitReport::new();
    report.record(InitStep::BindGroup, Some(DeviceFault::Validation));
    let expected = InitReport {
        buffer: None,
        bind_group_layout: None,
        bind_group: Some(DeviceFault::Validation),
        shader_module: None,
        pipeline_layout: None,
        pipeline: None,
    };
    assert_eq!(report, expected);
    report.record(InitStep::BindGroup, None);
    assert_eq!(report, InitReport::new());
    assert_eq!(AppState::new(&report), Ok(AppState::planned()));
}

#[test]
fn record_reaches_every_step() {
    let mut report = InitReport::new();
    report.record(InitStep::Buffer, Some(DeviceFault::OutOfMemory));
    assert_eq!(report.buffer, Some(DeviceFault::OutOfMemory));
    report.record(InitStep::BindGroupLayout, Some(DeviceFault::Validation));
    assert_eq!(report.bind_group_layout, Some(DeviceFault::Validation));
    report.record(InitStep::BindGroup, Some(DeviceFault::Internal));
    assert_eq!(report.bind_group, Some(DeviceFault::Internal));
    report.record(InitStep::ShaderModule, Some(DeviceFault::Validation));
    assert_eq!(report.shader_module, Some(DeviceFault::Validation));
    report.record(InitStep::PipelineLayout, Some(DeviceFault::Internal));
    assert_eq!(report.pipeline_layout, Some(DeviceFault::Internal));
    report.record(InitStep::Pipeline, Some(DeviceFault::OutOfMemory));
    assert_eq!(report.pipeline, Some(DeviceFault::OutOfMemory));
}

#[test]
fn error_messages() {
    let e = InitError {
        step: InitStep::ShaderModule,
        fault: DeviceFault::Validation,
    };
    assert_eq!(
        e.to_string(),
        "cannot create the shader module: validation error"
    );
    let e = InitError {
        step: InitStep::Buffer,
        fault: DeviceFault::OutOfMemory,
    };
    assert_eq!(
        e.to_string(),
        "cannot create the parameter buffer: out of memory"
    );
    let e = InitError {
        step: InitStep::Pipeline,
        fault: DeviceFault::Internal,
    };
    assert_eq!(
        e.to_string(),
        "cannot create the render pipeline: internal error"
    );
}

#[test]
fn names_of_steps_and_faults() {
    assert_eq!(InitStep::Buffer.name(), "parameter buffer");
    assert_eq!(InitStep::BindGroupLayout.name(), "bind group layout");
    assert_eq!(InitStep::BindGroup.name(), "bind group");
    assert_eq!(InitStep::ShaderModule.name(), "shader module");
    assert_eq!(InitStep::PipelineLayout.name(), "pipeline layout");
    assert_eq!(InitStep::Pipeline.name(), "render pipeline");
    assert_eq!(DeviceFault::OutOfMemory.name(), "out of memory");
    assert_eq!(DeviceFault::Validation.name(), "validation error");
    assert_eq!(DeviceFault::Internal.name(), "internal error");
}
