use mandelbrot_gpu::app_state::{AppState, BIND_GROUP, INSTANCE_COUNT, VERTEX_COUNT};
use mandelbrot_gpu::fv_render_callback::FvRenderCallback;
use mandelbrot_gpu::fv_renderer::{FvRenderer, GpuCommand};
use mandelbrot_gpu::scalar::Scalar;
use mandelbrot_gpu::uniforms::UNIFORMS_SIZE;
use mandelbrot_gpu::user_settings::UserSettings;

fn scalar(value: f32) -> Scalar {
    Scalar::from_bits(value.to_bits())
}

fn renderer() -> FvRenderer {
    FvRenderer {
        state: AppState::planned(),
    }
}

fn the_draw() -> GpuCommand {
    GpuCommand::Draw {
        bind_group: 0,
        first_vertex: 0,
        vertex_count: 6,
        first_instance: 0,
        instance_count: 1,
    }
}

/// A buffer that performs the writes it is given, as the device would.
fn perform(buffer: &mut Vec<u8>, command: &GpuCommand) {
    if let GpuCommand::WriteBuffer { offset, data } = command {
        let start = *offset as usize;
        buffer[start..start + data.len()].copy_from_slice(data);
    }
}

#[test]
fn prepare_writes_the_whole_block_at_the_start() {
    let callback = FvRenderCallback {
        uniforms: UserSettings::new().uniforms(),
    };
    let command = renderer().prepare(&callback);
    assert_eq!(
        command,
        GpuCommand::WriteBuffer {
            offset: 0,
            data: callback.uniforms.to_bytes()
        }
    );
    if let GpuCommand::WriteBuffer { offset, data } = &command {
        assert_eq!(*offset, 0);
        assert_eq!(data.len(), UNIFORMS_SIZE);
        assert_eq!(data.len() as u64, renderer().state.buffer_size);
    }
    assert_eq!(callback.prepare(&renderer()), command);
}

#[test]
fn paint_draws_six_vertices_once() {
    assert_eq!(renderer().paint(), the_draw());
    let callback = FvRenderCallback {
        uniforms: UserSettings::new().uniforms(),
    };
    assert_eq!(callback.paint(&renderer()), the_draw());
}

#[test]
fn paint_is_the_same_whatever_the_renderer_holds() {
    let mut state = AppState::planned();
    state.buffer_size = 16;
    state.binding = 3;
    state.bind_groups = 4;
    state.vertex_buffers = 2;
    state.color_targets = 5;
    let r = FvRenderer { state };
    assert_eq!(r.paint(), the_draw());
    assert_eq!(r.paint(), renderer().paint());

    let callback = FvRenderCallback {
        uniforms: UserSettings::new().uniforms(),
    };
    assert_eq!(callback.paint(&r), the_draw());

    let mut stream: Vec<GpuCommand> = Vec::new();
    r.render_frame(&callback, &mut stream);
    assert_eq!(stream.len(), 2);
    assert_eq!(stream[1], the_draw());
}

#[test]
fn the_draw_is_six_vertices_once_at_group_zero() {
    assert_eq!(BIND_GROUP, 0);
    assert_eq!(VERTEX_COUNT, 6);
    assert_eq!(INSTANCE_COUNT, 1);
    assert_eq!(
        renderer().paint(),
        GpuCommand::Draw {
            bind_group: BIND_GROUP,
            first_vertex: 0,
            vertex_count: VERTEX_COUNT,
            first_instance: 0,
            instance_count: INSTANCE_COUNT,
        }
    );
}

#[test]
fn frame_is_one_write_then_one_draw() {
    let callback = FvRenderCallback {
        uniforms: UserSettings::new().uniforms(),
    };
    let mut stream: Vec<GpuCommand> = Vec::new();
    renderer().render_frame(&callback, &mut stream);
    assert_eq!(stream.len(), 2);
    assert_eq!(
        stream[0],
        GpuCommand::WriteBuffer {
            offset: 0,
            data: callback.uniforms.to_bytes()
        }
    );
    assert_eq!(stream[1], the_draw());
}

#[test]
fn two_frames_do_not_mix_their_blocks() {
    let mut settings = UserSettings::new();
    let first = FvRenderCallback {
        uniforms: settings.uniforms(),
    };
    settings.center_x = scalar(0.25);
    settings.zoom = scalar(3.0);
    settings.show_axis = true;
    let second = FvRenderCallback {
        uniforms: settings.uniforms(),
    };
    assert_ne!(first.uniforms.to_bytes(), second.uniforms.to_bytes());

    let r = renderer();
    let mut stream: Vec<GpuCommand> = Vec::new();
    r.render_frame(&first, &mut stream);
    r.render_frame(&second, &mut stream);

    assert_eq!(stream.len(), 4);
    assert_eq!(
        stream[0],
        GpuCommand::WriteBuffer {
            offset: 0,
            data: first.uniforms.to_bytes()
        }
    );
    assert_eq!(stream[1], the_draw());
    assert_eq!(
        stream[2],
        GpuCommand::WriteBuffer {
            offset: 0,
            data: second.uniforms.to_bytes()
        }
    );
    assert_eq!(stream[3], the_draw());

    // Perform the stream on a buffer and look at it whenever a draw comes.
    let mut buffer = vec![0xAAu8; r.state.buffer_size as usize];
    let mut seen: Vec<Vec<u8>> = Vec::new();
    for command in &stream {
        perform(&mut buffer, command);
        if matches!(command, GpuCommand::Draw { .. }) {
            seen.push(buffer.clone());
        }
    }
    assert_eq!(
        seen,
        vec![first.uniforms.to_bytes(), second.uniforms.to_bytes()]
    );
}

#[test]
fn render_frame_keeps_what_was_recorded() {
    let r = renderer();
    let mut stream: Vec<GpuCommand> = Vec::new();
    let mut settings = UserSettings::new();
    let mut blocks = Vec::new();
    for i in 0..10u32 {
        settings.max_iter = i;
        let callback = FvRenderCallback {
            uniforms: settings.uniforms(),
        };
        blocks.push(callback.uniforms.to_bytes());
        r.render_frame(&callback, &mut stream);
        assert_eq!(stream.len(), 2 * (i as usize + 1));
    }
    for (i, block) in blocks.iter().enumerate() {
        assert_eq!(
            stream[2 * i],
            GpuCommand::WriteBuffer {
                offset: 0,
                data: block.clone()
            }
        );
        assert_eq!(stream[2 * i + 1], the_draw());
    }
}
