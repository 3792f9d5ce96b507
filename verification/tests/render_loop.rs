use shader_preview::canvas::Canvas;
use shader_preview::clock::{clock_binding, clock_bytes, UniformClock};
use shader_preview::render_loop::{
    LoopEvent, PresentationMode, RenderLoop, SurfaceConfig,
};
use shader_preview::shader::{validate_fragment_source, LoadError, Stage};

const VALID_RED: &str = "@group(0) @binding(0) var<uniform> time_ms: u32;\n\
@fragment\n\
fn fs_main() -> @location(0) vec4<f32> {\n\
    let t = f32(time_ms) / 1000.0;\n\
    return vec4<f32>(1.0, t - t, 0.0, 1.0);\n\
}\n";

const VALID_GREEN: &str = "@fragment\n\
fn fs_main() -> @location(0) vec4<f32> {\n\
    return vec4<f32>(0.0, 1.0, 0.0, 1.0);\n\
}\n";

const INVALID_TEXT: &str = "this is not a shader at all {";

const VERTEX_ONLY: &str = "@vertex\n\
fn vs_main() -> @builtin(position) vec4<f32> {\n\
    return vec4<f32>(0.0, 0.0, 0.0, 1.0);\n\
}\n";

const WRONG_ENTRY_NAME: &str = "@fragment\n\
fn main_fs() -> @location(0) vec4<f32> {\n\
    return vec4<f32>(0.0, 0.0, 1.0, 1.0);\n\
}\n";

const WRONG_SLOT: &str = "@group(0) @binding(1) var<uniform> time_ms: u32;\n\
@fragment\n\
fn fs_main() -> @location(0) vec4<f32> {\n\
    return vec4<f32>(f32(time_ms), 0.0, 0.0, 1.0);\n\
}\n";

const OVERSIZED_UNIFORM: &str = "@group(0) @binding(0) var<uniform> tint: vec4<f32>;\n\
@fragment\n\
fn fs_main() -> @location(0) vec4<f32> {\n\
    return tint;\n\
}\n";

const STORAGE_BINDING: &str = "@group(0) @binding(0) var<storage, read> data: array<u32, 4>;\n\
@fragment\n\
fn fs_main() -> @location(0) vec4<f32> {\n\
    return vec4<f32>(f32(data[0]), 0.0, 0.0, 1.0);\n\
}\n";

fn config_600() -> SurfaceConfig {
    SurfaceConfig {
        width: 600,
        height: 600,
        format: 0,
        present_mode: PresentationMode::Fifo,
    }
}

fn running_loop() -> RenderLoop {
    match RenderLoop::new(config_600(), VALID_RED) {
        Ok(rl) => rl,
        Err(e) => panic!("initial shader rejected: {}", e.diagnostic()),
    }
}

#[test]
fn scenario_valid_edit_swaps_pipeline_and_clock_advances() {
    let mut rl = running_loop();

    let r0 = rl.step(LoopEvent::RedrawRequested { elapsed_ms: 0 });
    let f0 = r0.frame.expect("redraw must draw a frame");
    assert_eq!(f0.clock_ms, 0);
    assert_eq!(f0.pipeline_generation, 0);
    assert_eq!(f0.vertex_count, 6);
    assert_eq!(f0.instance_count, 1);
    assert!(r0.request_redraw);
    assert!(!r0.exit);

    let r1 = rl.step(LoopEvent::ShaderChanged {
        read: Ok(VALID_GREEN.to_string()),
    });
    assert_eq!(r1.rebuild.as_deref(), Some(VALID_GREEN));
    assert!(r1.error.is_none());
    assert!(r1.request_redraw);
    // The old pipeline stays bound until the device reports the build done.
    assert_eq!(rl.pipeline_generation(), 0);
    let built = rl.step(LoopEvent::PipelineBuilt { outcome: Ok(()) });
    assert!(built.error.is_none());
    assert_eq!(rl.pipeline_generation(), 1);

    let r2 = rl.step(LoopEvent::RedrawRequested { elapsed_ms: 16 });
    let f1 = r2.frame.expect("redraw must draw a frame");
    assert_eq!(f1.pipeline_generation, 1);
    assert!(f1.clock_ms >= f0.clock_ms);
    assert_eq!(f1.clock_ms, 16);
}

#[test]
fn scenario_invalid_edit_keeps_previous_pipeline() {
    let mut rl = running_loop();
    rl.step(LoopEvent::RedrawRequested { elapsed_ms: 3 });

    let r = rl.step(LoopEvent::ShaderChanged {
        read: Ok(INVALID_TEXT.to_string()),
    });
    assert!(r.rebuild.is_none());
    let err = r.error.expect("a rejected reload surfaces its diagnostic");
    assert!(matches!(err, LoadError::Compile { .. }));
    assert!(!err.diagnostic().is_empty());

    let r2 = rl.step(LoopEvent::RedrawRequested { elapsed_ms: 20 });
    let f = r2.frame.expect("rendering goes on after a failed reload");
    assert_eq!(f.pipeline_generation, 0);
    assert_eq!(rl.pipeline_generation(), 0);
    assert!(rl.is_running());
}

#[test]
fn scenario_resize_reconfigures_before_next_redraw() {
    let mut rl = running_loop();

    let r = rl.step(LoopEvent::Resized {
        width: 300,
        height: 450,
    });
    assert!(r.reconfigure);
    assert!(r.frame.is_none());
    let c = rl.surface_config();
    assert_eq!((c.width, c.height), (300, 450));
    assert_eq!(c.format, 0);
    assert_eq!(c.present_mode, PresentationMode::Fifo);

    let r2 = rl.step(LoopEvent::RedrawRequested { elapsed_ms: 8 });
    let f = r2.frame.expect("redraw must draw a frame");
    assert_eq!((f.width, f.height), (300, 450));
}

#[test]
fn scenario_rapid_double_edit_uses_final_content() {
    let mut rl = running_loop();

    // Two change signals from one burst of edits: the file is re-read at
    // processing time, so both deliveries carry the final content, and each
    // directed rebuild comes back from the device before the next event.
    let r1 = rl.step(LoopEvent::ShaderChanged {
        read: Ok(VALID_GREEN.to_string()),
    });
    assert_eq!(r1.rebuild.as_deref(), Some(VALID_GREEN));
    rl.step(LoopEvent::PipelineBuilt { outcome: Ok(()) });
    let r2 = rl.step(LoopEvent::ShaderChanged {
        read: Ok(VALID_GREEN.to_string()),
    });
    assert_eq!(r2.rebuild.as_deref(), Some(VALID_GREEN));
    rl.step(LoopEvent::PipelineBuilt { outcome: Ok(()) });
    assert_eq!(rl.pipeline_generation(), 2);

    let f = rl
        .step(LoopEvent::RedrawRequested { elapsed_ms: 2 })
        .frame
        .expect("redraw must draw a frame");
    assert_eq!(f.pipeline_generation, 2);
}

#[test]
fn unreadable_file_is_surfaced_and_changes_nothing() {
    let mut rl = running_loop();

    let r = rl.step(LoopEvent::ShaderChanged {
        read: Err("no such file".to_string()),
    });
    assert!(r.rebuild.is_none());
    let err = r.error.expect("a failed re-read surfaces its message");
    match &err {
        LoadError::FileRead { diagnostic } => assert_eq!(diagnostic.as_str(), "no such file"),
        LoadError::Compile { .. } => panic!("a read failure is not a compile failure"),
    }
    assert_eq!(err.diagnostic().as_str(), "no such file");
    assert_eq!(rl.pipeline_generation(), 0);
    assert!(rl.is_running());
}

#[test]
fn clock_is_monotonic_across_redraws() {
    let mut rl = running_loop();
    let readings = [5u32, 5, 3, 9];
    let expected = [5u32, 5, 5, 9];
    for (now, want) in readings.iter().zip(expected.iter()) {
        let f = rl
            .step(LoopEvent::RedrawRequested { elapsed_ms: *now })
            .frame
            .expect("redraw must draw a frame");
        assert_eq!(f.clock_ms, *want);
    }
}

#[test]
fn close_request_ends_the_loop() {
    let mut rl = running_loop();

    let r = rl.step(LoopEvent::CloseRequested);
    assert!(r.exit);
    assert!(!r.request_redraw);
    assert!(!rl.is_running());

    // Terminal: later events change nothing and draw nothing.
    let r2 = rl.step(LoopEvent::Resized {
        width: 10,
        height: 10,
    });
    assert!(r2.exit);
    assert!(!r2.reconfigure);
    let c = rl.surface_config();
    assert_eq!((c.width, c.height), (600, 600));
    let r3 = rl.step(LoopEvent::RedrawRequested { elapsed_ms: 99 });
    assert!(r3.frame.is_none());
}

#[test]
fn other_events_only_tick_the_continuous_redraw() {
    let mut rl = running_loop();
    let r = rl.step(LoopEvent::Other);
    assert!(r.request_redraw);
    assert!(!r.reconfigure);
    assert!(r.frame.is_none());
    assert!(r.rebuild.is_none());
    assert!(r.error.is_none());
    assert!(!r.exit);
}

#[test]
fn startup_with_invalid_source_is_refused() {
    match RenderLoop::new(config_600(), INVALID_TEXT) {
        Ok(_) => panic!("unparsable text must not enter the loop"),
        Err(e) => assert!(matches!(e, LoadError::Compile { .. })),
    }
    match RenderLoop::new(config_600(), VERTEX_ONLY) {
        Ok(_) => panic!("a source without fs_main must not enter the loop"),
        Err(e) => assert!(matches!(e, LoadError::Compile { .. })),
    }
}

#[test]
fn validator_reports_entry_points_and_globals() {
    let facts = validate_fragment_source(VALID_RED).expect("valid source is accepted");
    assert!(facts
        .entry_points
        .iter()
        .any(|e| e.name == "fs_main" && e.stage == Stage::Fragment));
    assert_eq!(facts.globals.len(), 1);
    assert_eq!(facts.globals[0].resource, Some((0, 0)));
    assert!(facts.globals[0].uniform);
    assert_eq!(facts.globals[0].scalar_width, Some(4));

    let facts = validate_fragment_source(VALID_GREEN).expect("valid source is accepted");
    assert_eq!(facts.entry_points.len(), 1);
    assert_eq!(facts.entry_points[0].name, "fs_main");
    assert_eq!(facts.entry_points[0].stage, Stage::Fragment);
    assert!(facts.globals.is_empty());
}

#[test]
fn device_rejected_build_keeps_pipeline_and_surfaces_diagnostic() {
    let mut rl = running_loop();
    let r = rl.step(LoopEvent::ShaderChanged {
        read: Ok(VALID_GREEN.to_string()),
    });
    assert!(r.rebuild.is_some());

    let built = rl.step(LoopEvent::PipelineBuilt {
        outcome: Err("device rejected the pipeline".to_string()),
    });
    let err = built.error.expect("a failed device build surfaces its diagnostic");
    assert!(matches!(err, LoadError::Compile { .. }));
    assert_eq!(err.diagnostic().as_str(), "device rejected the pipeline");
    assert_eq!(rl.pipeline_generation(), 0);
    assert!(rl.is_running());

    let f = rl
        .step(LoopEvent::RedrawRequested { elapsed_ms: 4 })
        .frame
        .expect("rendering goes on after a failed device build");
    assert_eq!(f.pipeline_generation, 0);
}

#[test]
fn spurious_build_outcome_is_ignored() {
    let mut rl = running_loop();
    let r = rl.step(LoopEvent::PipelineBuilt { outcome: Ok(()) });
    assert!(r.error.is_none());
    assert_eq!(rl.pipeline_generation(), 0);
    let r = rl.step(LoopEvent::PipelineBuilt {
        outcome: Err("nothing was being built".to_string()),
    });
    assert!(r.error.is_none());
    assert_eq!(rl.pipeline_generation(), 0);
}

#[test]
fn validator_rejects_foreign_binding_layout() {
    let layout_text =
        "shader declares a resource binding other than the time uniform at group 0, binding 0";
    let err = validate_fragment_source(WRONG_SLOT).unwrap_err();
    assert_eq!(err.diagnostic().as_str(), layout_text);
    let err = validate_fragment_source(OVERSIZED_UNIFORM).unwrap_err();
    assert_eq!(err.diagnostic().as_str(), layout_text);
    let err = validate_fragment_source(STORAGE_BINDING).unwrap_err();
    assert_eq!(err.diagnostic().as_str(), layout_text);

    let mut rl = running_loop();
    let r = rl.step(LoopEvent::ShaderChanged {
        read: Ok(WRONG_SLOT.to_string()),
    });
    assert!(r.rebuild.is_none());
    assert!(matches!(r.error, Some(LoadError::Compile { .. })));
    assert_eq!(rl.pipeline_generation(), 0);
}

#[test]
fn validator_rejects_missing_fragment_entry() {
    let entry_text = "shader does not define a fragment entry point named fs_main";
    let err = validate_fragment_source(VERTEX_ONLY).unwrap_err();
    assert_eq!(err.diagnostic().as_str(), entry_text);
    let err = validate_fragment_source(WRONG_ENTRY_NAME).unwrap_err();
    assert_eq!(err.diagnostic().as_str(), entry_text);
    let err = validate_fragment_source(INVALID_TEXT).unwrap_err();
    assert!(!err.diagnostic().is_empty());
}

#[test]
fn uniform_clock_never_runs_backwards() {
    let mut c = UniformClock::new();
    assert_eq!(c.advance(10), 10);
    assert_eq!(c.advance(7), 10);
    assert_eq!(c.advance(10), 10);
    assert_eq!(c.advance(11), 11);
}

#[test]
fn clock_bytes_are_little_endian() {
    assert_eq!(clock_bytes(0), vec![0, 0, 0, 0]);
    assert_eq!(clock_bytes(0x12345678), vec![0x78, 0x56, 0x34, 0x12]);
    assert_eq!(clock_bytes(u32::MAX), vec![0xff, 0xff, 0xff, 0xff]);
    assert_eq!(clock_bytes(1000), vec![0xe8, 0x03, 0, 0]);
}

#[test]
fn clock_binding_is_one_fragment_uniform_at_slot_zero() {
    let b = clock_binding();
    assert_eq!(b.group, 0);
    assert_eq!(b.binding, 0);
    assert!(b.fragment_only);
    assert_eq!(b.size_bytes, 4);
}

#[test]
fn canvas_starts_empty() {
    let _scene = Canvas::new();
}
