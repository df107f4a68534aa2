use wasm_bindgen::{JsCast, JsValue};
use web_sys::{WebGlProgram, WebGlShader};
use wire_cube::frame::{GL_COLOR_BUFFER_BIT, GL_DEPTH_BUFFER_BIT, GL_LINES};
use wire_cube::pipeline::{
    GL_FRAGMENT_SHADER, GL_VERTEX_SHADER, PROGRAM_FALLBACK, SHADER_FALLBACK,
};
use wire_cube::{
    attribute_index, cube_edge_vertices, failure_message, model_view_layout, program_outcome,
    projection_layout, shader_outcome, Entry, Factor, FixedTrig, FrameCommand, FrameDriver,
    RenderError, RotationState, ShaderStage, VERTEX_COUNT,
};

fn null_shader() -> WebGlShader {
    JsValue::NULL.unchecked_into::<WebGlShader>()
}

fn null_program() -> WebGlProgram {
    JsValue::NULL.unchecked_into::<WebGlProgram>()
}

fn evaluate(m: &[Entry], t: &FixedTrig) -> Vec<i64> {
    m.iter().map(|e| e.scaled_value(t)).collect()
}

fn trig_at(angle_x: f64, angle_y: f64, unit: i16) -> FixedTrig {
    let u = unit as f64;
    FixedTrig {
        sin_x: (angle_x.sin() * u).round() as i16,
        cos_x: (angle_x.cos() * u).round() as i16,
        sin_y: (angle_y.sin() * u).round() as i16,
        cos_y: (angle_y.cos() * u).round() as i16,
        unit,
    }
}

#[test]
fn vertex_data_has_72_coordinates() {
    let v = cube_edge_vertices();
    assert_eq!(v.len(), 72);
    assert_eq!(v.len(), VERTEX_COUNT * 3);
    assert!(v.iter().all(|&c| c == 1 || c == -1));
}

#[test]
fn vertex_data_pairs_are_the_twelve_cube_edges() {
    let v = cube_edge_vertices();
    let mut edges: Vec<([i8; 3], [i8; 3])> = Vec::new();
    for e in 0..12 {
        let a = [v[6 * e], v[6 * e + 1], v[6 * e + 2]];
        let b = [v[6 * e + 3], v[6 * e + 4], v[6 * e + 5]];
        let differing = (0..3).filter(|&k| a[k] != b[k]).count();
        assert_eq!(differing, 1);
        let edge = if a < b { (a, b) } else { (b, a) };
        assert!(!edges.contains(&edge));
        edges.push(edge);
    }
    assert_eq!(edges.len(), 12);
}

#[test]
fn vertex_data_starts_with_the_first_edge() {
    let v = cube_edge_vertices();
    assert_eq!(&v[0..6], &[-1, -1, -1, 1, -1, -1]);
    assert_eq!(&v[66..72], &[1, 1, -1, 1, 1, 1]);
}

#[test]
fn angles_start_at_zero() {
    let s = RotationState::new();
    assert_eq!(s.angle_x_centirad, 0);
    assert_eq!(s.angle_y_centirad, 0);
}

#[test]
fn angles_after_n_ticks() {
    for n in [0u64, 1, 2, 10, 1000] {
        let mut s = RotationState::new();
        for _ in 0..n {
            s.tick();
        }
        assert_eq!(s.angle_x_centirad, n);
        assert_eq!(s.angle_y_centirad, 2 * n);
    }
}

#[test]
fn no_room_at_the_largest_angle() {
    let s = RotationState { angle_x_centirad: 10, angle_y_centirad: u64::MAX - 1 };
    assert!(!s.has_room());
    let s = RotationState { angle_x_centirad: 10, angle_y_centirad: u64::MAX - 2 };
    assert!(s.has_room());
    let s = RotationState { angle_x_centirad: u64::MAX, angle_y_centirad: 0 };
    assert!(!s.has_room());
}

#[test]
fn model_view_at_zero_is_translation_by_minus_six() {
    let unit: i16 = 1000;
    let t = FixedTrig { sin_x: 0, cos_x: unit, sin_y: 0, cos_y: unit, unit };
    let scale = 100 * (unit as i64) * (unit as i64);
    let expected: Vec<i64> = [1, 0, 0, 0, 0, 1, 0, 0, 0, 0, 1, 0, 0, 0, -6, 1]
        .iter()
        .map(|v| v * scale)
        .collect();
    assert_eq!(evaluate(&model_view_layout(), &t), expected);
}

#[test]
fn model_view_is_determined_by_the_angles() {
    let t = trig_at(0.37, 1.2, 10000);
    assert_eq!(evaluate(&model_view_layout(), &t), evaluate(&model_view_layout(), &t));
    assert_eq!(model_view_layout(), model_view_layout());
}

#[test]
fn projection_is_the_same_at_all_angles() {
    let a = evaluate(&projection_layout(), &trig_at(0.0, 0.0, 10000));
    let b = evaluate(&projection_layout(), &trig_at(2.5, -4.0, 10000));
    assert_eq!(a, b);
    let scale = 100 * 10000i64 * 10000;
    assert_eq!(a[10], -scale);
    assert_eq!(a[11], -scale);
    assert_eq!(a[14], -2 * 10000 * 10000);
    assert_eq!(a[0], scale);
}

#[test]
fn projection_layout_is_all_constants() {
    let p = projection_layout();
    assert_eq!(p.len(), 16);
    assert_eq!(p[14], Entry::Constant { hundredths: -2 });
    assert!(p.iter().all(|e| matches!(e, Entry::Constant { .. })));
}

#[test]
fn model_view_entry_formula() {
    let t = FixedTrig { sin_x: 3, cos_x: 5, sin_y: 7, cos_y: 11, unit: 13 };
    let e = Entry::Product { negated: true, left: Factor::SinX, right: Factor::CosY };
    assert_eq!(e.scaled_value(&t), -100 * 3 * 11);
    let e = Entry::Trig { negated: false, factor: Factor::SinY };
    assert_eq!(e.scaled_value(&t), 100 * 7 * 13);
    let e = Entry::Constant { hundredths: -600 };
    assert_eq!(e.scaled_value(&t), -600 * 13 * 13);
}

#[test]
fn first_tick_draws_at_the_first_step() {
    let mut d = FrameDriver::new();
    let commands = d.tick();
    assert_eq!(d.rotation.angle_x_centirad, 1);
    assert_eq!(d.rotation.angle_y_centirad, 2);
    assert_eq!(
        commands,
        vec![
            FrameCommand::Clear { mask: GL_COLOR_BUFFER_BIT | GL_DEPTH_BUFFER_BIT },
            FrameCommand::SetModelView { angle_x_centirad: 1, angle_y_centirad: 2 },
            FrameCommand::SetProjection,
            FrameCommand::DrawArrays { mode: GL_LINES, first: 0, count: 24 },
            FrameCommand::RequestNextFrame,
        ]
    );
    assert_eq!(GL_COLOR_BUFFER_BIT | GL_DEPTH_BUFFER_BIT, 0x4100);
}

#[test]
fn first_tick_model_view_matches_the_formula() {
    let mut d = FrameDriver::new();
    d.tick();
    let ax = d.rotation.angle_x_centirad as f64 / 100.0;
    let ay = d.rotation.angle_y_centirad as f64 / 100.0;
    assert!((ax - 0.01).abs() < 1e-12);
    assert!((ay - 0.02).abs() < 1e-12);
    let unit: i16 = 10000;
    let t = trig_at(ax, ay, unit);
    let (sx, cx, sy, cy) = (t.sin_x as i64, t.cos_x as i64, t.sin_y as i64, t.cos_y as i64);
    let u = unit as i64;
    let expected = vec![
        100 * cy * u, 0, 100 * sy * u, 0,
        100 * sx * sy, 100 * cx * u, -100 * sx * cy, 0,
        -100 * cx * sy, 100 * sx * u, 100 * cx * cy, 0,
        0, 0, -600 * u * u, 100 * u * u,
    ];
    assert_eq!(evaluate(&model_view_layout(), &t), expected);
}

#[test]
fn every_tick_draws_24_vertices_as_lines() {
    let mut d = FrameDriver::new();
    for n in 1..50u64 {
        let c = d.tick();
        assert_eq!(c.len(), 5);
        assert_eq!(c[3], FrameCommand::DrawArrays { mode: GL_LINES, first: 0, count: 24 });
        assert_eq!(
            c[1],
            FrameCommand::SetModelView { angle_x_centirad: n, angle_y_centirad: 2 * n }
        );
    }
}

#[test]
fn failure_message_prefers_the_log() {
    assert_eq!(failure_message(Some("0:3: syntax error".to_string()), SHADER_FALLBACK), "0:3: syntax error");
    assert_eq!(failure_message(Some(String::new()), SHADER_FALLBACK), SHADER_FALLBACK);
    assert_eq!(failure_message(None, PROGRAM_FALLBACK), PROGRAM_FALLBACK);
}

#[test]
fn failed_compile_is_a_shader_compile_error() {
    let r = shader_outcome(null_shader(), Some(false), Some("ERROR: 0:2: syntax error".to_string()));
    match r {
        Err(RenderError::ShaderCompile { message }) => assert_eq!(message, "ERROR: 0:2: syntax error"),
        _ => panic!("expected a shader compile error"),
    }
    let r = shader_outcome(null_shader(), None, None);
    match r {
        Err(RenderError::ShaderCompile { message }) => {
            assert_eq!(message, "Unknown error creating shader");
            assert!(!message.is_empty());
        }
        _ => panic!("expected a shader compile error"),
    }
}

#[test]
fn compiled_shader_is_returned() {
    assert!(shader_outcome(null_shader(), Some(true), None).is_ok());
}

#[test]
fn failed_link_is_a_program_link_error() {
    let r = program_outcome(null_program(), Some(false), Some("vertex shader attached twice".to_string()));
    match r {
        Err(RenderError::ProgramLink { message }) => assert_eq!(message, "vertex shader attached twice"),
        _ => panic!("expected a program link error"),
    }
    let r = program_outcome(null_program(), Some(false), None);
    match r {
        Err(e) => assert_eq!(e.message(), "Unknown error creating program object"),
        _ => panic!("expected a program link error"),
    }
}

#[test]
fn linked_program_is_returned() {
    assert!(program_outcome(null_program(), Some(true), Some("ok".to_string())).is_ok());
}

#[test]
fn missing_attribute_is_a_lookup_error() {
    assert_eq!(attribute_index(0), Ok(0));
    assert_eq!(attribute_index(5), Ok(5));
    match attribute_index(-1) {
        Err(RenderError::UniformLookup { message }) => assert_eq!(message, "attribute a_position not found"),
        _ => panic!("expected a lookup error"),
    }
}

#[test]
fn shader_stages_map_to_gl_kinds() {
    assert_eq!(ShaderStage::Vertex.gl_kind(), GL_VERTEX_SHADER);
    assert_eq!(ShaderStage::Fragment.gl_kind(), GL_FRAGMENT_SHADER);
    assert_eq!(GL_VERTEX_SHADER, 35633);
    assert_eq!(GL_FRAGMENT_SHADER, 35632);
}
