use board_render::camera::{Camera, CameraController, Key, Projection, TrigSample, SAFE_FRAC_PI_2};
use board_render::frame::{
    Instance, MeshInfo, ModelColoring, ModeledInstance, RegisteredModel, Renderer,
};
use board_render::render::{AtlasRegion, TexTy};
use board_render::ui::{Color, ColorBox, Coloring, Component, Container, Tex, TextBox, TextSection};

fn trig_identity() -> TrigSample {
    TrigSample { sin_yaw: 0, cos_yaw: 1_000_000, sin_pitch: 0, cos_pitch: 1_000_000 }
}

fn atlas_quad(atlas: usize) -> ColorBox {
    ColorBox {
        pos: (0, 0),
        width: 500_000,
        height: 500_000,
        coloring: Coloring::Tex(Tex {
            ty: TexTy::Atlas(AtlasRegion { atlas, uv: (5, 6) }),
            grayscale_conv: false,
        }),
    }
}

fn flat_quad() -> ColorBox {
    ColorBox {
        pos: (0, 0),
        width: 500_000,
        height: 500_000,
        coloring: Coloring::Color([Color { r: 1_000_000, g: 0, b: 0, a: 1_000_000 }; 6]),
    }
}

fn cube_model() -> RegisteredModel {
    RegisteredModel {
        meshes: vec![MeshInfo { num_elements: 36, material: 0 }],
        material_count: 1,
        coloring: ModelColoring::Tex(0),
    }
}

#[test]
fn zero_instance_model_issues_no_draw_calls() {
    let mut renderer = Renderer::new(800, 600);
    let id = renderer.add_model(cube_model());
    assert_eq!(id, 0);
    let camera = Camera::new((0, 0, 0), 0, 0);
    let plan = renderer.render(vec![], vec![], &camera);
    assert_eq!(plan.model_draws.len(), 0, "no instances this frame, no draws");
    assert_eq!(plan.instance_buffers.len(), 1);
    assert!(plan.instance_buffers[0].is_empty());
}

#[test]
fn referenced_model_draws_once_per_mesh_with_instance_count() {
    let mut renderer = Renderer::new(800, 600);
    let a = renderer.add_model(cube_model());
    let b = renderer.add_model(RegisteredModel {
        meshes: vec![
            MeshInfo { num_elements: 12, material: 0 },
            MeshInfo { num_elements: 24, material: 1 },
        ],
        material_count: 2,
        coloring: ModelColoring::Direct(Color { r: 0, g: 0, b: 0, a: 1_000_000 }),
    });
    let identity = Instance { position: (0, 0, 0), rotation: (1_000_000, 0, 0, 0) };
    let instances = vec![
        ModeledInstance { model_id: b, instance: identity },
        ModeledInstance { model_id: b, instance: identity },
    ];
    let camera = Camera::new((0, 0, 0), 0, 0);
    let plan = renderer.render(vec![], instances, &camera);
    // Model `a` is skipped entirely, model `b` draws each of its meshes
    // once with both instances.
    assert!(plan.instance_buffers[a].is_empty());
    assert_eq!(plan.instance_buffers[b].len(), 2);
    assert_eq!(plan.model_draws.len(), 2);
    assert_eq!(plan.model_draws[0].model_id, b);
    assert_eq!(plan.model_draws[0].mesh, 0);
    assert_eq!(plan.model_draws[0].material, 0);
    assert_eq!(plan.model_draws[0].num_elements, 12);
    assert_eq!(plan.model_draws[0].instances, 2);
    assert_eq!(plan.model_draws[1].mesh, 1);
    assert_eq!(plan.model_draws[1].material, 1);
    assert_eq!(plan.model_draws[1].num_elements, 24);
}

#[test]
fn identity_instance_transform_is_identity_with_translation() {
    let inst = Instance { position: (3_000_000, -2_000_000, 500_000), rotation: (1_000_000, 0, 0, 0) };
    let raw = inst.to_raw();
    assert_eq!((raw.m00, raw.m11, raw.m22, raw.m33), (1_000_000, 1_000_000, 1_000_000, 1_000_000));
    assert_eq!((raw.m01, raw.m02, raw.m10, raw.m12, raw.m20, raw.m21), (0, 0, 0, 0, 0, 0));
    assert_eq!((raw.m30, raw.m31, raw.m32), (3_000_000, -2_000_000, 500_000));
}

#[test]
fn quarter_turn_about_y_maps_axes() {
    // Quaternion (s, x, y, z) = (cos 45°, 0, sin 45°, 0), a 90° turn
    // about the y axis; sin/cos 45° in fixed point is 707107.
    let inst = Instance { position: (0, 0, 0), rotation: (707_107, 0, 707_107, 0) };
    let raw = inst.to_raw();
    // Column 0 maps x to -z (up to fixed-point rounding of 707107²).
    assert!(raw.m00.abs() < 100);
    assert!((raw.m02 - -1_000_000).abs() < 100);
    // Column 2 maps z to x.
    assert!((raw.m20 - 1_000_000).abs() < 100);
    assert!(raw.m22.abs() < 100);
}

#[test]
fn same_atlas_quads_merge_into_one_batch() {
    let mut renderer = Renderer::new(800, 600);
    let camera = Camera::new((0, 0, 0), 0, 0);
    let ui_models = vec![atlas_quad(7).build_model(), atlas_quad(7).build_model()];
    let plan = renderer.render(ui_models, vec![], &camera);
    assert_eq!(plan.atlas_batches.len(), 1, "one bind group for one atlas id");
    assert_eq!(plan.atlas_batches[0].atlas, 7);
    assert_eq!(plan.atlas_batches[0].vertices.len(), 12, "both quads in one vertex buffer");
}

#[test]
fn distinct_atlas_ids_stay_separate_in_first_reference_order() {
    let mut renderer = Renderer::new(800, 600);
    let camera = Camera::new((0, 0, 0), 0, 0);
    let ui_models = vec![
        atlas_quad(9).build_model(),
        atlas_quad(4).build_model(),
        atlas_quad(9).build_model(),
    ];
    let plan = renderer.render(ui_models, vec![], &camera);
    assert_eq!(plan.atlas_batches.len(), 2);
    assert_eq!(plan.atlas_batches[0].atlas, 9);
    assert_eq!(plan.atlas_batches[0].vertices.len(), 12);
    assert_eq!(plan.atlas_batches[1].atlas, 4);
    assert_eq!(plan.atlas_batches[1].vertices.len(), 6);
}

#[test]
fn color_bucket_concatenates_flat_models() {
    let mut renderer = Renderer::new(800, 600);
    let camera = Camera::new((0, 0, 0), 0, 0);
    let ui_models = vec![flat_quad().build_model(), flat_quad().build_model()];
    let plan = renderer.render(ui_models, vec![], &camera);
    assert_eq!(plan.color_vertices.len(), 12);
    assert!(plan.atlas_batches.is_empty());
    assert!(plan.tex_batches.is_empty());
    assert_eq!(plan.background.r, 384_000);
    assert_eq!(plan.dimensions, (800, 600));
}

#[test]
fn queued_sections_are_flushed_once_per_frame() {
    let mut renderer = Renderer::new(640, 480);
    let mut container = Container::new();
    container.add(Component::Text(TextBox::new(
        (250_000, 500_000),
        500_000,
        250_000,
        Coloring::Color([Color { r: 0, g: 0, b: 0, a: 1_000_000 }; 6]),
        TextSection { texts: vec!["hello".to_string()], scale: 30_000_000 },
    )));
    let models = container.build_models(&mut renderer);
    assert_eq!(models.len(), 1);
    let camera = Camera::new((0, 0, 0), 0, 0);
    let plan = renderer.render(models, vec![], &camera);
    assert_eq!(plan.sections.len(), 1);
    let (glyph, section) = &plan.sections[0];
    assert_eq!(*glyph, 0);
    // x = 0.25 * 640 px, y = (1 - 0.5) * 480 px, in micro-pixels.
    assert_eq!(section.screen_position, (160_000_000, 240_000_000));
    assert_eq!(section.bounds, (320_000_000, 120_000_000));
    assert_eq!(section.texts, vec!["hello".to_string()]);
    // The queue is drained: the next frame flushes nothing.
    let plan = renderer.render(vec![], vec![], &camera);
    assert!(plan.sections.is_empty());
}

#[test]
fn pitch_clamps_at_safe_bound_after_one_tick() {
    let mut controller = CameraController::new(1_000_000, 1_000_000);
    let mut camera = Camera::new((0, 0, 0), 0, 0);
    controller.process_mouse(0, 1_000_000_000);
    controller.update_camera(&mut camera, 1_000_000, trig_identity());
    assert_eq!(camera.pitch, -SAFE_FRAC_PI_2, "pitch never passes the safe bound");
    assert_eq!(controller.rotate_vertical, 0, "mouse delta is edge-triggered");
    // The symmetric case clamps at the positive bound.
    let mut controller = CameraController::new(1_000_000, 1_000_000);
    let mut camera = Camera::new((0, 0, 0), 0, 0);
    controller.process_mouse(0, -1_000_000_000);
    controller.update_camera(&mut camera, 1_000_000, trig_identity());
    assert_eq!(camera.pitch, SAFE_FRAC_PI_2);
}

#[test]
fn walking_forward_moves_along_yaw_direction() {
    let mut controller = CameraController::new(2_000_000, 1_000_000);
    let mut camera = Camera::new((0, 0, 0), 0, 0);
    assert!(controller.process_keyboard(Key::W, true));
    controller.update_camera(&mut camera, 1_000_000, trig_identity());
    // speed 2.0 for 1 s along (cos 0, 0, sin 0).
    assert_eq!(camera.position, (2_000_000, 0, 0));
    // Key state is level-triggered: the next tick keeps moving.
    controller.update_camera(&mut camera, 1_000_000, trig_identity());
    assert_eq!(camera.position, (4_000_000, 0, 0));
    assert!(controller.process_keyboard(Key::W, false));
    controller.update_camera(&mut camera, 1_000_000, trig_identity());
    assert_eq!(camera.position, (4_000_000, 0, 0));
    assert!(!controller.process_keyboard(Key::Other, true));
}

#[test]
fn scroll_zooms_along_view_direction_once() {
    let mut controller = CameraController::new(1_000_000, 1_000_000);
    let mut camera = Camera::new((0, 0, 0), 0, 0);
    controller.process_scroll(-3_000_000);
    controller.update_camera(&mut camera, 1_000_000, trig_identity());
    assert_eq!(camera.position, (3_000_000, 0, 0));
    assert_eq!(controller.scroll, 0, "scroll is edge-triggered");
    controller.update_camera(&mut camera, 1_000_000, trig_identity());
    assert_eq!(camera.position, (3_000_000, 0, 0));
}

#[test]
fn renderer_registry_and_glyphs_are_append_only() {
    let mut renderer = Renderer::new(100, 100);
    assert_eq!(renderer.add_glyph(), 1);
    assert_eq!(renderer.add_glyph(), 2);
    assert_eq!(renderer.add_model(cube_model()), 0);
    assert_eq!(renderer.add_model(cube_model()), 1);
    assert_eq!(renderer.models.len(), 2);
}

#[test]
fn projection_aspect_is_the_truncated_fixed_point_ratio() {
    let mut p = Projection::new(1920, 1080, 90_000_000, 100_000, 100_000_000);
    assert_eq!(p.aspect, 1_777_777);
    assert_eq!(p.fovy, 90_000_000);
    p.resize(800, 600);
    assert_eq!(p.aspect, 1_333_333);
    assert_eq!(p.znear, 100_000);
}
