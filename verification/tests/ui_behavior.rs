use board_render::render::{ColorSource, TexTy, UvKind, Vertex, AtlasRegion, Dimensions};
use board_render::ui::{
    is_inbounds, Button, ButtonHandler, ClickKind, Color, ColorBox, Coloring, Component,
    Container, HoverMode, InputBox, Tex, TextBox, TextSection, UiEvent,
};

fn flat_colors() -> [Color; 6] {
    [
        Color { r: 0, g: 0, b: 0, a: 1_000_000 },
        Color { r: 100_000, g: 0, b: 0, a: 1_000_000 },
        Color { r: 200_000, g: 0, b: 0, a: 1_000_000 },
        Color { r: 300_000, g: 0, b: 0, a: 1_000_000 },
        Color { r: 400_000, g: 0, b: 0, a: 1_000_000 },
        Color { r: 500_000, g: 0, b: 0, a: 1_000_000 },
    ]
}

fn color_box(pos: (i64, i64), w: i64, h: i64) -> ColorBox {
    ColorBox { pos, width: w, height: h, coloring: Coloring::Color(flat_colors()) }
}

fn plain_text_box(pos: (i64, i64), w: i64, h: i64) -> TextBox {
    TextBox::new(
        pos,
        w,
        h,
        Coloring::Color(flat_colors()),
        TextSection { texts: vec![], scale: 30_000_000 },
    )
}

fn tex_button(pos: (i64, i64), w: i64, h: i64, handler: ButtonHandler, data: Option<usize>) -> Button {
    Button::new(
        TextBox::new(
            pos,
            w,
            h,
            Coloring::Tex(Tex { ty: TexTy::Simple(1), grayscale_conv: false }),
            TextSection { texts: vec![], scale: 30_000_000 },
        ),
        handler,
        data,
    )
}

#[test]
fn quad_covers_rectangle_in_clip_space() {
    let bx = color_box((250_000, 250_000), 500_000, 500_000);
    let m = bx.build_model();
    assert!(matches!(m.color_src, ColorSource::PerVert));
    assert_eq!(m.vertices.len(), 6);
    let expected = [
        (-500_000, -500_000),
        (500_000, -500_000),
        (500_000, 500_000),
        (-500_000, -500_000),
        (-500_000, 500_000),
        (500_000, 500_000),
    ];
    for (i, v) in m.vertices.iter().enumerate() {
        match v {
            Vertex::Color { pos, color } => {
                assert_eq!(*pos, expected[i]);
                assert_eq!(color.r, (i as i64) * 100_000);
            }
            _ => panic!("flat quad must emit color vertices"),
        }
    }
}

#[test]
fn quad_uses_full_clip_space_for_unit_rectangle() {
    let bx = color_box((0, 0), 1_000_000, 1_000_000);
    let m = bx.build_model();
    match &m.vertices[0] {
        Vertex::Color { pos, .. } => assert_eq!(*pos, (-1_000_000, -1_000_000)),
        _ => panic!(),
    }
    match &m.vertices[2] {
        Vertex::Color { pos, .. } => assert_eq!(*pos, (1_000_000, 1_000_000)),
        _ => panic!(),
    }
}

#[test]
fn atlas_quad_uses_absolute_uv_for_every_corner() {
    let bx = ColorBox {
        pos: (0, 0),
        width: 500_000,
        height: 500_000,
        coloring: Coloring::Tex(Tex {
            ty: TexTy::Atlas(AtlasRegion { atlas: 3, uv: (17, 23) }),
            grayscale_conv: false,
        }),
    };
    let m = bx.build_model();
    assert!(matches!(m.color_src, ColorSource::Atlas(3)));
    assert_eq!(m.vertices.len(), 6);
    for v in m.vertices.iter() {
        match v {
            Vertex::Texture { uv, alpha, color_scale_factor, grayscale_conv, .. } => {
                assert!(matches!(uv, UvKind::Absolute((17, 23))));
                assert_eq!(*alpha, 1_000_000);
                assert_eq!(*color_scale_factor, 1_000_000);
                assert!(!*grayscale_conv);
            }
            _ => panic!("atlas quad must emit texture vertices"),
        }
    }
}

#[test]
fn simple_tex_quad_uses_relative_corner_uvs() {
    let bx = ColorBox {
        pos: (0, 0),
        width: 500_000,
        height: 500_000,
        coloring: Coloring::Tex(Tex { ty: TexTy::Simple(9), grayscale_conv: false }),
    };
    let m = bx.build_model();
    assert!(matches!(m.color_src, ColorSource::Tex(9)));
    let expected = [
        (0, 0),
        (1_000_000, 0),
        (1_000_000, 1_000_000),
        (0, 0),
        (0, 1_000_000),
        (1_000_000, 1_000_000),
    ];
    for (i, v) in m.vertices.iter().enumerate() {
        match v {
            Vertex::Texture { uv: UvKind::Relative(t), .. } => assert_eq!(*t, expected[i]),
            _ => panic!(),
        }
    }
}

#[test]
fn hover_state_reflects_most_recent_transition() {
    let mut c = Component::Button(tex_button((0, 0), 500_000, 500_000, ButtonHandler::Inert, None));
    assert_eq!(c.is_hovered(), Some(HoverMode::Exit));
    c.on_hover(HoverMode::Enter, (1, 1));
    assert_eq!(c.is_hovered(), Some(HoverMode::Enter));
    c.on_hover(HoverMode::Enter, (1, 1));
    assert_eq!(c.is_hovered(), Some(HoverMode::Enter));
    c.on_hover(HoverMode::Exit, (1, 1));
    assert_eq!(c.is_hovered(), Some(HoverMode::Exit));
    c.on_hover(HoverMode::Exit, (1, 1));
    assert_eq!(c.is_hovered(), Some(HoverMode::Exit));
    c.on_hover(HoverMode::Enter, (1, 1));
    assert_eq!(c.is_hovered(), Some(HoverMode::Enter));
}

#[test]
fn hover_mode_helpers() {
    assert_eq!(HoverMode::Enter.reverse(), HoverMode::Exit);
    assert_eq!(HoverMode::Exit.reverse(), HoverMode::Enter);
    assert!(HoverMode::Enter.to_bool());
    assert!(!HoverMode::Exit.to_bool());
}

#[test]
fn first_component_in_insertion_order_wins_click() {
    // A and B both contain the point; only A (first inserted) gets the
    // click, B and C get the outside signal.
    let mut container = Container::new();
    container.add(Component::Button(tex_button((0, 0), 600_000, 600_000, ButtonHandler::StartGame, None)));
    container.add(Component::Button(tex_button((0, 0), 900_000, 900_000, ButtonHandler::StartGame, None)));
    container.add(Component::Button(tex_button((700_000, 700_000), 100_000, 100_000, ButtonHandler::StartGame, None)));
    let p = (300_000, 300_000);
    let events = container.on_mouse_click(p, ClickKind::PressDown);
    assert!(events.is_empty());
    match &container.components[0].inner.inner {
        Component::Button(b) => assert!(b.pressed),
        _ => panic!(),
    }
    match &container.components[1].inner.inner {
        Component::Button(b) => assert!(!b.pressed),
        _ => panic!(),
    }
    match &container.components[2].inner.inner {
        Component::Button(b) => assert!(!b.pressed),
        _ => panic!(),
    }
    let events = container.on_mouse_click(p, ClickKind::Release);
    assert_eq!(events, vec![UiEvent::StartGame]);
}

#[test]
fn hover_dispatch_exits_only_entered_components() {
    let mut container = Container::new();
    container.add(Component::Button(tex_button((0, 0), 400_000, 400_000, ButtonHandler::Inert, None)));
    container.add(Component::Button(tex_button((600_000, 600_000), 300_000, 300_000, ButtonHandler::Inert, None)));
    container.on_mouse_hover((200_000, 200_000));
    match &container.components[0].inner.inner {
        Component::Button(b) => assert!(b.hovered),
        _ => panic!(),
    }
    match &container.components[1].inner.inner {
        Component::Button(b) => assert!(!b.hovered),
        _ => panic!(),
    }
    // Moving to the second button exits the first and enters the second.
    container.on_mouse_hover((700_000, 700_000));
    match &container.components[0].inner.inner {
        Component::Button(b) => assert!(!b.hovered),
        _ => panic!(),
    }
    match &container.components[1].inner.inner {
        Component::Button(b) => assert!(b.hovered),
        _ => panic!(),
    }
}

#[test]
fn grayscale_latch_survives_hover_and_press_cycle() {
    let mut b = tex_button((0, 0), 500_000, 500_000, ButtonHandler::SelectCharacter, Some(7));
    let inside = (250_000, 250_000);
    let ev = b.on_click(ClickKind::PressDown, inside);
    assert_eq!(ev, None);
    let ev = b.on_click(ClickKind::Release, inside);
    assert_eq!(ev, Some(UiEvent::AddPlayer { character_id: 7 }));
    let grayscale = |b: &Button| match &b.inner_box.coloring {
        Coloring::Tex(t) => t.grayscale_conv,
        _ => false,
    };
    assert!(grayscale(&b));
    b.on_hover(HoverMode::Exit, inside);
    b.on_hover(HoverMode::Enter, inside);
    b.on_click(ClickKind::PressDown, inside);
    let ev = b.on_click(ClickKind::Release, inside);
    assert_eq!(ev, None, "a selected character is not seated twice");
    assert!(grayscale(&b), "the grayscale flag is a one-way latch");
}

#[test]
fn release_outside_bounds_clears_pressed_without_callback() {
    let mut b = tex_button((0, 0), 500_000, 500_000, ButtonHandler::StartGame, None);
    let ev = b.on_click(ClickKind::PressDown, (250_000, 250_000));
    assert_eq!(ev, None);
    assert!(b.pressed);
    let ev = b.on_click(ClickKind::Release, (900_000, 900_000));
    assert_eq!(ev, None, "releasing outside must not fire the callback");
    assert!(!b.pressed, "releasing outside still clears the pressed flag");
}

#[test]
fn cached_model_is_rebuilt_exactly_once_for_two_calls() {
    let mut container = Container::new();
    container.add(Component::Color(color_box((0, 0), 500_000, 500_000)));
    // A freshly added node is clean: two builds rebuild nothing.
    let node = &mut container.components[0];
    assert_eq!(node.inner.rebuilds, 0);
    let first = node.build_model();
    let second = node.build_model();
    assert_eq!(node.inner.rebuilds, 0);
    assert_eq!(first.vertices, second.vertices);
    // After one mutation the next two builds rebuild exactly once.
    node.on_click_outside();
    assert!(node.inner.dirty);
    let first = node.build_model();
    let second = node.build_model();
    assert_eq!(node.inner.rebuilds, 1, "exactly one rebuild across two calls");
    assert_eq!(first.vertices, second.vertices, "cache hit returns identical geometry");
}

#[test]
fn button_dimming_compounds_hover_and_press() {
    let mut b = Button::new(
        plain_text_box((0, 0), 500_000, 500_000),
        ButtonHandler::Inert,
        None,
    );
    b.on_hover(HoverMode::Enter, (1, 1));
    b.on_click(ClickKind::PressDown, (1, 1));
    let m = b.build_model();
    match &m.vertices[5] {
        Vertex::Color { color, .. } => {
            // 0.5 * 0.8 * 0.8 = 0.32: both factors compound.
            assert_eq!(color.r, 320_000);
            assert_eq!(color.a, 1_000_000);
        }
        _ => panic!(),
    }
}

#[test]
fn color_scale_leaves_alpha_untouched() {
    let c = Color { r: 500_000, g: 250_000, b: 1_000_000, a: 900_000 };
    let s = c.scale(800_000);
    assert_eq!((s.r, s.g, s.b, s.a), (400_000, 200_000, 800_000, 900_000));
    assert_eq!(c.into_array(), [500_000, 250_000, 1_000_000, 900_000]);
}

#[test]
fn inbounds_includes_borders() {
    let dims = (200_000, 100_000);
    let pos = (300_000, 400_000);
    assert!(is_inbounds(dims, pos, (300_000, 400_000)));
    assert!(is_inbounds(dims, pos, (500_000, 500_000)));
    assert!(is_inbounds(dims, pos, (400_000, 450_000)));
    assert!(!is_inbounds(dims, pos, (299_999, 450_000)));
    assert!(!is_inbounds(dims, pos, (400_000, 500_001)));
}

#[test]
fn dimensions_round_trip() {
    let d = Dimensions::new(1920, 1080);
    assert_eq!(d.get(), (1920, 1080));
    let mut d = d;
    d.set(800, 600);
    assert_eq!(d.get(), (800, 600));
    let d = Dimensions::new(0, u32::MAX);
    assert_eq!(d.get(), (0, u32::MAX));
}

#[test]
fn input_box_activates_on_click_and_deactivates_outside() {
    let mut container = Container::new();
    container.add(Component::Input(InputBox {
        inner_box: plain_text_box((0, 0), 500_000, 500_000),
        active: false,
    }));
    container.on_mouse_click((100_000, 100_000), ClickKind::PressDown);
    match &container.components[0].inner.inner {
        Component::Input(ib) => assert!(ib.active),
        _ => panic!(),
    }
    container.on_mouse_click((900_000, 900_000), ClickKind::PressDown);
    match &container.components[0].inner.inner {
        Component::Input(ib) => assert!(!ib.active),
        _ => panic!(),
    }
}

#[test]
fn color_scaling_truncates_toward_zero() {
    let c = Color { r: -500_000, g: 1, b: -1, a: 1_000_000 };
    let s = c.scale(800_000);
    assert_eq!((s.r, s.g, s.b, s.a), (-400_000, 0, 0, 1_000_000));
}
