//! The 2-D UI layer: components, their cached geometry, and dispatch.
//!
//! A [`Container`] holds an insertion-ordered sequence of components, each
//! wrapped in a dirty-flag cache so that geometry is rebuilt only after a
//! mutation.  Hit-testing walks the sequence in insertion order and the
//! first component whose bounds contain the pointer wins.
//!
//! Coordinates live in fixed-point normalized screen space: the unit
//! square `[0, FX_ONE]²` with the origin at the bottom left.

use vstd::prelude::*;
use crate::fixed::{fx_mul, fx_mul_s, FX_ONE};
use crate::render::{vertex_matches, ColorSource, Model, ModelView, TexTy, UvKind, Vertex};

verus! {

/// An RGBA color with fixed-point channels in `[0, FX_ONE]`.
#[derive(Copy, Clone, PartialEq, Eq, Structural, Debug)]
pub struct Color {
    pub r: i64,
    pub g: i64,
    pub b: i64,
    pub a: i64,
}

impl Color {
    /// The color channels (alpha excluded) scaled by a fixed-point factor.
    pub open spec fn spec_scale(self, factor: int) -> Color {
        Color {
            r: fx_mul_s(self.r as int, factor) as i64,
            g: fx_mul_s(self.g as int, factor) as i64,
            b: fx_mul_s(self.b as int, factor) as i64,
            a: self.a,
        }
    }

    /// Scales the red, green and blue channels by `factor`, leaving alpha
    /// untouched.
    pub fn scale(self, factor: i64) -> (c: Color)
        requires
            -1_000_000_000 <= self.r <= 1_000_000_000,
            -1_000_000_000 <= self.g <= 1_000_000_000,
            -1_000_000_000 <= self.b <= 1_000_000_000,
            -1_000_000_000 <= factor <= 1_000_000_000,
        ensures
            c == self.spec_scale(factor as int),
    {
        proof {
            crate::fixed::lemma_mul_magnitude(self.r as int, factor as int, 1_000_000_000, 1_000_000_000);
            crate::fixed::lemma_mul_magnitude(self.g as int, factor as int, 1_000_000_000, 1_000_000_000);
            crate::fixed::lemma_mul_magnitude(self.b as int, factor as int, 1_000_000_000, 1_000_000_000);
            crate::fixed::lemma_fx_mul_bound(self.r as int, factor as int, 1_000_000_000_000_000_000);
            crate::fixed::lemma_fx_mul_bound(self.g as int, factor as int, 1_000_000_000_000_000_000);
            crate::fixed::lemma_fx_mul_bound(self.b as int, factor as int, 1_000_000_000_000_000_000);
        }
        Color { r: fx_mul(self.r, factor), g: fx_mul(self.g, factor), b: fx_mul(self.b, factor), a: self.a }
    }

    /// The channels in the order the flat-color vertex layout expects.
    pub fn into_array(self) -> (arr: [i64; 4])
        ensures
            arr@ == seq![self.r, self.g, self.b, self.a],
    {
        let arr = [self.r, self.g, self.b, self.a];
        proof {
            assert(arr@ =~= seq![self.r, self.g, self.b, self.a]);
        }
        arr
    }
}

/// The two halves of a mouse click.
#[derive(Copy, Clone, PartialEq, Eq, Structural, Debug)]
pub enum ClickKind {
    PressDown,
    Release,
}

/// Whether the pointer entered or left a component's bounds.
#[derive(Copy, Clone, PartialEq, Eq, Structural, Debug)]
pub enum HoverMode {
    Enter,
    Exit,
}

impl HoverMode {
    pub fn reverse(self) -> (r: HoverMode)
        ensures
            r == (match self {
                HoverMode::Enter => HoverMode::Exit,
                HoverMode::Exit => HoverMode::Enter,
            }),
    {
        match self {
            HoverMode::Enter => HoverMode::Exit,
            HoverMode::Exit => HoverMode::Enter,
        }
    }

    pub fn to_bool(self) -> (r: bool)
        ensures
            r == (self is Enter),
    {
        match self {
            HoverMode::Enter => true,
            HoverMode::Exit => false,
        }
    }
}

/// Whether `test` lies in the axis-aligned rectangle at `pos` with extent
/// `dims` (borders included).
pub open spec fn spec_inbounds(dims: (i64, i64), pos: (i64, i64), test: (i64, i64)) -> bool {
    test.0 >= pos.0 && test.1 >= pos.1 && test.0 <= pos.0 + dims.0 && test.1 <= pos.1 + dims.1
}

/// Rectangle hit test in fixed-point normalized coordinates.
pub fn is_inbounds(dims: (i64, i64), pos: (i64, i64), test: (i64, i64)) -> (r: bool)
    requires
        -1_000_000_000_000 <= dims.0 <= 1_000_000_000_000,
        -1_000_000_000_000 <= dims.1 <= 1_000_000_000_000,
        -1_000_000_000_000 <= pos.0 <= 1_000_000_000_000,
        -1_000_000_000_000 <= pos.1 <= 1_000_000_000_000,
    ensures
        r == spec_inbounds(dims, pos, test),
{
    let bounds = (pos.0 + dims.0, pos.1 + dims.1);
    (test.0 >= pos.0 && test.1 >= pos.1) && (test.0 <= bounds.0 && test.1 <= bounds.1)
}


/// The fill of a textured quad: the texture it samples and the one-way
/// grayscale latch a button callback may set.
#[derive(Copy, Clone)]
pub struct Tex {
    pub ty: TexTy,
    pub grayscale_conv: bool,
}

/// How a quad is colored: one color per corner vertex, or a texture.
#[derive(Copy, Clone)]
pub enum Coloring {
    Color([Color; 6]),
    Tex(Tex),
}

impl Coloring {
    /// Channel bounds that keep the fixed-point scaling of a button's
    /// colors exact.
    pub open spec fn wf(&self) -> bool {
        match *self {
            Coloring::Color(colors) => forall|i: int|
                0 <= i < 6 ==> (#[trigger] colors@[i]).wf(),
            Coloring::Tex(_) => true,
        }
    }
}

/// Geometry bounds under which the normalized-to-clip transform cannot
/// overflow: a generous superset of the unit square.
pub open spec fn rect_wf(pos: (i64, i64), width: i64, height: i64) -> bool {
    &&& -1_000_000_000 <= pos.0 <= 1_000_000_000
    &&& -1_000_000_000 <= pos.1 <= 1_000_000_000
    &&& -1_000_000_000 <= width <= 1_000_000_000
    &&& -1_000_000_000 <= height <= 1_000_000_000
}

/// The normalized-to-clip transform: `clip = 2 * normalized - 1`.
pub open spec fn spec_clip(x: int) -> i64 {
    (2 * x - 1_000_000) as i64
}

/// The six corners of a quad's two triangles, in clip space, in the fixed
/// order bottom-left, bottom-right, top-right, bottom-left, top-left,
/// top-right.
pub open spec fn spec_quad_positions(pos: (i64, i64), width: i64, height: i64) -> Seq<(i64, i64)> {
    let x0 = spec_clip(pos.0 as int);
    let y0 = spec_clip(pos.1 as int);
    let x1 = spec_clip(pos.0 + width);
    let y1 = spec_clip(pos.1 + height);
    seq![(x0, y0), (x1, y0), (x1, y1), (x0, y0), (x0, y1), (x1, y1)]
}

/// Relative texture coordinates for each corner, in the same fixed order.
pub open spec fn spec_uv_offsets() -> Seq<(i64, i64)> {
    seq![
        (0i64, 0i64),
        (1_000_000i64, 0i64),
        (1_000_000i64, 1_000_000i64),
        (0i64, 0i64),
        (0i64, 1_000_000i64),
        (1_000_000i64, 1_000_000i64),
    ]
}

/// The color source a coloring declares.
pub open spec fn spec_color_src(coloring: Coloring) -> ColorSource {
    match coloring {
        Coloring::Color(_) => ColorSource::PerVert,
        Coloring::Tex(tex) => match tex.ty {
            TexTy::Atlas(region) => ColorSource::Atlas(region.atlas),
            TexTy::Simple(t) => ColorSource::Tex(t),
        },
    }
}

/// The vertex a quad builder emits for corner `i`.
pub open spec fn spec_quad_vertex(i: int, p: (i64, i64), coloring: Coloring) -> Vertex {
    match coloring {
        Coloring::Color(colors) => Vertex::Color { pos: p, color: colors@[i] },
        Coloring::Tex(tex) => Vertex::Texture {
            pos: p,
            alpha: 1_000_000,
            uv: match tex.ty {
                TexTy::Atlas(region) => UvKind::Absolute(region.uv),
                TexTy::Simple(_) => UvKind::Relative(spec_uv_offsets()[i]),
            },
            color_scale_factor: 1_000_000,
            grayscale_conv: tex.grayscale_conv,
        },
    }
}

/// The full model of a quad: exactly six vertices covering the rectangle
/// `[pos, pos + (width, height)]` after the clip transform.
pub open spec fn spec_quad_model(pos: (i64, i64), width: i64, height: i64, coloring: Coloring) -> ModelView {
    ModelView {
        vertices: Seq::new(6, |i: int| spec_quad_vertex(i, spec_quad_positions(pos, width, height)[i], coloring)),
        color_src: spec_color_src(coloring),
    }
}

impl Color {
    /// Channel bounds that keep fixed-point scaling exact.
    pub open spec fn wf(&self) -> bool {
        &&& -1_000_000_000 <= self.r <= 1_000_000_000
        &&& -1_000_000_000 <= self.g <= 1_000_000_000
        &&& -1_000_000_000 <= self.b <= 1_000_000_000
        &&& -1_000_000_000 <= self.a <= 1_000_000_000
    }
}

/// Builds the triangle list of an axis-aligned quad.  This is the shared
/// geometry builder behind every boxy component.
pub fn build_quad_model(pos: (i64, i64), width: i64, height: i64, coloring: &Coloring) -> (m: Model)
    requires
        rect_wf(pos, width, height),
    ensures
        m@ == spec_quad_model(pos, width, height, *coloring),
        m.wf(),
{
    let x0 = 2 * pos.0 - FX_ONE;
    let y0 = 2 * pos.1 - FX_ONE;
    let x1 = 2 * (pos.0 + width) - FX_ONE;
    let y1 = 2 * (pos.1 + height) - FX_ONE;
    let ps: [(i64, i64); 6] = [(x0, y0), (x1, y0), (x1, y1), (x0, y0), (x0, y1), (x1, y1)];
    let mut vs: Vec<Vertex> = Vec::new();
    let src: ColorSource;
    match coloring {
        Coloring::Color(colors) => {
            src = ColorSource::PerVert;
            vs.push(Vertex::Color { pos: ps[0], color: colors[0] });
            vs.push(Vertex::Color { pos: ps[1], color: colors[1] });
            vs.push(Vertex::Color { pos: ps[2], color: colors[2] });
            vs.push(Vertex::Color { pos: ps[3], color: colors[3] });
            vs.push(Vertex::Color { pos: ps[4], color: colors[4] });
            vs.push(Vertex::Color { pos: ps[5], color: colors[5] });
        }
        Coloring::Tex(tex) => {
            match tex.ty {
                TexTy::Atlas(region) => {
                    src = ColorSource::Atlas(region.atlas);
                    let uv = UvKind::Absolute(region.uv);
                    vs.push(Vertex::Texture { pos: ps[0], alpha: FX_ONE, uv, color_scale_factor: FX_ONE, grayscale_conv: tex.grayscale_conv });
                    vs.push(Vertex::Texture { pos: ps[1], alpha: FX_ONE, uv, color_scale_factor: FX_ONE, grayscale_conv: tex.grayscale_conv });
                    vs.push(Vertex::Texture { pos: ps[2], alpha: FX_ONE, uv, color_scale_factor: FX_ONE, grayscale_conv: tex.grayscale_conv });
                    vs.push(Vertex::Texture { pos: ps[3], alpha: FX_ONE, uv, color_scale_factor: FX_ONE, grayscale_conv: tex.grayscale_conv });
                    vs.push(Vertex::Texture { pos: ps[4], alpha: FX_ONE, uv, color_scale_factor: FX_ONE, grayscale_conv: tex.grayscale_conv });
                    vs.push(Vertex::Texture { pos: ps[5], alpha: FX_ONE, uv, color_scale_factor: FX_ONE, grayscale_conv: tex.grayscale_conv });
                }
                TexTy::Simple(_) => {
                    src = match tex.ty {
                        TexTy::Atlas(region) => ColorSource::Atlas(region.atlas),
                        TexTy::Simple(t) => ColorSource::Tex(t),
                    };
                    vs.push(Vertex::Texture { pos: ps[0], alpha: FX_ONE, uv: UvKind::Relative((0, 0)), color_scale_factor: FX_ONE, grayscale_conv: tex.grayscale_conv });
                    vs.push(Vertex::Texture { pos: ps[1], alpha: FX_ONE, uv: UvKind::Relative((FX_ONE, 0)), color_scale_factor: FX_ONE, grayscale_conv: tex.grayscale_conv });
                    vs.push(Vertex::Texture { pos: ps[2], alpha: FX_ONE, uv: UvKind::Relative((FX_ONE, FX_ONE)), color_scale_factor: FX_ONE, grayscale_conv: tex.grayscale_conv });
                    vs.push(Vertex::Texture { pos: ps[3], alpha: FX_ONE, uv: UvKind::Relative((0, 0)), color_scale_factor: FX_ONE, grayscale_conv: tex.grayscale_conv });
                    vs.push(Vertex::Texture { pos: ps[4], alpha: FX_ONE, uv: UvKind::Relative((0, FX_ONE)), color_scale_factor: FX_ONE, grayscale_conv: tex.grayscale_conv });
                    vs.push(Vertex::Texture { pos: ps[5], alpha: FX_ONE, uv: UvKind::Relative((FX_ONE, FX_ONE)), color_scale_factor: FX_ONE, grayscale_conv: tex.grayscale_conv });
                }
            }
        }
    }
    let m = Model { vertices: vs, color_src: src };
    proof {
        assert(m@.vertices =~= spec_quad_model(pos, width, height, *coloring).vertices);
        assert forall|i: int| 0 <= i < m.vertices@.len() implies crate::render::vertex_matches(
            m.vertices@[i],
            m.color_src,
        ) by {
            assert(m@.vertices[i] == spec_quad_vertex(i, spec_quad_positions(pos, width, height)[i], *coloring));
        }
    }
    m
}



/// The text a text box draws: its runs and their font scale in
/// fixed-point pixels.
pub struct TextSection {
    pub texts: Vec<String>,
    pub scale: i64,
}

/// A section queued to the glyph collaborator: screen position and bounds
/// in fixed-point pixels, plus the text runs.
pub struct QueuedSection {
    pub screen_position: (i64, i64),
    pub bounds: (i64, i64),
    pub texts: Vec<String>,
    pub scale: i64,
}

/// Mathematical image of a [`QueuedSection`].
pub struct SectionView {
    pub screen_position: (i64, i64),
    pub bounds: (i64, i64),
    pub texts: Seq<String>,
    pub scale: i64,
}

impl View for QueuedSection {
    type V = SectionView;

    open spec fn view(&self) -> SectionView {
        SectionView {
            screen_position: self.screen_position,
            bounds: self.bounds,
            texts: self.texts@,
            scale: self.scale,
        }
    }
}

/// Copies a list of text runs; the copy holds the very same strings.
fn clone_texts(texts: &Vec<String>) -> (r: Vec<String>)
    ensures
        r@ == texts@,
{
    let mut r: Vec<String> = Vec::new();
    let mut i: usize = 0;
    while i < texts.len()
        invariant
            0 <= i <= texts@.len(),
            r@ == texts@.subrange(0, i as int),
        decreases texts@.len() - i,
    {
        r.push(texts[i].clone());
        proof {
            assert(texts@.subrange(0, i + 1) =~= texts@.subrange(0, i as int).push(
                texts@[i as int],
            ));
        }
        i += 1;
    }
    proof {
        assert(r@ =~= texts@);
    }
    r
}

/// A flat quad with no behavior of its own.
pub struct ColorBox {
    pub pos: (i64, i64),
    pub width: i64,
    pub height: i64,
    pub coloring: Coloring,
}

impl ColorBox {
    pub open spec fn wf(&self) -> bool {
        rect_wf(self.pos, self.width, self.height) && self.coloring.wf()
    }

    pub open spec fn spec_model(&self) -> ModelView {
        spec_quad_model(self.pos, self.width, self.height, self.coloring)
    }

    pub fn build_model(&self) -> (m: Model)
        requires
            self.wf(),
        ensures
            m@ == self.spec_model(),
            m.wf(),
    {
        build_quad_model(self.pos, self.width, self.height, &self.coloring)
    }
}

/// A quad with a text overlay queued beside its geometry.
pub struct TextBox {
    pub pos: (i64, i64),
    pub width: i64,
    pub height: i64,
    pub coloring: Coloring,
    pub text: TextSection,
}

impl TextBox {
    pub fn new(pos: (i64, i64), width: i64, height: i64, coloring: Coloring, text: TextSection) -> (t: Self)
        ensures
            t == (TextBox { pos, width, height, coloring, text }),
    {
        TextBox { pos, width, height, coloring, text }
    }

    pub open spec fn wf(&self) -> bool {
        rect_wf(self.pos, self.width, self.height) && self.coloring.wf()
    }

    pub open spec fn spec_model(&self) -> ModelView {
        spec_quad_model(self.pos, self.width, self.height, self.coloring)
    }

    pub fn build_model(&self) -> (m: Model)
        requires
            self.wf(),
        ensures
            m@ == self.spec_model(),
            m.wf(),
    {
        build_quad_model(self.pos, self.width, self.height, &self.coloring)
    }

    /// The glyph section this box queues, given the framebuffer size: the
    /// position is flipped to a top-left origin and scaled to pixels.
    pub open spec fn spec_section(&self, dims: (u32, u32)) -> SectionView {
        SectionView {
            screen_position: (
                (self.pos.0 * dims.0) as i64,
                ((1_000_000 - self.pos.1) * dims.1) as i64,
            ),
            bounds: ((self.width * dims.0) as i64, (self.height * dims.1) as i64),
            texts: self.text.texts@,
            scale: self.text.scale,
        }
    }

    /// Builds the glyph section for the current framebuffer size.
    pub fn section(&self, dims: (u32, u32)) -> (s: QueuedSection)
        requires
            self.wf(),
        ensures
            s@ == self.spec_section(dims),
    {
        proof {
            crate::fixed::lemma_mul_magnitude(
                self.pos.0 as int,
                dims.0 as int,
                1_000_000_000,
                4_294_967_295,
            );
            crate::fixed::lemma_mul_magnitude(
                1_000_000 - self.pos.1,
                dims.1 as int,
                1_001_000_000,
                4_294_967_295,
            );
            crate::fixed::lemma_mul_magnitude(
                self.width as int,
                dims.0 as int,
                1_000_000_000,
                4_294_967_295,
            );
            crate::fixed::lemma_mul_magnitude(
                self.height as int,
                dims.1 as int,
                1_000_000_000,
                4_294_967_295,
            );
        }
        QueuedSection {
            screen_position: (
                self.pos.0 * (dims.0 as i64),
                (1_000_000 - self.pos.1) * (dims.1 as i64),
            ),
            bounds: (self.width * (dims.0 as i64), self.height * (dims.1 as i64)),
            texts: clone_texts(&self.text.texts),
            scale: self.text.scale,
        }
    }
}

/// What pressing a button does; the payload it may need travels in the
/// button's `data` field.
#[derive(Copy, Clone, PartialEq, Eq, Structural, Debug)]
pub enum ButtonHandler {
    SelectCharacter,
    StartGame,
    Inert,
}

/// What a button callback asks the session to do.
#[derive(Copy, Clone, PartialEq, Eq, Structural, Debug)]
pub enum UiEvent {
    AddPlayer { character_id: usize },
    StartGame,
}

/// The factor a vertex is dimmed by: hovering and pressing each multiply
/// the color by 0.8, compounding.
pub open spec fn spec_button_scale(hovered: bool, pressed: bool) -> i64 {
    if hovered && pressed {
        640_000
    } else if hovered || pressed {
        800_000
    } else {
        1_000_000
    }
}

/// A vertex dimmed by a button's hover/press factor: flat colors are
/// scaled channel-wise, textured vertices carry the factor for the
/// fragment stage.
pub open spec fn spec_scaled_vertex(v: Vertex, factor: i64) -> Vertex {
    match v {
        Vertex::Color { pos, color } => Vertex::Color {
            pos,
            color: color.spec_scale(factor as int),
        },
        Vertex::Texture { pos, alpha, uv, color_scale_factor, grayscale_conv } => Vertex::Texture {
            pos,
            alpha,
            uv,
            color_scale_factor: factor,
            grayscale_conv,
        },
    }
}

/// A text box that tracks hover/press state and fires a callback when a
/// click is released inside its bounds.
pub struct Button {
    pub inner_box: TextBox,
    pub data: Option<usize>,
    pub handler: ButtonHandler,
    pub hovered: bool,
    pub pressed: bool,
}

impl Button {
    pub fn new(inner_box: TextBox, handler: ButtonHandler, data: Option<usize>) -> (b: Self)
        ensures
            b == (Button { inner_box, data, handler, hovered: false, pressed: false }),
    {
        Button { inner_box, data, handler, hovered: false, pressed: false }
    }

    pub open spec fn wf(&self) -> bool {
        self.inner_box.wf() && (self.handler is SelectCharacter ==> self.data is Some)
    }

    /// The one-way grayscale latch: set by the character-select callback,
    /// cleared by nothing.
    pub open spec fn grayscale(&self) -> bool {
        match self.inner_box.coloring {
            Coloring::Tex(tex) => tex.grayscale_conv,
            Coloring::Color(_) => false,
        }
    }

    pub open spec fn spec_model(&self) -> ModelView {
        ModelView {
            vertices: self.inner_box.spec_model().vertices.map(
                |i: int, v: Vertex| spec_scaled_vertex(v, spec_button_scale(self.hovered, self.pressed)),
            ),
            color_src: self.inner_box.spec_model().color_src,
        }
    }

    /// The state and event after the stored callback runs: the
    /// character-select callback latches the grayscale flag and asks for
    /// the character to join once; the start callback asks the session to
    /// begin.
    pub open spec fn spec_apply_callback(self) -> (Button, Option<UiEvent>) {
        match self.handler {
            ButtonHandler::SelectCharacter => match self.inner_box.coloring {
                Coloring::Tex(tex) => {
                    let marked = Button {
                        inner_box: TextBox {
                            pos: self.inner_box.pos,
                            width: self.inner_box.width,
                            height: self.inner_box.height,
                            coloring: Coloring::Tex(Tex { ty: tex.ty, grayscale_conv: true }),
                            text: self.inner_box.text,
                        },
                        data: self.data,
                        handler: self.handler,
                        hovered: self.hovered,
                        pressed: self.pressed,
                    };
                    if !tex.grayscale_conv {
                        let ev = match self.data {
                            Option::Some(id) => Option::Some(UiEvent::AddPlayer { character_id: id }),
                            Option::None => Option::None,
                        };
                        (marked, ev)
                    } else {
                        (marked, Option::None)
                    }
                },
                Coloring::Color(_) => (self, Option::None),
            },
            ButtonHandler::StartGame => (self, Option::Some(UiEvent::StartGame)),
            ButtonHandler::Inert => (self, Option::None),
        }
    }

    /// The button state machine: a press latches `pressed`; a release
    /// clears it and runs the callback only if the pointer is still inside
    /// the bounds.
    pub open spec fn spec_on_click(self, kind: ClickKind, pos: (i64, i64)) -> (Button, Option<UiEvent>) {
        if kind is Release {
            let released = Button {
                inner_box: self.inner_box,
                data: self.data,
                handler: self.handler,
                hovered: self.hovered,
                pressed: false,
            };
            if spec_inbounds((self.inner_box.width, self.inner_box.height), self.inner_box.pos, pos) {
                released.spec_apply_callback()
            } else {
                (released, Option::None)
            }
        } else {
            (
                Button {
                    inner_box: self.inner_box,
                    data: self.data,
                    handler: self.handler,
                    hovered: self.hovered,
                    pressed: true,
                },
                Option::None,
            )
        }
    }

    pub open spec fn spec_on_hover(self, mode: HoverMode) -> Button {
        Button {
            inner_box: self.inner_box,
            data: self.data,
            handler: self.handler,
            hovered: mode is Enter,
            pressed: self.pressed,
        }
    }

    pub fn build_model(&self) -> (m: Model)
        requires
            self.wf(),
        ensures
            m@ == self.spec_model(),
            m.wf(),
    {
        let base = self.inner_box.build_model();
        let factor: i64 = if self.hovered && self.pressed {
            640_000
        } else if self.hovered || self.pressed {
            800_000
        } else {
            1_000_000
        };
        let Model { vertices: mut vs, color_src } = base;
        let ghost orig = vs@;
        let mut i: usize = 0;
        while i < vs.len()
            invariant
                0 <= i <= vs@.len(),
                vs@.len() == orig.len(),
                factor == spec_button_scale(self.hovered, self.pressed),
                forall|j: int| 0 <= j < i ==> vs@[j] == spec_scaled_vertex(orig[j], factor),
                forall|j: int| i <= j < vs@.len() ==> vs@[j] == orig[j],
                orig == self.inner_box.spec_model().vertices,
                self.inner_box.coloring.wf(),
            decreases vs@.len() - i,
        {
            let v = vs[i];
            match v {
                Vertex::Color { pos, color } => {
                    proof {
                        assert(orig[i as int] == spec_quad_vertex(
                            i as int,
                            spec_quad_positions(self.inner_box.pos, self.inner_box.width, self.inner_box.height)[i as int],
                            self.inner_box.coloring,
                        ));
                    }
                    vs[i] = Vertex::Color { pos, color: color.scale(factor) };
                }
                Vertex::Texture { pos, alpha, uv, color_scale_factor, grayscale_conv } => {
                    vs[i] = Vertex::Texture {
                        pos,
                        alpha,
                        uv,
                        color_scale_factor: factor,
                        grayscale_conv,
                    };
                }
            }
            i += 1;
        }
        let m = Model { vertices: vs, color_src };
        proof {
            assert(m@.vertices =~= self.spec_model().vertices);
            assert forall|j: int| 0 <= j < m.vertices@.len() implies crate::render::vertex_matches(
                m.vertices@[j],
                m.color_src,
            ) by {
                assert(crate::render::vertex_matches(orig[j], color_src));
            }
        }
        m
    }

    pub fn on_click(&mut self, kind: ClickKind, pos: (i64, i64)) -> (ev: Option<UiEvent>)
        requires
            old(self).wf(),
        ensures
            *final(self) == old(self).spec_on_click(kind, pos).0,
            ev == old(self).spec_on_click(kind, pos).1,
            final(self).wf(),
    {
        match kind {
            ClickKind::Release => {
                self.pressed = false;
                if is_inbounds(
                    (self.inner_box.width, self.inner_box.height),
                    self.inner_box.pos,
                    pos,
                ) {
                    self.apply_callback()
                } else {
                    None
                }
            }
            ClickKind::PressDown => {
                self.pressed = true;
                None
            }
        }
    }

    fn apply_callback(&mut self) -> (ev: Option<UiEvent>)
        requires
            old(self).wf(),
        ensures
            *final(self) == old(self).spec_apply_callback().0,
            ev == old(self).spec_apply_callback().1,
            final(self).wf(),
    {
        match self.handler {
            ButtonHandler::SelectCharacter => {
                let data = self.data;
                match &mut self.inner_box.coloring {
                    Coloring::Tex(tex) => {
                        let fresh = !tex.grayscale_conv;
                        tex.grayscale_conv = true;
                        if fresh {
                            match data {
                                Some(id) => Some(UiEvent::AddPlayer { character_id: id }),
                                None => None,
                            }
                        } else {
                            None
                        }
                    }
                    Coloring::Color(_) => None,
                }
            }
            ButtonHandler::StartGame => Some(UiEvent::StartGame),
            ButtonHandler::Inert => None,
        }
    }

    pub fn on_hover(&mut self, mode: HoverMode, _pos: (i64, i64))
        ensures
            *final(self) == old(self).spec_on_hover(mode),
    {
        self.hovered = mode.to_bool();
    }

    pub fn is_hovered(&self) -> (r: Option<HoverMode>)
        ensures
            r == Some(if self.hovered { HoverMode::Enter } else { HoverMode::Exit }),
    {
        if self.hovered {
            Some(HoverMode::Enter)
        } else {
            Some(HoverMode::Exit)
        }
    }
}

/// A text box with an activity flag: clicking inside activates it,
/// clicking elsewhere deactivates it.  Keyboard entry is not wired up.
pub struct InputBox {
    pub inner_box: TextBox,
    pub active: bool,
}

impl InputBox {
    pub open spec fn wf(&self) -> bool {
        self.inner_box.wf()
    }
}



/// A UI node: the closed set of component variants the client draws.
pub enum Component {
    Color(ColorBox),
    Text(TextBox),
    Button(Button),
    Input(InputBox),
}

impl Component {
    pub open spec fn wf(&self) -> bool {
        match self {
            Component::Color(c) => c.wf(),
            Component::Text(t) => t.wf(),
            Component::Button(b) => b.wf(),
            Component::Input(ib) => ib.wf(),
        }
    }

    pub open spec fn spec_model(&self) -> ModelView {
        match self {
            Component::Color(c) => c.spec_model(),
            Component::Text(t) => t.spec_model(),
            Component::Button(b) => b.spec_model(),
            Component::Input(ib) => ib.inner_box.spec_model(),
        }
    }

    pub open spec fn spec_pos(&self) -> (i64, i64) {
        match self {
            Component::Color(c) => c.pos,
            Component::Text(t) => t.pos,
            Component::Button(b) => b.inner_box.pos,
            Component::Input(ib) => ib.inner_box.pos,
        }
    }

    pub open spec fn spec_dims(&self) -> (i64, i64) {
        match self {
            Component::Color(c) => (c.width, c.height),
            Component::Text(t) => (t.width, t.height),
            Component::Button(b) => (b.inner_box.width, b.inner_box.height),
            Component::Input(ib) => (ib.inner_box.width, ib.inner_box.height),
        }
    }

    /// The component and event after a click lands inside its bounds:
    /// only buttons and input boxes react.
    pub open spec fn spec_on_click(self, kind: ClickKind, pos: (i64, i64)) -> (Component, Option<UiEvent>) {
        match self {
            Component::Button(b) => {
                let r = b.spec_on_click(kind, pos);
                (Component::Button(r.0), r.1)
            },
            Component::Input(ib) => (
                Component::Input(InputBox { inner_box: ib.inner_box, active: true }),
                Option::None,
            ),
            _ => (self, Option::None),
        }
    }

    /// The component after a click lands elsewhere: an input box
    /// deactivates, everything else is untouched.
    pub open spec fn spec_on_click_outside(self) -> Component {
        match self {
            Component::Input(ib) => Component::Input(
                InputBox { inner_box: ib.inner_box, active: false },
            ),
            _ => self,
        }
    }

    /// The component after a hover transition: only buttons track it.
    pub open spec fn spec_on_hover(self, mode: HoverMode) -> Component {
        match self {
            Component::Button(b) => Component::Button(b.spec_on_hover(mode)),
            _ => self,
        }
    }

    /// The hover state a component reports: only buttons report one.
    pub open spec fn spec_is_hovered(&self) -> Option<HoverMode> {
        match self {
            Component::Button(b) => Option::Some(
                if b.hovered {
                    HoverMode::Enter
                } else {
                    HoverMode::Exit
                },
            ),
            _ => Option::None,
        }
    }

    /// The glyph section the component queues while rendering, if any.
    pub open spec fn spec_section(&self, dims: (u32, u32)) -> Option<SectionView> {
        match self {
            Component::Color(_) => Option::None,
            Component::Text(t) => Option::Some(t.spec_section(dims)),
            Component::Button(b) => Option::Some(b.inner_box.spec_section(dims)),
            Component::Input(ib) => Option::Some(ib.inner_box.spec_section(dims)),
        }
    }

    pub fn build_model(&self) -> (m: Model)
        requires
            self.wf(),
        ensures
            m@ == self.spec_model(),
            m.wf(),
    {
        match self {
            Component::Color(c) => c.build_model(),
            Component::Text(t) => t.build_model(),
            Component::Button(b) => b.build_model(),
            Component::Input(ib) => ib.inner_box.build_model(),
        }
    }

    pub fn pos(&self) -> (r: (i64, i64))
        ensures
            r == self.spec_pos(),
    {
        match self {
            Component::Color(c) => c.pos,
            Component::Text(t) => t.pos,
            Component::Button(b) => b.inner_box.pos,
            Component::Input(ib) => ib.inner_box.pos,
        }
    }

    pub fn dims(&self) -> (r: (i64, i64))
        ensures
            r == self.spec_dims(),
    {
        match self {
            Component::Color(c) => (c.width, c.height),
            Component::Text(t) => (t.width, t.height),
            Component::Button(b) => (b.inner_box.width, b.inner_box.height),
            Component::Input(ib) => (ib.inner_box.width, ib.inner_box.height),
        }
    }

    pub fn on_click(&mut self, kind: ClickKind, pos: (i64, i64)) -> (ev: Option<UiEvent>)
        requires
            old(self).wf(),
        ensures
            *final(self) == old(self).spec_on_click(kind, pos).0,
            ev == old(self).spec_on_click(kind, pos).1,
            final(self).wf(),
            final(self).spec_pos() == old(self).spec_pos(),
            final(self).spec_dims() == old(self).spec_dims(),
    {
        match self {
            Component::Button(b) => b.on_click(kind, pos),
            Component::Input(ib) => {
                ib.active = true;
                None
            }
            _ => None,
        }
    }

    pub fn on_click_outside(&mut self)
        requires
            old(self).wf(),
        ensures
            *final(self) == old(self).spec_on_click_outside(),
            final(self).wf(),
            final(self).spec_pos() == old(self).spec_pos(),
            final(self).spec_dims() == old(self).spec_dims(),
    {
        match self {
            Component::Input(ib) => {
                ib.active = false;
            }
            _ => {}
        }
    }

    pub fn on_scroll(&mut self)
        ensures
            *final(self) == *old(self),
    {
    }

    pub fn on_hover(&mut self, mode: HoverMode, pos: (i64, i64))
        requires
            old(self).wf(),
        ensures
            *final(self) == old(self).spec_on_hover(mode),
            final(self).wf(),
            final(self).spec_pos() == old(self).spec_pos(),
            final(self).spec_dims() == old(self).spec_dims(),
    {
        match self {
            Component::Button(b) => b.on_hover(mode, pos),
            _ => {}
        }
    }

    pub fn is_hovered(&self) -> (r: Option<HoverMode>)
        ensures
            r == self.spec_is_hovered(),
    {
        match self {
            Component::Button(b) => b.is_hovered(),
            _ => None,
        }
    }

    /// The render-time side effect of a component: the glyph section it
    /// queues, if it draws text.
    pub fn do_render(&self, dims: (u32, u32)) -> (s: Option<QueuedSection>)
        requires
            self.wf(),
        ensures
            match (s, self.spec_section(dims)) {
                (Option::Some(q), Option::Some(v)) => q@ == v,
                (Option::None, Option::None) => true,
                _ => false,
            },
    {
        match self {
            Component::Color(_) => None,
            Component::Text(t) => Some(t.section(dims)),
            Component::Button(b) => Some(b.inner_box.section(dims)),
            Component::Input(ib) => Some(ib.inner_box.section(dims)),
        }
    }
}

/// A well-formed component always builds a well-formed model.
pub proof fn lemma_spec_model_wf(c: Component)
    requires
        c.wf(),
    ensures
        crate::render::model_view_wf(c.spec_model()),
{
    match c {
        Component::Button(b) => {
            let inner = b.inner_box.spec_model();
            let factor = spec_button_scale(b.hovered, b.pressed);
            assert forall|i: int| 0 <= i < c.spec_model().vertices.len() implies vertex_matches(
                c.spec_model().vertices[i],
                c.spec_model().color_src,
            ) by {
                assert(c.spec_model().vertices[i] == spec_scaled_vertex(inner.vertices[i], factor));
                assert(inner.vertices[i] == spec_quad_vertex(
                    i,
                    spec_quad_positions(b.inner_box.pos, b.inner_box.width, b.inner_box.height)[i],
                    b.inner_box.coloring,
                ));
            }
        }
        _ => {
            assert forall|i: int| 0 <= i < c.spec_model().vertices.len() implies vertex_matches(
                c.spec_model().vertices[i],
                c.spec_model().color_src,
            ) by {
            }
        }
    }
}

/// The state of one cached node: the component, its cached geometry, the
/// dirty flag, and how many times the geometry was rebuilt.
pub struct UiNodeView {
    pub inner: Component,
    pub cached: ModelView,
    pub dirty: bool,
    pub rebuilds: int,
}

/// The cache invariant: a clean node's cached geometry is the geometry of
/// its component.
pub open spec fn node_wf(v: UiNodeView) -> bool {
    &&& v.inner.wf()
    &&& !v.dirty ==> v.cached == v.inner.spec_model()
    &&& v.rebuilds >= 0
}

/// The node after one `build_model` call: clean, holding the current
/// geometry, the rebuild counter bumped only if the flag was set.
pub open spec fn spec_after_build(v: UiNodeView) -> UiNodeView {
    UiNodeView {
        inner: v.inner,
        cached: v.inner.spec_model(),
        dirty: false,
        rebuilds: v.rebuilds + if v.dirty {
            1int
        } else {
            0int
        },
    }
}

/// The node after a click was dispatched to it.
pub open spec fn spec_after_click(v: UiNodeView, kind: ClickKind, pos: (i64, i64)) -> UiNodeView {
    UiNodeView {
        inner: v.inner.spec_on_click(kind, pos).0,
        cached: v.cached,
        dirty: true,
        rebuilds: v.rebuilds,
    }
}

/// The node after a click landed outside it.
pub open spec fn spec_after_click_outside(v: UiNodeView) -> UiNodeView {
    UiNodeView {
        inner: v.inner.spec_on_click_outside(),
        cached: v.cached,
        dirty: true,
        rebuilds: v.rebuilds,
    }
}

/// The node after a hover transition was dispatched to it.
pub open spec fn spec_after_hover(v: UiNodeView, mode: HoverMode) -> UiNodeView {
    UiNodeView {
        inner: v.inner.spec_on_hover(mode),
        cached: v.cached,
        dirty: true,
        rebuilds: v.rebuilds,
    }
}

/// A component with its cached geometry, a dirty flag, and a rebuild
/// counter that makes the caching observable.
pub struct InnerUIComponent {
    pub inner: Component,
    pub precomputed_model: Model,
    pub dirty: bool,
    pub rebuilds: u64,
}

impl View for InnerUIComponent {
    type V = UiNodeView;

    open spec fn view(&self) -> UiNodeView {
        UiNodeView {
            inner: self.inner,
            cached: self.precomputed_model@,
            dirty: self.dirty,
            rebuilds: self.rebuilds as int,
        }
    }
}

impl InnerUIComponent {
    pub open spec fn wf(&self) -> bool {
        node_wf(self@)
    }

    /// Returns the cached geometry, rebuilding it first if and only if the
    /// node is dirty.
    pub fn build_model(&mut self) -> (m: Model)
        requires
            old(self).wf(),
            old(self).rebuilds < u64::MAX,
        ensures
            final(self)@ == spec_after_build(old(self)@),
            final(self).wf(),
            m@ == old(self).inner.spec_model(),
            m.wf(),
    {
        if self.dirty {
            self.precomputed_model = self.inner.build_model();
            self.dirty = false;
            self.rebuilds = self.rebuilds + 1;
        }
        proof {
            lemma_spec_model_wf(self.inner);
        }
        self.precomputed_model.clone()
    }

    /// Marks the cached geometry stale.
    pub fn make_dirty(&mut self)
        ensures
            final(self)@ == (UiNodeView {
                inner: old(self)@.inner,
                cached: old(self)@.cached,
                dirty: true,
                rebuilds: old(self)@.rebuilds,
            }),
    {
        self.dirty = true;
    }
}

/// A cached node of the component tree.
pub struct UIComponent {
    pub inner: InnerUIComponent,
}

impl View for UIComponent {
    type V = UiNodeView;

    open spec fn view(&self) -> UiNodeView {
        self.inner@
    }
}

impl UIComponent {
    pub open spec fn wf(&self) -> bool {
        node_wf(self@)
    }

    pub fn build_model(&mut self) -> (m: Model)
        requires
            old(self).wf(),
            old(self)@.rebuilds < u64::MAX,
        ensures
            final(self)@ == spec_after_build(old(self)@),
            final(self).wf(),
            m@ == old(self)@.inner.spec_model(),
            m.wf(),
    {
        self.inner.build_model()
    }

    /// Dispatches a click that landed inside this node's bounds and marks
    /// the cache stale.
    pub fn on_click(&mut self, kind: ClickKind, pos: (i64, i64)) -> (ev: Option<UiEvent>)
        requires
            old(self).wf(),
        ensures
            final(self)@ == spec_after_click(old(self)@, kind, pos),
            ev == old(self)@.inner.spec_on_click(kind, pos).1,
            final(self).wf(),
    {
        let ev = self.inner.inner.on_click(kind, pos);
        self.inner.make_dirty();
        ev
    }

    /// Dispatches a click that landed outside this node's bounds and marks
    /// the cache stale.
    pub fn on_click_outside(&mut self)
        requires
            old(self).wf(),
        ensures
            final(self)@ == spec_after_click_outside(old(self)@),
            final(self).wf(),
    {
        self.inner.inner.on_click_outside();
        self.inner.make_dirty();
    }

    /// Dispatches a hover transition and marks the cache stale.
    pub fn on_hover(&mut self, mode: HoverMode, pos: (i64, i64))
        requires
            old(self).wf(),
        ensures
            final(self)@ == spec_after_hover(old(self)@, mode),
            final(self).wf(),
    {
        self.inner.inner.on_hover(mode, pos);
        self.inner.make_dirty();
    }

    pub fn is_hovered(&self) -> (r: Option<HoverMode>)
        ensures
            r == self@.inner.spec_is_hovered(),
    {
        self.inner.inner.is_hovered()
    }

    /// Whether the pointer position lies inside this node's bounds.
    pub fn is_inbounds(&self, pos: (i64, i64)) -> (r: bool)
        requires
            self.wf(),
        ensures
            r == spec_inbounds(self@.inner.spec_dims(), self@.inner.spec_pos(), pos),
    {
        let dims = self.inner.inner.dims();
        let inner_pos = self.inner.inner.pos();
        proof {
            match self.inner.inner {
                Component::Color(_) => {}
                Component::Text(_) => {}
                Component::Button(_) => {}
                Component::Input(_) => {}
            }
        }
        is_inbounds(dims, inner_pos, pos)
    }
}



/// Scroll bookkeeping for scrollable containers, in fixed-point units.
pub struct ScrollData {
    pub min_y: i64,
    pub max_y: i64,
    pub min_x: i64,
    pub max_x: i64,
    pub offset_x: i64,
    pub offset_y: i64,
}

impl Default for ScrollData {
    fn default() -> (r: Self)
        ensures
            r == (ScrollData { min_y: 0, max_y: 0, min_x: 0, max_x: 0, offset_x: 0, offset_y: 0 }),
    {
        ScrollData { min_y: 0, max_y: 0, min_x: 0, max_x: 0, offset_x: 0, offset_y: 0 }
    }
}

/// Whether the pointer lies inside a node's bounds.
pub open spec fn spec_hit(c: UIComponent, pos: (i64, i64)) -> bool {
    spec_inbounds(c@.inner.spec_dims(), c@.inner.spec_pos(), pos)
}

/// No node of the sequence contains the pointer.
pub open spec fn spec_no_hit(cs: Seq<UIComponent>, pos: (i64, i64)) -> bool {
    forall|j: int| 0 <= j < cs.len() ==> !spec_hit(cs[j], pos)
}

/// Node `i` is the first node, in insertion order, containing the pointer.
pub open spec fn spec_first_hit(cs: Seq<UIComponent>, pos: (i64, i64), i: int) -> bool {
    &&& 0 <= i < cs.len()
    &&& spec_hit(cs[i], pos)
    &&& forall|j: int| 0 <= j < i ==> !spec_hit(cs[j], pos)
}

/// An insertion-ordered collection of cached nodes with hit-testing
/// dispatch: the first node containing the pointer receives the positive
/// event, every other node the negative one.
pub struct Container {
    pub components: Vec<UIComponent>,
    pub scroll_data: ScrollData,
}

impl Default for Container {
    fn default() -> (c: Self)
        ensures
            c.components@.len() == 0,
            c.wf(),
    {
        Container { components: Vec::new(), scroll_data: ScrollData::default() }
    }
}

impl Container {
    /// Every node's cache invariant holds.
    pub open spec fn wf(&self) -> bool {
        forall|i: int|
            0 <= i < self.components@.len() ==> (#[trigger] self.components@[i]).wf()
    }

    pub fn new() -> (c: Self)
        ensures
            c.components@.len() == 0,
            c.wf(),
    {
        Container::default()
    }

    /// Appends a component, computing its initial cached geometry so the
    /// node starts clean.
    pub fn add(&mut self, component: Component)
        requires
            old(self).wf(),
            component.wf(),
        ensures
            final(self).components@.len() == old(self).components@.len() + 1,
            forall|i: int|
                0 <= i < old(self).components@.len() ==> final(self).components@[i]
                    == old(self).components@[i],
            final(self).components@.last()@ == (UiNodeView {
                inner: component,
                cached: component.spec_model(),
                dirty: false,
                rebuilds: 0int,
            }),
            final(self).wf(),
    {
        let model = component.build_model();
        self.components.push(
            UIComponent {
                inner: InnerUIComponent {
                    inner: component,
                    precomputed_model: model,
                    dirty: false,
                    rebuilds: 0,
                },
            },
        );
    }

    /// Dispatches a click with one linear scan: the first node containing
    /// the pointer receives `on_click`, every other node
    /// `on_click_outside`.  Returns what the clicked node's callback asks
    /// of the session.
    pub fn on_mouse_click(&mut self, pos: (i64, i64), kind: ClickKind) -> (events: Vec<UiEvent>)
        requires
            old(self).wf(),
        ensures
            final(self).components@.len() == old(self).components@.len(),
            final(self).wf(),
            spec_no_hit(old(self).components@, pos) ==> events@ == Seq::<UiEvent>::empty()
                && (forall|j: int|
                0 <= j < old(self).components@.len() ==> final(self).components@[j]@
                    == spec_after_click_outside(#[trigger] old(self).components@[j]@)),
            forall|i: int|
                #[trigger] spec_first_hit(old(self).components@, pos, i) ==> {
                    &&& final(self).components@[i]@ == spec_after_click(
                        old(self).components@[i]@,
                        kind,
                        pos,
                    )
                    &&& events@ == (match old(self).components@[i]@.inner.spec_on_click(
                        kind,
                        pos,
                    ).1 {
                        Option::Some(e) => seq![e],
                        Option::None => Seq::<UiEvent>::empty(),
                    })
                    &&& forall|j: int|
                        0 <= j < old(self).components@.len() && j != i
                            ==> final(self).components@[j]@ == spec_after_click_outside(
                            #[trigger] old(self).components@[j]@,
                        )
                },
    {
        let mut events: Vec<UiEvent> = Vec::new();
        let mut found = false;
        let ghost mut hit_idx: int = 0;
        let mut i: usize = 0;
        while i < self.components.len()
            invariant
                0 <= i <= self.components@.len(),
                self.components@.len() == old(self).components@.len(),
                forall|j: int|
                    i <= j < self.components@.len() ==> self.components@[j] == old(
                        self,
                    ).components@[j],
                forall|j: int|
                    0 <= j < self.components@.len() ==> (#[trigger] self.components@[j]).wf(),
                old(self).wf(),
                !found ==> {
                    &&& forall|j: int|
                        0 <= j < i ==> !spec_hit(#[trigger] old(self).components@[j], pos)
                    &&& forall|j: int|
                        0 <= j < i ==> self.components@[j]@ == spec_after_click_outside(
                            #[trigger] old(self).components@[j]@,
                        )
                    &&& events@ == Seq::<UiEvent>::empty()
                },
                found ==> {
                    &&& spec_first_hit(old(self).components@, pos, hit_idx)
                    &&& hit_idx < i
                    &&& self.components@[hit_idx]@ == spec_after_click(
                        old(self).components@[hit_idx]@,
                        kind,
                        pos,
                    )
                    &&& forall|j: int|
                        0 <= j < i && j != hit_idx ==> self.components@[j]@
                            == spec_after_click_outside(#[trigger] old(self).components@[j]@)
                    &&& events@ == (match old(self).components@[hit_idx]@.inner.spec_on_click(
                        kind,
                        pos,
                    ).1 {
                        Option::Some(e) => seq![e],
                        Option::None => Seq::<UiEvent>::empty(),
                    })
                },
            decreases self.components@.len() - i,
        {
            let inb = self.components[i].is_inbounds(pos);
            if !found && inb {
                let ev = self.components[i].on_click(kind, pos);
                match ev {
                    Some(e) => events.push(e),
                    None => {}
                }
                found = true;
                proof {
                    hit_idx = i as int;
                }
            } else {
                self.components[i].on_click_outside();
            }
            i += 1;
        }
        events
    }

    /// Dispatches a hover with one linear scan: the first node containing
    /// the pointer is entered; any other node whose last reported state
    /// was `Enter` is exited; nodes that were never entered are left
    /// untouched.
    pub fn on_mouse_hover(&mut self, pos: (i64, i64))
        requires
            old(self).wf(),
        ensures
            final(self).components@.len() == old(self).components@.len(),
            final(self).wf(),
            spec_no_hit(old(self).components@, pos) ==> (forall|j: int|
                0 <= j < old(self).components@.len() ==> {
                    if old(self).components@[j]@.inner.spec_is_hovered() == Option::Some(
                        HoverMode::Enter,
                    ) {
                        final(self).components@[j]@ == spec_after_hover(
                            #[trigger] old(self).components@[j]@,
                            HoverMode::Exit,
                        )
                    } else {
                        final(self).components@[j] == old(self).components@[j]
                    }
                }),
            forall|i: int|
                #[trigger] spec_first_hit(old(self).components@, pos, i) ==> {
                    &&& final(self).components@[i]@ == spec_after_hover(
                        old(self).components@[i]@,
                        HoverMode::Enter,
                    )
                    &&& forall|j: int|
                        0 <= j < old(self).components@.len() && j != i ==> {
                            if old(self).components@[j]@.inner.spec_is_hovered() == Option::Some(
                                HoverMode::Enter,
                            ) {
                                final(self).components@[j]@ == spec_after_hover(
                                    #[trigger] old(self).components@[j]@,
                                    HoverMode::Exit,
                                )
                            } else {
                                final(self).components@[j] == old(self).components@[j]
                            }
                        }
                },
    {
        let mut found = false;
        let ghost mut hit_idx: int = 0;
        let mut i: usize = 0;
        while i < self.components.len()
            invariant
                0 <= i <= self.components@.len(),
                self.components@.len() == old(self).components@.len(),
                forall|j: int|
                    i <= j < self.components@.len() ==> self.components@[j] == old(
                        self,
                    ).components@[j],
                forall|j: int|
                    0 <= j < self.components@.len() ==> (#[trigger] self.components@[j]).wf(),
                old(self).wf(),
                !found ==> forall|j: int|
                    0 <= j < i ==> !spec_hit(#[trigger] old(self).components@[j], pos),
                found ==> spec_first_hit(old(self).components@, pos, hit_idx) && hit_idx < i
                    && self.components@[hit_idx]@ == spec_after_hover(
                    old(self).components@[hit_idx]@,
                    HoverMode::Enter,
                ),
                forall|j: int|
                    0 <= j < i && (!found || j != hit_idx) ==> {
                        if old(self).components@[j]@.inner.spec_is_hovered() == Option::Some(
                            HoverMode::Enter,
                        ) {
                            self.components@[j]@ == spec_after_hover(
                                #[trigger] old(self).components@[j]@,
                                HoverMode::Exit,
                            )
                        } else {
                            self.components@[j] == old(self).components@[j]
                        }
                    },
            decreases self.components@.len() - i,
        {
            let inb = self.components[i].is_inbounds(pos);
            if !found && inb {
                self.components[i].on_hover(HoverMode::Enter, pos);
                found = true;
                proof {
                    hit_idx = i as int;
                }
            } else {
                let hovered = self.components[i].is_hovered();
                let entered = match hovered {
                    Some(HoverMode::Enter) => true,
                    _ => false,
                };
                if entered {
                    self.components[i].on_hover(HoverMode::Exit, pos);
                }
            }
            i += 1;
        }
    }
}



/// The glyph sections the components of a container queue while their
/// models are built, in order, all on the built-in brush.
pub open spec fn spec_sections_list(cs: Seq<UIComponent>, dims: (u32, u32)) -> Seq<(usize, SectionView)>
    decreases cs.len(),
{
    if cs.len() == 0 {
        Seq::empty()
    } else {
        spec_sections_list(cs.drop_last(), dims) + (match cs.last()@.inner.spec_section(dims) {
            Option::Some(v) => seq![(0usize, v)],
            Option::None => Seq::empty(),
        })
    }
}

/// The mathematical image of a queued-section list.
pub open spec fn spec_queued_view(q: Seq<(usize, QueuedSection)>) -> Seq<(usize, SectionView)> {
    q.map(|i: int, e: (usize, QueuedSection)| (e.0, e.1@))
}

impl Container {
    /// Builds every node's geometry (from cache where clean) and queues
    /// each node's text section on the renderer's built-in glyph brush.
    pub fn build_models(&mut self, renderer: &mut crate::frame::Renderer) -> (models: Vec<Model>)
        requires
            old(self).wf(),
            old(renderer).wf(),
            forall|i: int|
                0 <= i < old(self).components@.len() ==> (#[trigger] old(
                    self,
                ).components@[i])@.rebuilds < u64::MAX,
        ensures
            final(self).components@.len() == old(self).components@.len(),
            final(self).wf(),
            models@.len() == old(self).components@.len(),
            forall|i: int|
                0 <= i < old(self).components@.len() ==> (#[trigger] models@[i])@ == old(
                    self,
                ).components@[i]@.inner.spec_model(),
            forall|i: int|
                0 <= i < old(self).components@.len() ==> (#[trigger] final(self).components@[i])@
                    == spec_after_build(old(self).components@[i]@),
            final(renderer).models@ == old(renderer).models@,
            final(renderer).glyphs == old(renderer).glyphs,
            final(renderer).dimensions == old(renderer).dimensions,
            final(renderer).wf(),
            spec_queued_view(final(renderer).queued@) == spec_queued_view(old(renderer).queued@)
                + spec_sections_list(
                old(self).components@,
                old(renderer).dimensions.spec_get(),
            ),
    {
        let mut models: Vec<Model> = Vec::new();
        let dims = renderer.dimensions.get();
        let mut i: usize = 0;
        while i < self.components.len()
            invariant
                0 <= i <= self.components@.len(),
                self.components@.len() == old(self).components@.len(),
                forall|k: int|
                    i <= k < self.components@.len() ==> self.components@[k] == old(
                        self,
                    ).components@[k],
                forall|k: int|
                    0 <= k < self.components@.len() ==> (#[trigger] self.components@[k]).wf(),
                forall|k: int|
                    0 <= k < i ==> (#[trigger] self.components@[k])@ == spec_after_build(
                        old(self).components@[k]@,
                    ),
                forall|k: int|
                    0 <= k < old(self).components@.len() ==> (#[trigger] old(
                        self,
                    ).components@[k])@.rebuilds < u64::MAX,
                models@.len() == i,
                forall|k: int|
                    0 <= k < i ==> (#[trigger] models@[k])@ == old(
                        self,
                    ).components@[k]@.inner.spec_model(),
                renderer.models@ == old(renderer).models@,
                renderer.glyphs == old(renderer).glyphs,
                renderer.dimensions == old(renderer).dimensions,
                renderer.wf(),
                dims == old(renderer).dimensions.spec_get(),
                spec_queued_view(renderer.queued@) == spec_queued_view(old(renderer).queued@)
                    + spec_sections_list(old(self).components@.subrange(0, i as int), dims),
            decreases self.components@.len() - i,
        {
            proof {
                assert(old(self).components@.subrange(0, i + 1).drop_last() =~= old(
                    self,
                ).components@.subrange(0, i as int));
                assert(old(self).components@.subrange(0, i + 1).last() == old(
                    self,
                ).components@[i as int]);
            }
            let model = self.components[i].build_model();
            models.push(model);
            let section = self.components[i].inner.inner.do_render(dims);
            match section {
                Some(s) => {
                    let ghost qbefore = renderer.queued@;
                    renderer.queue_glyph(0, s);
                    proof {
                        assert(spec_queued_view(renderer.queued@) =~= spec_queued_view(
                            qbefore,
                        ).push((0usize, s@)));
                        assert(spec_queued_view(renderer.queued@) =~= spec_queued_view(
                            old(renderer).queued@,
                        ) + spec_sections_list(
                            old(self).components@.subrange(0, i + 1),
                            dims,
                        ));
                    }
                }
                None => {
                    proof {
                        assert(spec_queued_view(renderer.queued@) =~= spec_queued_view(
                            old(renderer).queued@,
                        ) + spec_sections_list(
                            old(self).components@.subrange(0, i + 1),
                            dims,
                        ));
                    }
                }
            }
            i += 1;
        }
        proof {
            assert(old(self).components@.subrange(0, old(self).components@.len() as int) =~= old(
                self,
            ).components@);
        }
        models
    }
}

/// A button's reported hover state reflects the most recent hover
/// transition, whatever sequence of transitions came before: repeats are
/// idempotent and the last one wins.
pub proof fn lemma_hover_reflects_latest(c: Component, mode: HoverMode)
    requires
        c is Button,
    ensures
        c.spec_on_hover(mode).spec_is_hovered() == Option::Some(mode),
{
    match mode {
        HoverMode::Enter => {}
        HoverMode::Exit => {}
    }
}

/// No click transition clears the grayscale latch.
pub proof fn lemma_click_keeps_grayscale(b: Button, kind: ClickKind, pos: (i64, i64))
    requires
        b.grayscale(),
    ensures
        b.spec_on_click(kind, pos).0.grayscale(),
{
}

/// No hover transition clears the grayscale latch.
pub proof fn lemma_hover_keeps_grayscale(b: Button, mode: HoverMode)
    requires
        b.grayscale(),
    ensures
        b.spec_on_hover(mode).grayscale(),
{
}

/// The grayscale latch is one-way: once a callback set it, a full
/// press, release inside the bounds, hover-exit, hover-enter cycle
/// leaves it set.
pub proof fn lemma_grayscale_latch(b: Button, press_pos: (i64, i64), release_pos: (i64, i64))
    requires
        b.grayscale(),
    ensures
        b.spec_on_click(ClickKind::PressDown, press_pos).0.spec_on_click(
            ClickKind::Release,
            release_pos,
        ).0.spec_on_hover(HoverMode::Exit).spec_on_hover(HoverMode::Enter).grayscale(),
{
    let b1 = b.spec_on_click(ClickKind::PressDown, press_pos).0;
    lemma_click_keeps_grayscale(b, ClickKind::PressDown, press_pos);
    let b2 = b1.spec_on_click(ClickKind::Release, release_pos).0;
    lemma_click_keeps_grayscale(b1, ClickKind::Release, release_pos);
    let b3 = b2.spec_on_hover(HoverMode::Exit);
    lemma_hover_keeps_grayscale(b2, HoverMode::Exit);
    lemma_hover_keeps_grayscale(b3, HoverMode::Enter);
}

/// A press followed by a release outside the bounds clears `pressed` but
/// invokes no callback: the button is otherwise untouched and no event
/// is produced.
pub proof fn lemma_release_outside_no_callback(b: Button, press_pos: (i64, i64), release_pos: (i64, i64))
    requires
        !spec_inbounds(
            (b.inner_box.width, b.inner_box.height),
            b.inner_box.pos,
            release_pos,
        ),
    ensures
        ({
            let pressed = b.spec_on_click(ClickKind::PressDown, press_pos).0;
            let released = pressed.spec_on_click(ClickKind::Release, release_pos);
            &&& pressed.pressed
            &&& released.1 is None
            &&& !released.0.pressed
            &&& released.0.inner_box == b.inner_box
            &&& released.0.hovered == b.hovered
            &&& released.0.data == b.data
            &&& released.0.handler == b.handler
        }),
{
}

/// Building a node's geometry twice with no mutation in between returns
/// the same geometry both times and rebuilds it at most once: exactly
/// once when the node started dirty, not at all when it was clean.
pub proof fn lemma_build_model_cached(v: UiNodeView)
    requires
        node_wf(v),
    ensures
        ({
            let once = spec_after_build(v);
            let twice = spec_after_build(once);
            &&& once.cached == v.inner.spec_model()
            &&& twice.cached == once.cached
            &&& once.inner == v.inner
            &&& twice.rebuilds == v.rebuilds + (if v.dirty {
                1int
            } else {
                0int
            })
        }),
{
}


} // verus!
