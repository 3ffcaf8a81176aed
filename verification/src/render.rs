//! Geometry that flows from the UI tree to the draw-submission engine.
//!
//! A [`Model`] is a transient triangle list tagged with the source its
//! fragments take their color from.  The invariant tying the vertex
//! variant to the declared [`ColorSource`] is what lets the per-frame
//! batching split models into per-pipeline buckets without inspecting
//! every vertex twice.

use vstd::prelude::*;
use crate::ui::Color;

verus! {

/// Bit set in a texture vertex's meta word when the fragment stage must
/// convert the sampled color to grayscale.
pub const GRAYSCALE_CONV_FLAG: u32 = 1;

/// A region handed out by the texture-atlas collaborator: the atlas it
/// belongs to and the absolute texel coordinates of the allocation.
#[derive(Copy, Clone, PartialEq, Debug)]
pub struct AtlasRegion {
    pub atlas: usize,
    pub uv: (u32, u32),
}

/// Where a textured quad takes its pixels from: a shared atlas region, or
/// a standalone texture known to the shell by its handle.
#[derive(Copy, Clone, PartialEq, Debug)]
pub enum TexTy {
    Atlas(AtlasRegion),
    Simple(usize),
}

/// Texture coordinates: absolute atlas texels, or coordinates relative to
/// a standalone texture in fixed-point `[0, 1]`.
#[derive(Copy, Clone, PartialEq, Debug)]
pub enum UvKind {
    Absolute((u32, u32)),
    Relative((i64, i64)),
}

/// One vertex of a UI triangle list, in fixed-point clip space.
#[derive(Copy, Clone, PartialEq, Debug)]
pub enum Vertex {
    Color {
        pos: (i64, i64),
        color: Color,
    },
    Texture {
        pos: (i64, i64),
        alpha: i64,
        uv: UvKind,
        color_scale_factor: i64,
        grayscale_conv: bool,
    },
}

/// The source a model's fragments are colored from; decides the pipeline
/// the model is drawn with.
#[derive(Copy, Clone, PartialEq, Eq, Structural, Debug)]
pub enum ColorSource {
    PerVert,
    Atlas(usize),
    Tex(usize),
}

/// A transient UI model: a triangle list plus its color source.
pub struct Model {
    pub vertices: Vec<Vertex>,
    pub color_src: ColorSource,
}

/// Mathematical image of a [`Model`].
pub struct ModelView {
    pub vertices: Seq<Vertex>,
    pub color_src: ColorSource,
}

impl View for Model {
    type V = ModelView;

    open spec fn view(&self) -> ModelView {
        ModelView { vertices: self.vertices@, color_src: self.color_src }
    }
}

/// Whether a vertex variant agrees with the declared color source: flat
/// color vertices for `PerVert`, absolute texture coordinates for an
/// atlas, relative ones for a standalone texture.
pub open spec fn vertex_matches(v: Vertex, src: ColorSource) -> bool {
    match src {
        ColorSource::PerVert => v is Color,
        ColorSource::Atlas(_) => v matches Vertex::Texture { uv: UvKind::Absolute(_), .. },
        ColorSource::Tex(_) => v matches Vertex::Texture { uv: UvKind::Relative(_), .. },
    }
}

/// Every vertex variant matches the declared color source.  A model
/// breaking this is a registration-time bug, so the engine requires it
/// instead of recovering from it.
pub open spec fn model_view_wf(v: ModelView) -> bool {
    forall|i: int| 0 <= i < v.vertices.len() ==> vertex_matches(v.vertices[i], v.color_src)
}

impl Model {
    pub open spec fn wf(&self) -> bool {
        model_view_wf(self@)
    }
}

impl Clone for Model {
    fn clone(&self) -> (r: Self)
        ensures
            r@ == self@,
    {
        let mut vs: Vec<Vertex> = Vec::new();
        let mut i: usize = 0;
        while i < self.vertices.len()
            invariant
                0 <= i <= self.vertices@.len(),
                vs@ == self.vertices@.subrange(0, i as int),
            decreases self.vertices@.len() - i,
        {
            vs.push(self.vertices[i]);
            proof {
                assert(self.vertices@.subrange(0, i + 1) =~= self.vertices@.subrange(
                    0,
                    i as int,
                ).push(self.vertices@[i as int]));
            }
            i += 1;
        }
        proof {
            assert(vs@ =~= self.vertices@);
        }
        Model { vertices: vs, color_src: self.color_src }
    }
}

/// The current framebuffer size, packed into one word as the resize
/// handler publishes it: low half the width, high half the height.
pub struct Dimensions {
    inner: u64,
}

impl Dimensions {
    /// The width and height encoded in the packed word.
    pub closed spec fn spec_get(&self) -> (u32, u32) {
        ((self.inner & 0xffff_ffff) as u32, (self.inner >> 32) as u32)
    }

    pub fn new(width: u32, height: u32) -> (r: Self)
        ensures
            r.spec_get() == (width, height),
    {
        proof {
            assert((width as u64 | ((height as u64) << 32)) & 0xffff_ffff == width as u64)
                by (bit_vector);
            assert(((width as u64 | ((height as u64) << 32)) >> 32) == height as u64)
                by (bit_vector);
        }
        Dimensions { inner: width as u64 | ((height as u64) << 32) }
    }

    pub fn get(&self) -> (r: (u32, u32))
        ensures
            r == self.spec_get(),
    {
        ((self.inner & 0xffff_ffff) as u32, (self.inner >> 32) as u32)
    }

    pub fn set(&mut self, width: u32, height: u32)
        ensures
            final(self).spec_get() == (width, height),
    {
        proof {
            assert((width as u64 | ((height as u64) << 32)) & 0xffff_ffff == width as u64)
                by (bit_vector);
            assert(((width as u64 | ((height as u64) << 32)) >> 32) == height as u64)
                by (bit_vector);
        }
        self.inner = width as u64 | ((height as u64) << 32);
    }
}

} // verus!
