//! Per-frame draw submission: bucketing UI geometry by pipeline,
//! batching instanced 3-D models, and laying out the passes.
//!
//! The engine turns the transient UI models, the per-frame instance list
//! and the camera into a [`FramePlan`]: the exact buffers and draw calls
//! of one frame, in order.  The shell executes the plan against the GPU;
//! everything decided here — which vertices land in which buffer, which
//! models are drawn with how many instances, what is cleared and what is
//! loaded — is proved.

use vstd::prelude::*;
use crate::camera::Camera;
use crate::fixed::{fx_mul, fx_mul_s, lemma_fx_mul_bound, lemma_mul_magnitude};
use crate::render::{ColorSource, Dimensions, Model, ModelView, UvKind, Vertex};
use crate::ui::{Color, QueuedSection};

verus! {

/// Vertex layout of the flat-color UI pipeline.
#[derive(Copy, Clone, PartialEq)]
pub struct ColorVertex {
    pub pos: (i64, i64),
    pub color: Color,
}

/// Vertex layout of the atlas pipeline: absolute texel coordinates plus
/// the meta word carrying the grayscale bit.
#[derive(Copy, Clone, PartialEq)]
pub struct AbsoluteTextureVertex {
    pub pos: (i64, i64),
    pub uv: (u32, u32),
    pub alpha: i64,
    pub color_scale_factor: i64,
    pub meta: u32,
}

/// Vertex layout of the standalone-texture pipeline: relative
/// coordinates plus the meta word.
#[derive(Copy, Clone, PartialEq)]
pub struct RelativeTextureVertex {
    pub pos: (i64, i64),
    pub uv: (i64, i64),
    pub alpha: i64,
    pub color_scale_factor: i64,
    pub meta: u32,
}

/// The meta word of a texture vertex: bit 0 asks the fragment stage for
/// grayscale conversion.
pub open spec fn spec_meta(grayscale_conv: bool) -> u32 {
    if grayscale_conv {
        1u32
    } else {
        0u32
    }
}

/// The flat-color layout of a per-vertex-color vertex.
pub open spec fn spec_color_vertex(v: Vertex) -> ColorVertex {
    match v {
        Vertex::Color { pos, color } => ColorVertex { pos, color },
        _ => ColorVertex { pos: (0, 0), color: Color { r: 0, g: 0, b: 0, a: 0 } },
    }
}

/// The atlas layout of an atlas-backed vertex.
pub open spec fn spec_abs_vertex(v: Vertex) -> AbsoluteTextureVertex {
    match v {
        Vertex::Texture { pos, alpha, uv: UvKind::Absolute(t), color_scale_factor, grayscale_conv } =>
            AbsoluteTextureVertex {
                pos,
                uv: t,
                alpha,
                color_scale_factor,
                meta: spec_meta(grayscale_conv),
            },
        _ => AbsoluteTextureVertex { pos: (0, 0), uv: (0, 0), alpha: 0, color_scale_factor: 0, meta: 0 },
    }
}

/// The standalone-texture layout of a texture-backed vertex.
pub open spec fn spec_rel_vertex(v: Vertex) -> RelativeTextureVertex {
    match v {
        Vertex::Texture { pos, alpha, uv: UvKind::Relative(t), color_scale_factor, grayscale_conv } =>
            RelativeTextureVertex {
                pos,
                uv: t,
                alpha,
                color_scale_factor,
                meta: spec_meta(grayscale_conv),
            },
        _ => RelativeTextureVertex { pos: (0, 0), uv: (0, 0), alpha: 0, color_scale_factor: 0, meta: 0 },
    }
}

pub open spec fn spec_color_verts_of(m: ModelView) -> Seq<ColorVertex> {
    m.vertices.map(|i: int, v: Vertex| spec_color_vertex(v))
}

pub open spec fn spec_abs_verts_of(m: ModelView) -> Seq<AbsoluteTextureVertex> {
    m.vertices.map(|i: int, v: Vertex| spec_abs_vertex(v))
}

pub open spec fn spec_rel_verts_of(m: ModelView) -> Seq<RelativeTextureVertex> {
    m.vertices.map(|i: int, v: Vertex| spec_rel_vertex(v))
}

/// One merged atlas batch: everything drawn with one bind group.
pub struct AtlasBatch {
    pub atlas: usize,
    pub vertices: Vec<AbsoluteTextureVertex>,
}

/// One merged standalone-texture batch.
pub struct TexBatch {
    pub tex: usize,
    pub vertices: Vec<RelativeTextureVertex>,
}

pub open spec fn abatches_view(bs: Seq<AtlasBatch>) -> Seq<(usize, Seq<AbsoluteTextureVertex>)> {
    bs.map(|i: int, b: AtlasBatch| (b.atlas, b.vertices@))
}

pub open spec fn tbatches_view(bs: Seq<TexBatch>) -> Seq<(usize, Seq<RelativeTextureVertex>)> {
    bs.map(|i: int, b: TexBatch| (b.tex, b.vertices@))
}

/// No two batches share an id: each atlas or texture is bound exactly
/// once per frame.
pub open spec fn unique_ids<V>(bs: Seq<(usize, Seq<V>)>) -> bool {
    forall|k1: int, k2: int| 0 <= k1 < k2 < bs.len() ==> bs[k1].0 != bs[k2].0
}

/// The first batch carrying this id, or the batch count when none does.
pub open spec fn batch_index_of<V>(bs: Seq<(usize, Seq<V>)>, id: usize) -> int
    decreases bs.len(),
{
    if bs.len() == 0 {
        0
    } else if bs[0].0 == id {
        0
    } else {
        1 + batch_index_of(bs.drop_first(), id)
    }
}

/// `batch_index_of` finds the first batch with the id, and the count
/// exactly when there is none.
pub proof fn lemma_batch_index_of<V>(bs: Seq<(usize, Seq<V>)>, id: usize)
    ensures
        0 <= batch_index_of(bs, id) <= bs.len(),
        batch_index_of(bs, id) < bs.len() ==> bs[batch_index_of(bs, id)].0 == id && (forall|
            j: int,
        |
            0 <= j < batch_index_of(bs, id) ==> (#[trigger] bs[j]).0 != id),
        batch_index_of(bs, id) == bs.len() ==> forall|j: int|
            0 <= j < bs.len() ==> (#[trigger] bs[j]).0 != id,
    decreases bs.len(),
{
    if bs.len() > 0 && bs[0].0 != id {
        let rest = bs.drop_first();
        lemma_batch_index_of(rest, id);
        let r = batch_index_of(rest, id);
        assert(batch_index_of(bs, id) == 1 + r);
        if r < rest.len() {
            assert(bs[1 + r] == rest[r]);
            assert forall|j: int| 0 <= j < 1 + r implies (#[trigger] bs[j]).0 != id by {
                if j > 0 {
                    assert(bs[j] == rest[j - 1]);
                    assert(rest[j - 1].0 != id);
                }
            }
        } else {
            assert forall|j: int| 0 <= j < bs.len() implies (#[trigger] bs[j]).0 != id by {
                if j > 0 {
                    assert(bs[j] == rest[j - 1]);
                    assert(rest[j - 1].0 != id);
                }
            }
        }
    }
}

/// Merges vertices into the first batch with the given id, appending a
/// new batch only if none exists yet.
pub open spec fn spec_add_to_batches<V>(
    bs: Seq<(usize, Seq<V>)>,
    id: usize,
    vs: Seq<V>,
) -> Seq<(usize, Seq<V>)> {
    let i = batch_index_of(bs, id);
    if i < bs.len() {
        bs.update(i, (id, bs[i].1 + vs))
    } else {
        bs.push((id, vs))
    }
}

/// The flat-color bucket: the vertices of every per-vertex-color model,
/// concatenated in model order.
pub open spec fn spec_color_bucket(ms: Seq<Model>) -> Seq<ColorVertex>
    decreases ms.len(),
{
    if ms.len() == 0 {
        Seq::empty()
    } else {
        let prev = spec_color_bucket(ms.drop_last());
        if ms.last()@.color_src is PerVert {
            prev + spec_color_verts_of(ms.last()@)
        } else {
            prev
        }
    }
}

/// The atlas buckets: models sharing an atlas id are merged, batches
/// appear in first-reference order.
pub open spec fn spec_atlas_buckets(ms: Seq<Model>) -> Seq<(usize, Seq<AbsoluteTextureVertex>)>
    decreases ms.len(),
{
    if ms.len() == 0 {
        Seq::empty()
    } else {
        let prev = spec_atlas_buckets(ms.drop_last());
        match ms.last()@.color_src {
            ColorSource::Atlas(id) => spec_add_to_batches(prev, id, spec_abs_verts_of(ms.last()@)),
            _ => prev,
        }
    }
}

/// The standalone-texture buckets, merged per texture id.
pub open spec fn spec_tex_buckets(ms: Seq<Model>) -> Seq<(usize, Seq<RelativeTextureVertex>)>
    decreases ms.len(),
{
    if ms.len() == 0 {
        Seq::empty()
    } else {
        let prev = spec_tex_buckets(ms.drop_last());
        match ms.last()@.color_src {
            ColorSource::Tex(id) => spec_add_to_batches(prev, id, spec_rel_verts_of(ms.last()@)),
            _ => prev,
        }
    }
}

/// Merging preserves id uniqueness.
pub proof fn lemma_add_to_batches_unique<V>(bs: Seq<(usize, Seq<V>)>, id: usize, vs: Seq<V>)
    requires
        unique_ids(bs),
    ensures
        unique_ids(spec_add_to_batches(bs, id, vs)),
{
    lemma_batch_index_of(bs, id);
    let i = batch_index_of(bs, id);
    let merged = spec_add_to_batches(bs, id, vs);
    if i < bs.len() {
        assert forall|k1: int, k2: int|
            0 <= k1 < k2 < merged.len() implies merged[k1].0 != merged[k2].0 by {
            assert(merged[k1].0 == bs[k1].0);
            assert(merged[k2].0 == bs[k2].0);
            assert(bs[k1].0 != bs[k2].0);
        }
    } else {
        assert forall|k1: int, k2: int|
            0 <= k1 < k2 < merged.len() implies merged[k1].0 != merged[k2].0 by {
            if k2 < bs.len() {
                assert(bs[k1].0 != bs[k2].0);
            } else {
                assert(merged[k2].0 == id);
                assert(bs[k1].0 != id);
            }
        }
    }
}

/// The atlas buckets of any frame have pairwise distinct atlas ids: two
/// quads referencing the same atlas are always drawn with one bind
/// group.
pub proof fn lemma_atlas_buckets_unique(ms: Seq<Model>)
    ensures
        unique_ids(spec_atlas_buckets(ms)),
    decreases ms.len(),
{
    if ms.len() > 0 {
        lemma_atlas_buckets_unique(ms.drop_last());
        match ms.last()@.color_src {
            ColorSource::Atlas(id) => {
                lemma_add_to_batches_unique(
                    spec_atlas_buckets(ms.drop_last()),
                    id,
                    spec_abs_verts_of(ms.last()@),
                );
            }
            _ => {}
        }
    }
}

/// The texture buckets of any frame have pairwise distinct texture ids.
pub proof fn lemma_tex_buckets_unique(ms: Seq<Model>)
    ensures
        unique_ids(spec_tex_buckets(ms)),
    decreases ms.len(),
{
    if ms.len() > 0 {
        lemma_tex_buckets_unique(ms.drop_last());
        match ms.last()@.color_src {
            ColorSource::Tex(id) => {
                lemma_add_to_batches_unique(
                    spec_tex_buckets(ms.drop_last()),
                    id,
                    spec_rel_verts_of(ms.last()@),
                );
            }
            _ => {}
        }
    }
}

/// The atlas vertices this frame asks for under one atlas id: every
/// atlas-backed model with that id, converted and concatenated in model
/// order.
pub open spec fn spec_atlas_verts_for(ms: Seq<Model>, id: usize) -> Seq<AbsoluteTextureVertex>
    decreases ms.len(),
{
    if ms.len() == 0 {
        Seq::empty()
    } else {
        let prev = spec_atlas_verts_for(ms.drop_last(), id);
        match ms.last()@.color_src {
            ColorSource::Atlas(a) => if a == id {
                prev + spec_abs_verts_of(ms.last()@)
            } else {
                prev
            },
            _ => prev,
        }
    }
}

/// An atlas id with no batch has no vertices either.
proof fn lemma_atlas_absent(ms: Seq<Model>, id: usize)
    requires
        forall|k: int|
            0 <= k < spec_atlas_buckets(ms).len() ==> (#[trigger] spec_atlas_buckets(ms)[k]).0
                != id,
    ensures
        spec_atlas_verts_for(ms, id) =~= Seq::<AbsoluteTextureVertex>::empty(),
    decreases ms.len(),
{
    if ms.len() > 0 {
        let prev = spec_atlas_buckets(ms.drop_last());
        match ms.last()@.color_src {
            ColorSource::Atlas(a) => {
                let vs = spec_abs_verts_of(ms.last()@);
                lemma_batch_index_of(prev, a);
                let i = batch_index_of(prev, a);
                let merged = spec_add_to_batches(prev, a, vs);
                assert(spec_atlas_buckets(ms) == merged);
                if i < prev.len() {
                    assert(merged[i].0 == a);
                    assert(a != id);
                    assert forall|k: int| 0 <= k < prev.len() implies (#[trigger] prev[k]).0 != id by {
                        assert(merged[k].0 == prev[k].0);
                    }
                } else {
                    assert(merged[prev.len() as int].0 == a);
                    assert(a != id);
                    assert forall|k: int| 0 <= k < prev.len() implies (#[trigger] prev[k]).0 != id by {
                        assert(merged[k].0 == prev[k].0);
                    }
                }
                lemma_atlas_absent(ms.drop_last(), id);
            }
            _ => {
                assert(spec_atlas_buckets(ms) == prev);
                assert forall|k2: int| 0 <= k2 < prev.len() implies (#[trigger] prev[k2]).0 != id by {
                    assert(spec_atlas_buckets(ms)[k2] == prev[k2]);
                }
                lemma_atlas_absent(ms.drop_last(), id);
            }
        }
    }
}

/// Batching correctness for atlas-backed quads: every batch of a frame
/// holds exactly the vertices of all models referencing its atlas id, in
/// model order — so two quads on the same atlas always share one vertex
/// buffer and one bind group.  (Texture batches are merged by the same
/// construction.)
pub proof fn lemma_atlas_batch_contents(ms: Seq<Model>, k: int)
    requires
        0 <= k < spec_atlas_buckets(ms).len(),
    ensures
        spec_atlas_buckets(ms)[k].1 == spec_atlas_verts_for(ms, spec_atlas_buckets(ms)[k].0),
    decreases ms.len(),
{
    let buckets = spec_atlas_buckets(ms);
    let id = buckets[k].0;
    if ms.len() == 0 {
        return;
    }
    let prev = spec_atlas_buckets(ms.drop_last());
    lemma_atlas_buckets_unique(ms.drop_last());
    match ms.last()@.color_src {
        ColorSource::Atlas(a) => {
            let vs = spec_abs_verts_of(ms.last()@);
            lemma_batch_index_of(prev, a);
            let i = batch_index_of(prev, a);
            if i < prev.len() {
                if k == i {
                    assert(id == a);
                    lemma_atlas_batch_contents(ms.drop_last(), i);
                    assert(buckets[k].1 =~= spec_atlas_verts_for(ms, id));
                } else {
                    assert(buckets[k] == prev[k]);
                    assert(prev[i].0 == a);
                    assert(prev[k].0 != a);
                    lemma_atlas_batch_contents(ms.drop_last(), k);
                    assert(spec_atlas_verts_for(ms, id) == spec_atlas_verts_for(ms.drop_last(), id));
                }
            } else {
                if k < prev.len() {
                    assert(buckets[k] == prev[k]);
                    assert(prev[k].0 != a);
                    lemma_atlas_batch_contents(ms.drop_last(), k);
                    assert(spec_atlas_verts_for(ms, id) == spec_atlas_verts_for(ms.drop_last(), id));
                } else {
                    assert(buckets[k] == (a, vs));
                    lemma_atlas_absent(ms.drop_last(), a);
                    assert(buckets[k].1 =~= spec_atlas_verts_for(ms, a));
                }
            }
        }
        _ => {
            assert(buckets == prev);
            lemma_atlas_batch_contents(ms.drop_last(), k);
            assert(spec_atlas_verts_for(ms, id) == spec_atlas_verts_for(ms.drop_last(), id));
        }
    }
}

/// One placement of a registered model, in fixed point: a translation
/// and a unit rotation quaternion `(s, x, y, z)`.
#[derive(Copy, Clone, PartialEq)]
pub struct Instance {
    pub position: (i64, i64, i64),
    pub rotation: (i64, i64, i64, i64),
}

impl Instance {
    /// Bounds under which the transform derivation cannot overflow: the
    /// quaternion components are at most one unit in magnitude.
    pub open spec fn wf(&self) -> bool {
        &&& -1_000_000_000_000 <= self.position.0 <= 1_000_000_000_000
        &&& -1_000_000_000_000 <= self.position.1 <= 1_000_000_000_000
        &&& -1_000_000_000_000 <= self.position.2 <= 1_000_000_000_000
        &&& -1_000_000 <= self.rotation.0 <= 1_000_000
        &&& -1_000_000 <= self.rotation.1 <= 1_000_000
        &&& -1_000_000 <= self.rotation.2 <= 1_000_000
        &&& -1_000_000 <= self.rotation.3 <= 1_000_000
    }
}

/// One instance's model matrix, column-major: field `mCR` is column `C`,
/// row `R`, in fixed point.
#[derive(Copy, Clone, PartialEq, Eq, Structural)]
pub struct InstanceRaw {
    pub m00: i64,
    pub m01: i64,
    pub m02: i64,
    pub m03: i64,
    pub m10: i64,
    pub m11: i64,
    pub m12: i64,
    pub m13: i64,
    pub m20: i64,
    pub m21: i64,
    pub m22: i64,
    pub m23: i64,
    pub m30: i64,
    pub m31: i64,
    pub m32: i64,
    pub m33: i64,
}

/// The model matrix of an instance: translation times the rotation of
/// the unit quaternion, by the standard derivation.
pub open spec fn spec_instance_raw(inst: Instance) -> InstanceRaw {
    let s = inst.rotation.0 as int;
    let x = inst.rotation.1 as int;
    let y = inst.rotation.2 as int;
    let z = inst.rotation.3 as int;
    let xx2 = fx_mul_s(2 * x, x);
    let xy2 = fx_mul_s(2 * x, y);
    let xz2 = fx_mul_s(2 * x, z);
    let yy2 = fx_mul_s(2 * y, y);
    let yz2 = fx_mul_s(2 * y, z);
    let zz2 = fx_mul_s(2 * z, z);
    let sx2 = fx_mul_s(2 * x, s);
    let sy2 = fx_mul_s(2 * y, s);
    let sz2 = fx_mul_s(2 * z, s);
    InstanceRaw {
        m00: (1_000_000 - yy2 - zz2) as i64,
        m01: (xy2 + sz2) as i64,
        m02: (xz2 - sy2) as i64,
        m03: 0,
        m10: (xy2 - sz2) as i64,
        m11: (1_000_000 - xx2 - zz2) as i64,
        m12: (yz2 + sx2) as i64,
        m13: 0,
        m20: (xz2 + sy2) as i64,
        m21: (yz2 - sx2) as i64,
        m22: (1_000_000 - xx2 - yy2) as i64,
        m23: 0,
        m30: inst.position.0,
        m31: inst.position.1,
        m32: inst.position.2,
        m33: 1_000_000,
    }
}

impl Instance {
    /// Derives the model matrix of this placement.
    pub fn to_raw(&self) -> (r: InstanceRaw)
        requires
            self.wf(),
        ensures
            r == spec_instance_raw(*self),
    {
        let s = self.rotation.0;
        let x = self.rotation.1;
        let y = self.rotation.2;
        let z = self.rotation.3;
        let x2 = 2 * x;
        let y2 = 2 * y;
        let z2 = 2 * z;
        proof {
            lemma_mul_magnitude(x2 as int, x as int, 2_000_000, 1_000_000);
            lemma_fx_mul_bound(x2 as int, x as int, 2_000_000_000_000);
            lemma_mul_magnitude(x2 as int, y as int, 2_000_000, 1_000_000);
            lemma_fx_mul_bound(x2 as int, y as int, 2_000_000_000_000);
            lemma_mul_magnitude(x2 as int, z as int, 2_000_000, 1_000_000);
            lemma_fx_mul_bound(x2 as int, z as int, 2_000_000_000_000);
            lemma_mul_magnitude(y2 as int, y as int, 2_000_000, 1_000_000);
            lemma_fx_mul_bound(y2 as int, y as int, 2_000_000_000_000);
            lemma_mul_magnitude(y2 as int, z as int, 2_000_000, 1_000_000);
            lemma_fx_mul_bound(y2 as int, z as int, 2_000_000_000_000);
            lemma_mul_magnitude(z2 as int, z as int, 2_000_000, 1_000_000);
            lemma_fx_mul_bound(z2 as int, z as int, 2_000_000_000_000);
            lemma_mul_magnitude(x2 as int, s as int, 2_000_000, 1_000_000);
            lemma_fx_mul_bound(x2 as int, s as int, 2_000_000_000_000);
            lemma_mul_magnitude(y2 as int, s as int, 2_000_000, 1_000_000);
            lemma_fx_mul_bound(y2 as int, s as int, 2_000_000_000_000);
            lemma_mul_magnitude(z2 as int, s as int, 2_000_000, 1_000_000);
            lemma_fx_mul_bound(z2 as int, s as int, 2_000_000_000_000);
        }
        let xx2 = fx_mul(x2, x);
        let xy2 = fx_mul(x2, y);
        let xz2 = fx_mul(x2, z);
        let yy2 = fx_mul(y2, y);
        let yz2 = fx_mul(y2, z);
        let zz2 = fx_mul(z2, z);
        let sx2 = fx_mul(x2, s);
        let sy2 = fx_mul(y2, s);
        let sz2 = fx_mul(z2, s);
        InstanceRaw {
            m00: 1_000_000 - yy2 - zz2,
            m01: xy2 + sz2,
            m02: xz2 - sy2,
            m03: 0,
            m10: xy2 - sz2,
            m11: 1_000_000 - xx2 - zz2,
            m12: yz2 + sx2,
            m13: 0,
            m20: xz2 + sy2,
            m21: yz2 - sx2,
            m22: 1_000_000 - xx2 - yy2,
            m23: 0,
            m30: self.position.0,
            m31: self.position.1,
            m32: self.position.2,
            m33: 1_000_000,
        }
    }
}

/// One placement of a registered model this frame.
#[derive(Copy, Clone, PartialEq)]
pub struct ModeledInstance {
    pub model_id: usize,
    pub instance: Instance,
}

/// How a registered 3-D model is colored.
#[derive(Copy, Clone, PartialEq)]
pub enum ModelColoring {
    Direct(Color),
    Tex(usize),
}

/// One mesh of a registered model: its index count and the material it
/// binds.
#[derive(Copy, Clone, PartialEq, Eq, Structural)]
pub struct MeshInfo {
    pub num_elements: u32,
    pub material: usize,
}

/// A model registered once and referenced thereafter by handle; the mesh
/// and material buffers themselves live with the shell under the same
/// handle.
pub struct RegisteredModel {
    pub meshes: Vec<MeshInfo>,
    pub material_count: usize,
    pub coloring: ModelColoring,
}

impl RegisteredModel {
    /// Every mesh binds a material the model owns; anything else is a
    /// registration-time bug.
    pub open spec fn wf(&self) -> bool {
        forall|i: int|
            0 <= i < self.meshes@.len() ==> (#[trigger] self.meshes@[i]).material
                < self.material_count
    }
}

/// One indexed, instanced draw call of the depth-tested pass.
#[derive(Copy, Clone, PartialEq, Eq, Structural)]
pub struct ModelDraw {
    pub model_id: usize,
    pub mesh: usize,
    pub material: usize,
    pub num_elements: u32,
    pub instances: usize,
}

/// The transforms of the instances that reference model `m`, in input
/// order.
pub open spec fn spec_raws_for(instances: Seq<ModeledInstance>, m: int) -> Seq<InstanceRaw>
    decreases instances.len(),
{
    if instances.len() == 0 {
        Seq::empty()
    } else {
        let prev = spec_raws_for(instances.drop_last(), m);
        if instances.last().model_id == m {
            prev.push(spec_instance_raw(instances.last().instance))
        } else {
            prev
        }
    }
}

/// The draw calls of one referenced model: one per mesh, all with the
/// same instance count.
pub open spec fn spec_mesh_draws(model: RegisteredModel, m: usize, count: usize) -> Seq<ModelDraw> {
    Seq::new(
        model.meshes@.len(),
        |k: int| ModelDraw {
            model_id: m,
            mesh: k as usize,
            material: model.meshes@[k].material,
            num_elements: model.meshes@[k].num_elements,
            instances: count,
        },
    )
}

/// The depth-pass draw list over the models below `upto`: models with no
/// instance this frame are skipped entirely.
pub open spec fn spec_model_draws(
    registry: Seq<RegisteredModel>,
    instances: Seq<ModeledInstance>,
    upto: int,
) -> Seq<ModelDraw>
    decreases upto,
{
    if upto <= 0 {
        Seq::empty()
    } else {
        let prev = spec_model_draws(registry, instances, upto - 1);
        let raws = spec_raws_for(instances, upto - 1);
        if raws.len() == 0 {
            prev
        } else {
            prev + spec_mesh_draws(
                registry[upto - 1],
                (upto - 1) as usize,
                raws.len() as usize,
            )
        }
    }
}

/// A model with no instance this frame gets no draw call at all.
pub proof fn lemma_zero_instances_no_draw(
    registry: Seq<RegisteredModel>,
    instances: Seq<ModeledInstance>,
    upto: int,
    m: int,
)
    requires
        spec_raws_for(instances, m).len() == 0,
        upto <= usize::MAX,
    ensures
        forall|k: int|
            0 <= k < spec_model_draws(registry, instances, upto).len()
                ==> (#[trigger] spec_model_draws(registry, instances, upto)[k]).model_id != m,
    decreases upto,
{
    if upto > 0 {
        lemma_zero_instances_no_draw(registry, instances, upto - 1, m);
        let ds = spec_model_draws(registry, instances, upto);
        let prev = spec_model_draws(registry, instances, upto - 1);
        if spec_raws_for(instances, upto - 1).len() != 0 {
            assert(upto - 1 != m);
            assert forall|k: int| 0 <= k < ds.len() implies (#[trigger] ds[k]).model_id != m by {
                if k < prev.len() {
                    assert(ds[k] == prev[k]);
                } else {
                    assert(ds[k].model_id == (upto - 1) as usize);
                }
            }
        }
    }
}


fn convert_color_verts(m: &Model) -> (r: Vec<ColorVertex>)
    ensures
        r@ == spec_color_verts_of(m@),
{
    let mut r: Vec<ColorVertex> = Vec::new();
    let mut i: usize = 0;
    while i < m.vertices.len()
        invariant
            0 <= i <= m.vertices@.len(),
            r@ == spec_color_verts_of(m@).subrange(0, i as int),
        decreases m.vertices@.len() - i,
    {
        let v = m.vertices[i];
        let cv = match v {
            Vertex::Color { pos, color } => ColorVertex { pos, color },
            _ => ColorVertex { pos: (0, 0), color: Color { r: 0, g: 0, b: 0, a: 0 } },
        };
        r.push(cv);
        proof {
            assert(cv == spec_color_vertex(m.vertices@[i as int]));
            assert(spec_color_verts_of(m@).subrange(0, i + 1) =~= spec_color_verts_of(
                m@,
            ).subrange(0, i as int).push(spec_color_verts_of(m@)[i as int]));
        }
        i += 1;
    }
    proof {
        assert(r@ =~= spec_color_verts_of(m@));
    }
    r
}

fn convert_abs_verts(m: &Model) -> (r: Vec<AbsoluteTextureVertex>)
    ensures
        r@ == spec_abs_verts_of(m@),
{
    let mut r: Vec<AbsoluteTextureVertex> = Vec::new();
    let mut i: usize = 0;
    while i < m.vertices.len()
        invariant
            0 <= i <= m.vertices@.len(),
            r@ == spec_abs_verts_of(m@).subrange(0, i as int),
        decreases m.vertices@.len() - i,
    {
        let v = m.vertices[i];
        let cv = match v {
            Vertex::Texture { pos, alpha, uv: UvKind::Absolute(t), color_scale_factor, grayscale_conv } =>
                AbsoluteTextureVertex {
                    pos,
                    uv: t,
                    alpha,
                    color_scale_factor,
                    meta: if grayscale_conv {
                        1
                    } else {
                        0
                    },
                },
            _ => AbsoluteTextureVertex {
                pos: (0, 0),
                uv: (0, 0),
                alpha: 0,
                color_scale_factor: 0,
                meta: 0,
            },
        };
        r.push(cv);
        proof {
            assert(cv == spec_abs_vertex(m.vertices@[i as int]));
            assert(spec_abs_verts_of(m@).subrange(0, i + 1) =~= spec_abs_verts_of(m@).subrange(
                0,
                i as int,
            ).push(spec_abs_verts_of(m@)[i as int]));
        }
        i += 1;
    }
    proof {
        assert(r@ =~= spec_abs_verts_of(m@));
    }
    r
}

fn convert_rel_verts(m: &Model) -> (r: Vec<RelativeTextureVertex>)
    ensures
        r@ == spec_rel_verts_of(m@),
{
    let mut r: Vec<RelativeTextureVertex> = Vec::new();
    let mut i: usize = 0;
    while i < m.vertices.len()
        invariant
            0 <= i <= m.vertices@.len(),
            r@ == spec_rel_verts_of(m@).subrange(0, i as int),
        decreases m.vertices@.len() - i,
    {
        let v = m.vertices[i];
        let cv = match v {
            Vertex::Texture { pos, alpha, uv: UvKind::Relative(t), color_scale_factor, grayscale_conv } =>
                RelativeTextureVertex {
                    pos,
                    uv: t,
                    alpha,
                    color_scale_factor,
                    meta: if grayscale_conv {
                        1
                    } else {
                        0
                    },
                },
            _ => RelativeTextureVertex {
                pos: (0, 0),
                uv: (0, 0),
                alpha: 0,
                color_scale_factor: 0,
                meta: 0,
            },
        };
        r.push(cv);
        proof {
            assert(cv == spec_rel_vertex(m.vertices@[i as int]));
            assert(spec_rel_verts_of(m@).subrange(0, i + 1) =~= spec_rel_verts_of(m@).subrange(
                0,
                i as int,
            ).push(spec_rel_verts_of(m@)[i as int]));
        }
        i += 1;
    }
    proof {
        assert(r@ =~= spec_rel_verts_of(m@));
    }
    r
}

/// Merges converted vertices into the atlas batch with this id, keeping
/// batch ids unique.
fn add_to_atlas_batches(batches: &mut Vec<AtlasBatch>, atlas: usize, vertices: Vec<AbsoluteTextureVertex>)
    requires
        unique_ids(abatches_view(old(batches)@)),
    ensures
        abatches_view(final(batches)@) == spec_add_to_batches(
            abatches_view(old(batches)@),
            atlas,
            vertices@,
        ),
        unique_ids(abatches_view(final(batches)@)),
{
    proof {
        lemma_add_to_batches_unique(abatches_view(batches@), atlas, vertices@);
    }
    let n = batches.len();
    let mut idx: usize = n;
    let mut k: usize = 0;
    while k < n
        invariant
            0 <= k <= n,
            idx <= n,
            n == batches@.len(),
            batches@ == old(batches)@,
            idx == n ==> forall|j: int| 0 <= j < k ==> abatches_view(batches@)[j].0 != atlas,
            idx < n ==> abatches_view(batches@)[idx as int].0 == atlas && (forall|j: int|
                0 <= j < idx ==> abatches_view(batches@)[j].0 != atlas),
        decreases n - k,
    {
        if idx == n && batches[k].atlas == atlas {
            idx = k;
        }
        k += 1;
    }
    let ghost bv0 = abatches_view(batches@);
    proof {
        lemma_batch_index_of(bv0, atlas);
    }
    let ghost bio = batch_index_of(bv0, atlas);
    if idx < n {
        let mut vs = vertices;
        batches[idx].vertices.append(&mut vs);
        proof {
            assert(bv0[idx as int].0 == atlas);
            assert(bio < bv0.len());
            if bio < idx {
                assert(bv0[bio].0 != atlas);
            } else if bio > idx {
                assert(bv0[idx as int].0 != atlas);
            }
            assert(bio == idx);
            assert(abatches_view(batches@) =~= spec_add_to_batches(bv0, atlas, vertices@));
        }
    } else {
        batches.push(AtlasBatch { atlas, vertices });
        proof {
            assert(forall|j: int| 0 <= j < bv0.len() ==> bv0[j].0 != atlas);
            if bio < bv0.len() {
                assert(bv0[bio].0 == atlas);
            }
            assert(bio == bv0.len());
            assert(abatches_view(batches@) =~= spec_add_to_batches(bv0, atlas, vertices@));
        }
    }
}

/// Merges converted vertices into the texture batch with this id,
/// keeping batch ids unique.
fn add_to_tex_batches(batches: &mut Vec<TexBatch>, tex: usize, vertices: Vec<RelativeTextureVertex>)
    requires
        unique_ids(tbatches_view(old(batches)@)),
    ensures
        tbatches_view(final(batches)@) == spec_add_to_batches(
            tbatches_view(old(batches)@),
            tex,
            vertices@,
        ),
        unique_ids(tbatches_view(final(batches)@)),
{
    proof {
        lemma_add_to_batches_unique(tbatches_view(batches@), tex, vertices@);
    }
    let n = batches.len();
    let mut idx: usize = n;
    let mut k: usize = 0;
    while k < n
        invariant
            0 <= k <= n,
            idx <= n,
            n == batches@.len(),
            batches@ == old(batches)@,
            idx == n ==> forall|j: int| 0 <= j < k ==> tbatches_view(batches@)[j].0 != tex,
            idx < n ==> tbatches_view(batches@)[idx as int].0 == tex && (forall|j: int|
                0 <= j < idx ==> tbatches_view(batches@)[j].0 != tex),
        decreases n - k,
    {
        if idx == n && batches[k].tex == tex {
            idx = k;
        }
        k += 1;
    }
    let ghost bv0 = tbatches_view(batches@);
    proof {
        lemma_batch_index_of(bv0, tex);
    }
    let ghost bio = batch_index_of(bv0, tex);
    if idx < n {
        let mut vs = vertices;
        batches[idx].vertices.append(&mut vs);
        proof {
            assert(bv0[idx as int].0 == tex);
            assert(bio < bv0.len());
            if bio < idx {
                assert(bv0[bio].0 != tex);
            } else if bio > idx {
                assert(bv0[idx as int].0 != tex);
            }
            assert(bio == idx);
            assert(tbatches_view(batches@) =~= spec_add_to_batches(bv0, tex, vertices@));
        }
    } else {
        batches.push(TexBatch { tex, vertices });
        proof {
            assert(forall|j: int| 0 <= j < bv0.len() ==> bv0[j].0 != tex);
            if bio < bv0.len() {
                assert(bv0[bio].0 == tex);
            }
            assert(bio == bv0.len());
            assert(tbatches_view(batches@) =~= spec_add_to_batches(bv0, tex, vertices@));
        }
    }
}

/// Everything one frame draws, in pass order: the flat-color bucket
/// (drawn first, clearing to the background), the merged atlas and
/// texture batches (loading what was drawn), then the depth-tested
/// instanced draws, then the text sections flushed last.
pub struct FramePlan {
    pub background: Color,
    pub color_vertices: Vec<ColorVertex>,
    pub atlas_batches: Vec<AtlasBatch>,
    pub tex_batches: Vec<TexBatch>,
    pub camera: Camera,
    pub dimensions: (u32, u32),
    pub instance_buffers: Vec<Vec<InstanceRaw>>,
    pub model_draws: Vec<ModelDraw>,
    pub sections: Vec<(usize, QueuedSection)>,
}

/// The draw-submission engine's bookkeeping: the framebuffer size, the
/// persistent model registry, the glyph brushes, and the text sections
/// queued for the current frame.
pub struct Renderer {
    pub dimensions: Dimensions,
    pub models: Vec<RegisteredModel>,
    pub glyphs: usize,
    pub queued: Vec<(usize, QueuedSection)>,
}

impl Renderer {
    /// Every registered model is well formed and the built-in glyph brush
    /// exists.
    pub open spec fn wf(&self) -> bool {
        &&& forall|i: int|
            0 <= i < self.models@.len() ==> (#[trigger] self.models@[i]).wf()
        &&& self.glyphs >= 1
    }

    /// A fresh renderer knows the framebuffer size and owns the built-in
    /// glyph brush.
    pub fn new(width: u32, height: u32) -> (r: Renderer)
        ensures
            r.dimensions.spec_get() == (width, height),
            r.models@.len() == 0,
            r.glyphs == 1,
            r.queued@.len() == 0,
            r.wf(),
    {
        Renderer {
            dimensions: Dimensions::new(width, height),
            models: Vec::new(),
            glyphs: 1,
            queued: Vec::new(),
        }
    }

    /// Registers a model; the registry is append-only and the returned
    /// handle refers to it for the process lifetime.
    pub fn add_model(&mut self, model: RegisteredModel) -> (id: usize)
        requires
            old(self).wf(),
            model.wf(),
            old(self).models@.len() < usize::MAX,
        ensures
            id == old(self).models@.len(),
            final(self).models@ == old(self).models@.push(model),
            final(self).dimensions == old(self).dimensions,
            final(self).glyphs == old(self).glyphs,
            final(self).queued@ == old(self).queued@,
            final(self).wf(),
    {
        let id = self.models.len();
        self.models.push(model);
        id
    }

    /// Registers one more glyph brush and returns its id.
    pub fn add_glyph(&mut self) -> (id: usize)
        requires
            old(self).glyphs < usize::MAX,
        ensures
            id == old(self).glyphs,
            final(self).glyphs == old(self).glyphs + 1,
            final(self).dimensions == old(self).dimensions,
            final(self).models@ == old(self).models@,
            final(self).queued@ == old(self).queued@,
    {
        let id = self.glyphs;
        self.glyphs = self.glyphs + 1;
        id
    }

    /// Queues a text section on a registered glyph brush for this frame.
    pub fn queue_glyph(&mut self, glyph_id: usize, section: QueuedSection)
        requires
            glyph_id < old(self).glyphs,
        ensures
            final(self).queued@ == old(self).queued@.push((glyph_id, section)),
            final(self).dimensions == old(self).dimensions,
            final(self).models@ == old(self).models@,
            final(self).glyphs == old(self).glyphs,
    {
        self.queued.push((glyph_id, section));
    }

    /// Lays out one frame: buckets the UI models by pipeline (merging
    /// atlas and texture batches per id), derives per-model instance
    /// buffers, emits one draw per mesh of each referenced model —
    /// skipping models with no instance this frame — and drains the
    /// queued text sections to be flushed after all geometry.
    pub fn render(
        &mut self,
        ui_models: Vec<Model>,
        instances: Vec<ModeledInstance>,
        camera: &Camera,
    ) -> (plan: FramePlan)
        requires
            old(self).wf(),
            forall|i: int| 0 <= i < ui_models@.len() ==> (#[trigger] ui_models@[i]).wf(),
            forall|i: int|
                0 <= i < instances@.len() ==> (#[trigger] instances@[i]).model_id < old(
                    self,
                ).models@.len() && instances@[i].instance.wf(),
        ensures
            final(self).models@ == old(self).models@,
            final(self).glyphs == old(self).glyphs,
            final(self).dimensions == old(self).dimensions,
            final(self).queued@.len() == 0,
            final(self).wf(),
            plan.background == crate::utils::spec_light_gray_gpu(),
            plan.color_vertices@ == spec_color_bucket(ui_models@),
            abatches_view(plan.atlas_batches@) == spec_atlas_buckets(ui_models@),
            unique_ids(abatches_view(plan.atlas_batches@)),
            tbatches_view(plan.tex_batches@) == spec_tex_buckets(ui_models@),
            unique_ids(tbatches_view(plan.tex_batches@)),
            plan.camera == *camera,
            plan.dimensions == old(self).dimensions.spec_get(),
            plan.instance_buffers@.len() == old(self).models@.len(),
            forall|m: int|
                0 <= m < old(self).models@.len() ==> (#[trigger] plan.instance_buffers@[m])@
                    == spec_raws_for(instances@, m),
            plan.model_draws@ == spec_model_draws(
                old(self).models@,
                instances@,
                old(self).models@.len() as int,
            ),
            plan.sections@ == old(self).queued@,
    {
        let mut color_vertices: Vec<ColorVertex> = Vec::new();
        let mut atlas_batches: Vec<AtlasBatch> = Vec::new();
        let mut tex_batches: Vec<TexBatch> = Vec::new();
        let mut i: usize = 0;
        while i < ui_models.len()
            invariant
                0 <= i <= ui_models@.len(),
                color_vertices@ == spec_color_bucket(ui_models@.subrange(0, i as int)),
                abatches_view(atlas_batches@) == spec_atlas_buckets(
                    ui_models@.subrange(0, i as int),
                ),
                unique_ids(abatches_view(atlas_batches@)),
                tbatches_view(tex_batches@) == spec_tex_buckets(ui_models@.subrange(0, i as int)),
                unique_ids(tbatches_view(tex_batches@)),
            decreases ui_models@.len() - i,
        {
            proof {
                assert(ui_models@.subrange(0, i + 1).drop_last() =~= ui_models@.subrange(
                    0,
                    i as int,
                ));
                assert(ui_models@.subrange(0, i + 1).last() == ui_models@[i as int]);
            }
            let m = &ui_models[i];
            match m.color_src {
                ColorSource::PerVert => {
                    let mut vs = convert_color_verts(m);
                    color_vertices.append(&mut vs);
                }
                ColorSource::Atlas(id) => {
                    let vs = convert_abs_verts(m);
                    add_to_atlas_batches(&mut atlas_batches, id, vs);
                }
                ColorSource::Tex(id) => {
                    let vs = convert_rel_verts(m);
                    add_to_tex_batches(&mut tex_batches, id, vs);
                }
            }
            i += 1;
        }
        proof {
            assert(ui_models@.subrange(0, ui_models@.len() as int) =~= ui_models@);
        }
        let n_models = self.models.len();
        let mut instance_buffers: Vec<Vec<InstanceRaw>> = Vec::new();
        while instance_buffers.len() < n_models
            invariant
                instance_buffers@.len() <= n_models,
                forall|m: int|
                    0 <= m < instance_buffers@.len() ==> (#[trigger] instance_buffers@[m])@
                        =~= Seq::<InstanceRaw>::empty(),
            decreases n_models - instance_buffers@.len(),
        {
            instance_buffers.push(Vec::new());
        }
        proof {
            assert(instances@.subrange(0, 0) =~= Seq::<ModeledInstance>::empty());
            assert forall|m: int| 0 <= m < n_models implies (#[trigger] instance_buffers@[m])@
                == spec_raws_for(instances@.subrange(0, 0), m) by {
                assert(instance_buffers@[m]@ =~= Seq::<InstanceRaw>::empty());
            }
        }
        let mut j: usize = 0;
        while j < instances.len()
            invariant
                0 <= j <= instances@.len(),
                instance_buffers@.len() == n_models,
                n_models == self.models@.len(),
                forall|i2: int|
                    0 <= i2 < instances@.len() ==> (#[trigger] instances@[i2]).model_id < n_models
                        && instances@[i2].instance.wf(),
                forall|m: int|
                    0 <= m < n_models ==> (#[trigger] instance_buffers@[m])@ == spec_raws_for(
                        instances@.subrange(0, j as int),
                        m,
                    ),
            decreases instances@.len() - j,
        {
            let inst = instances[j];
            let raw = inst.instance.to_raw();
            let ghost before = instance_buffers@;
            instance_buffers[inst.model_id].push(raw);
            proof {
                assert forall|m: int| 0 <= m < n_models implies (#[trigger] instance_buffers@[m])@
                    == spec_raws_for(instances@.subrange(0, j + 1), m) by {
                    assert(instances@.subrange(0, j + 1).drop_last() =~= instances@.subrange(
                        0,
                        j as int,
                    ));
                    assert(instances@.subrange(0, j + 1).last() == instances@[j as int]);
                    if m == inst.model_id {
                        assert(instance_buffers@[m]@ == before[m]@.push(raw));
                    } else {
                        assert(instance_buffers@[m]@ == before[m]@);
                    }
                }
            }
            j += 1;
        }
        proof {
            assert(instances@.subrange(0, instances@.len() as int) =~= instances@);
        }
        let mut model_draws: Vec<ModelDraw> = Vec::new();
        let mut mi: usize = 0;
        while mi < n_models
            invariant
                0 <= mi <= n_models,
                n_models == self.models@.len(),
                self.models@ == old(self).models@,
                old(self).wf(),
                instance_buffers@.len() == n_models,
                forall|m: int|
                    0 <= m < n_models ==> (#[trigger] instance_buffers@[m])@ == spec_raws_for(
                        instances@,
                        m,
                    ),
                model_draws@ == spec_model_draws(self.models@, instances@, mi as int),
            decreases n_models - mi,
        {
            let count = instance_buffers[mi].len();
            if count > 0 {
                let mesh_count = self.models[mi].meshes.len();
                let ghost md = spec_mesh_draws(self.models@[mi as int], mi, count);
                let ghost base = model_draws@;
                let mut k: usize = 0;
                while k < mesh_count
                    invariant
                        0 <= k <= mesh_count,
                        n_models == self.models@.len(),
                        mi < n_models,
                        mesh_count == self.models@[mi as int].meshes@.len(),
                        md == spec_mesh_draws(self.models@[mi as int], mi, count),
                        model_draws@ == base + md.subrange(0, k as int),
                    decreases mesh_count - k,
                {
                    let mesh = self.models[mi].meshes[k];
                    model_draws.push(
                        ModelDraw {
                            model_id: mi,
                            mesh: k,
                            material: mesh.material,
                            num_elements: mesh.num_elements,
                            instances: count,
                        },
                    );
                    proof {
                        assert(md.subrange(0, k + 1) =~= md.subrange(0, k as int).push(md[k as int]));
                        assert(model_draws@ =~= base + md.subrange(0, k + 1));
                    }
                    k += 1;
                }
                proof {
                    assert(md.subrange(0, mesh_count as int) =~= md);
                    assert(spec_raws_for(instances@, mi as int).len() == count);
                    assert(model_draws@ == spec_model_draws(self.models@, instances@, mi + 1));
                }
            } else {
                proof {
                    assert(spec_raws_for(instances@, mi as int).len() == 0);
                    assert(model_draws@ == spec_model_draws(self.models@, instances@, mi + 1));
                }
            }
            mi += 1;
        }
        let mut sections: Vec<(usize, QueuedSection)> = Vec::new();
        core::mem::swap(&mut sections, &mut self.queued);
        let dims = self.dimensions.get();
        FramePlan {
            background: crate::utils::light_gray_gpu(),
            color_vertices,
            atlas_batches,
            tex_batches,
            camera: *camera,
            dimensions: dims,
            instance_buffers,
            model_draws,
            sections,
        }
    }
}


} // verus!
