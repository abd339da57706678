//! Data exchanged with a custom GPU driver.
//!
//! The library dispatches low level GPU commands to a GPU driver, which
//! renders them on its own textures.
use vstd::prelude::*;

pub mod glium;

verus! {

/// RenderBuffer description.
#[derive(Debug, Clone, Copy, PartialEq, Eq)]
pub struct RenderBuffer {
    /// The backing texture id for this render buffer.
    pub texture_id: u32,
    /// The width of the backing texture.
    pub width: u32,
    /// The height of the backing texture.
    pub height: u32,
    /// Does the backing texture contain stencil buffer. (currently unused always false).
    pub has_stencil_buffer: bool,
    /// Does the backing texture contain depth buffer. (currently unused always false).
    pub has_depth_buffer: bool,
}

/// Vertex buffer format types.
#[allow(non_camel_case_types)]
#[derive(Debug, Clone, Copy, PartialEq, Eq)]
pub enum VertexBufferFormat {
    /// Vertex format type for path vertices.
    Format_2f_4ub_2f,
    /// Vertex format type for quad vertices.
    Format_2f_4ub_2f_2f_28f,
}

/// The value of `kVertexBufferFormat_2f_4ub_2f` in the C API.
pub const RAW_VERTEX_FORMAT_2F_4UB_2F: u32 = 0;
/// The value of `kVertexBufferFormat_2f_4ub_2f_2f_28f` in the C API.
pub const RAW_VERTEX_FORMAT_2F_4UB_2F_2F_28F: u32 = 1;

impl VertexBufferFormat {
    /// The C API value of this format.
    pub open spec fn spec_raw(self) -> u32 {
        match self {
            VertexBufferFormat::Format_2f_4ub_2f => RAW_VERTEX_FORMAT_2F_4UB_2F,
            VertexBufferFormat::Format_2f_4ub_2f_2f_28f => RAW_VERTEX_FORMAT_2F_4UB_2F_2F_28F,
        }
    }

    /// The size in bytes of one vertex of this format: two `f32` positions,
    /// four `u8` colour channels and two `f32` coordinates for path vertices;
    /// the same plus two more `f32` coordinates and 28 `f32` data values for
    /// quad vertices.
    pub open spec fn spec_vertex_size(self) -> usize {
        match self {
            VertexBufferFormat::Format_2f_4ub_2f => 20,
            VertexBufferFormat::Format_2f_4ub_2f_2f_28f => 140,
        }
    }

    /// The C API value of this format.
    pub fn to_raw(&self) -> (r: u32)
        ensures
            r == self.spec_raw(),
    {
        match self {
            VertexBufferFormat::Format_2f_4ub_2f => RAW_VERTEX_FORMAT_2F_4UB_2F,
            VertexBufferFormat::Format_2f_4ub_2f_2f_28f => RAW_VERTEX_FORMAT_2F_4UB_2F_2F_28F,
        }
    }

    /// The format with the given C API value; `None` for an unknown value.
    pub fn from_raw(raw: u32) -> (r: Option<VertexBufferFormat>)
        ensures
            match r {
                Some(f) => f.spec_raw() == raw,
                None => forall|f: VertexBufferFormat| f.spec_raw() != raw,
            },
    {
        if raw == RAW_VERTEX_FORMAT_2F_4UB_2F {
            Some(VertexBufferFormat::Format_2f_4ub_2f)
        } else if raw == RAW_VERTEX_FORMAT_2F_4UB_2F_2F_28F {
            Some(VertexBufferFormat::Format_2f_4ub_2f_2f_28f)
        } else {
            None
        }
    }

    /// The size in bytes of one vertex of this format.
    pub fn vertex_size(&self) -> (r: usize)
        ensures
            r == self.spec_vertex_size(),
    {
        match self {
            VertexBufferFormat::Format_2f_4ub_2f => 20,
            VertexBufferFormat::Format_2f_4ub_2f_2f_28f => 140,
        }
    }

    /// The number of whole vertices a buffer of `byte_len` bytes holds, or `None`
    /// when bytes would be left over after the last whole vertex.
    pub fn vertex_count(&self, byte_len: usize) -> (r: Option<usize>)
        ensures
            match r {
                Some(n) => n * self.spec_vertex_size() == byte_len,
                None => byte_len % self.spec_vertex_size() != 0,
            },
    {
        let size = self.vertex_size();
        if byte_len % size == 0 {
            let n = byte_len / size;
            assert(n * size == byte_len) by (nonlinear_arith)
                requires
                    byte_len % size == 0,
                    n == byte_len / size,
                    size > 0,
            ;
            Some(n)
        } else {
            None
        }
    }
}

/// Decoding the C API value of a variant gives the variant back.
pub proof fn lemma_vertex_buffer_format_raw_roundtrip(v: VertexBufferFormat)
    ensures
        forall|w: VertexBufferFormat| w.spec_raw() == v.spec_raw() ==> w == v,
{
}

/// Vertex buffer, the buffer is used for `quad` or `path` rendering based on
/// the `format`.
#[derive(Debug, Clone)]
pub struct VertexBuffer {
    /// The format of the raw data. Either path or quad vertices.
    pub format: VertexBufferFormat,
    /// The raw vertex buffer data.
    pub buffer: Vec<u8>,
}

/// Index buffer.
#[derive(Debug, Clone)]
pub struct IndexBuffer {
    pub buffer: Vec<u32>,
}

/// Shader types, each corresponds to a vertex/pixel shader pair.
#[derive(Debug, Clone, Copy, PartialEq, Eq)]
pub enum ShaderType {
    /// Shader for the quad geometry.
    Fill,
    /// Shader for the path geometry.
    FillPath,
}

/// The value of `kShaderType_Fill` in the C API.
pub const RAW_SHADER_TYPE_FILL: u32 = 0;
/// The value of `kShaderType_FillPath` in the C API.
pub const RAW_SHADER_TYPE_FILL_PATH: u32 = 1;

impl ShaderType {
    /// The C API value of this shader type.
    pub open spec fn spec_raw(self) -> u32 {
        match self {
            ShaderType::Fill => RAW_SHADER_TYPE_FILL,
            ShaderType::FillPath => RAW_SHADER_TYPE_FILL_PATH,
        }
    }

    /// The C API value of this shader type.
    pub fn to_raw(&self) -> (r: u32)
        ensures
            r == self.spec_raw(),
    {
        match self {
            ShaderType::Fill => RAW_SHADER_TYPE_FILL,
            ShaderType::FillPath => RAW_SHADER_TYPE_FILL_PATH,
        }
    }

    /// The shader type with the given C API value; `None` for an unknown value.
    pub fn from_raw(raw: u32) -> (r: Option<ShaderType>)
        ensures
            match r {
                Some(s) => s.spec_raw() == raw,
                None => forall|s: ShaderType| s.spec_raw() != raw,
            },
    {
        if raw == RAW_SHADER_TYPE_FILL {
            Some(ShaderType::Fill)
        } else if raw == RAW_SHADER_TYPE_FILL_PATH {
            Some(ShaderType::FillPath)
        } else {
            None
        }
    }
}

/// Decoding the C API value of a variant gives the variant back.
pub proof fn lemma_shader_type_raw_roundtrip(v: ShaderType)
    ensures
        forall|w: ShaderType| w.spec_raw() == v.spec_raw() ==> w == v,
{
}

/// The kinds of GPU commands.
#[derive(Debug, Clone, Copy, PartialEq, Eq)]
pub enum GpuCommandKind {
    /// Clear a specific render buffer.
    ClearRenderBuffer,
    /// Perform a draw command.
    DrawGeometry,
}

/// The value of `kCommandType_ClearRenderBuffer` in the C API.
pub const RAW_COMMAND_CLEAR_RENDER_BUFFER: u32 = 0;
/// The value of `kCommandType_DrawGeometry` in the C API.
pub const RAW_COMMAND_DRAW_GEOMETRY: u32 = 1;

impl GpuCommandKind {
    /// The C API value of this command kind.
    pub open spec fn spec_raw(self) -> u32 {
        match self {
            GpuCommandKind::ClearRenderBuffer => RAW_COMMAND_CLEAR_RENDER_BUFFER,
            GpuCommandKind::DrawGeometry => RAW_COMMAND_DRAW_GEOMETRY,
        }
    }

    /// The command kind with the given C API value; `None` for an unknown value.
    pub fn from_raw(raw: u32) -> (r: Option<GpuCommandKind>)
        ensures
            match r {
                Some(k) => k.spec_raw() == raw,
                None => forall|k: GpuCommandKind| k.spec_raw() != raw,
            },
    {
        if raw == RAW_COMMAND_CLEAR_RENDER_BUFFER {
            Some(GpuCommandKind::ClearRenderBuffer)
        } else if raw == RAW_COMMAND_DRAW_GEOMETRY {
            Some(GpuCommandKind::DrawGeometry)
        } else {
            None
        }
    }
}

/// Decoding the C API value of a variant gives the variant back.
pub proof fn lemma_gpu_command_kind_raw_roundtrip(v: GpuCommandKind)
    ensures
        forall|w: GpuCommandKind| w.spec_raw() == v.spec_raw() ==> w == v,
{
}

/// A texture slot of a draw command: id `0` is reserved and means that no
/// texture is bound to the slot.
pub fn texture_slot(raw_id: u32) -> (r: Option<u32>)
    ensures
        raw_id == 0 ==> r is None,
        raw_id != 0 ==> r == Some(raw_id),
{
    if raw_id == 0 {
        None
    } else {
        Some(raw_id)
    }
}

/// Hands out the ids of textures, render buffers and geometries that a GPU
/// driver reports to the library. Each kind counts up from `1`; `0` is
/// reserved and never handed out.
#[derive(Debug, Clone, Copy)]
pub struct GpuIdGenerator {
    next_texture_id: u32,
    next_render_buffer_id: u32,
    next_geometry_id: u32,
}

impl GpuIdGenerator {
    /// The last texture id handed out (`0` before the first).
    pub closed spec fn last_texture_id(&self) -> u32 {
        self.next_texture_id
    }

    /// The last render buffer id handed out (`0` before the first).
    pub closed spec fn last_render_buffer_id(&self) -> u32 {
        self.next_render_buffer_id
    }

    /// The last geometry id handed out (`0` before the first).
    pub closed spec fn last_geometry_id(&self) -> u32 {
        self.next_geometry_id
    }

    /// A generator that has handed out no id yet.
    pub fn new() -> (r: GpuIdGenerator)
        ensures
            r.last_texture_id() == 0,
            r.last_render_buffer_id() == 0,
            r.last_geometry_id() == 0,
            is_fresh(r),
    {
        GpuIdGenerator { next_texture_id: 0, next_render_buffer_id: 0, next_geometry_id: 0 }
    }

    /// Get the next available texture id.
    pub fn next_texture_id(&mut self) -> (r: u32)
        requires
            old(self).last_texture_id() < u32::MAX,
        ensures
            hands_out(*old(self), *final(self), IdKind::Texture, r),
            r == old(self).last_texture_id() + 1,
            final(self).last_texture_id() == r,
            final(self).last_render_buffer_id() == old(self).last_render_buffer_id(),
            final(self).last_geometry_id() == old(self).last_geometry_id(),
    {
        self.next_texture_id = self.next_texture_id + 1;
        self.next_texture_id
    }

    /// Get the next available render buffer id.
    pub fn next_render_buffer_id(&mut self) -> (r: u32)
        requires
            old(self).last_render_buffer_id() < u32::MAX,
        ensures
            hands_out(*old(self), *final(self), IdKind::RenderBuffer, r),
            r == old(self).last_render_buffer_id() + 1,
            final(self).last_render_buffer_id() == r,
            final(self).last_texture_id() == old(self).last_texture_id(),
            final(self).last_geometry_id() == old(self).last_geometry_id(),
    {
        self.next_render_buffer_id = self.next_render_buffer_id + 1;
        self.next_render_buffer_id
    }

    /// Get the next available geometry id.
    pub fn next_geometry_id(&mut self) -> (r: u32)
        requires
            old(self).last_geometry_id() < u32::MAX,
        ensures
            hands_out(*old(self), *final(self), IdKind::Geometry, r),
            r == old(self).last_geometry_id() + 1,
            final(self).last_geometry_id() == r,
            final(self).last_texture_id() == old(self).last_texture_id(),
            final(self).last_render_buffer_id() == old(self).last_render_buffer_id(),
    {
        self.next_geometry_id = self.next_geometry_id + 1;
        self.next_geometry_id
    }

    /// Whether another texture id can be handed out.
    pub fn can_hand_out_texture_id(&self) -> (r: bool)
        ensures
            r == (self.last_texture_id() < u32::MAX),
    {
        self.next_texture_id < u32::MAX
    }

    /// Whether another render buffer id can be handed out.
    pub fn can_hand_out_render_buffer_id(&self) -> (r: bool)
        ensures
            r == (self.last_render_buffer_id() < u32::MAX),
    {
        self.next_render_buffer_id < u32::MAX
    }

    /// Whether another geometry id can be handed out.
    pub fn can_hand_out_geometry_id(&self) -> (r: bool)
        ensures
            r == (self.last_geometry_id() < u32::MAX),
    {
        self.next_geometry_id < u32::MAX
    }
}

/// The kinds of resources a GPU driver hands out ids for.
#[derive(Debug, Clone, Copy, PartialEq, Eq)]
pub enum IdKind {
    Texture,
    RenderBuffer,
    Geometry,
}

/// The last id of a kind that the generator handed out (`0` before the first).
pub open spec fn last_id(g: GpuIdGenerator, kind: IdKind) -> u32 {
    match kind {
        IdKind::Texture => g.last_texture_id(),
        IdKind::RenderBuffer => g.last_render_buffer_id(),
        IdKind::Geometry => g.last_geometry_id(),
    }
}

/// The generator has handed out no id of any kind.
pub open spec fn is_fresh(g: GpuIdGenerator) -> bool {
    &&& g.last_texture_id() == 0
    &&& g.last_render_buffer_id() == 0
    &&& g.last_geometry_id() == 0
}

/// Going from `before` to `after`, the generator handed out `id` as the next
/// id of `kind`, and the counters of the other kinds stayed as they were.
pub open spec fn hands_out(
    before: GpuIdGenerator,
    after: GpuIdGenerator,
    kind: IdKind,
    id: u32,
) -> bool {
    &&& id == last_id(before, kind) + 1
    &&& last_id(after, kind) == id
    &&& forall|other: IdKind| other != kind ==> #[trigger] last_id(after, other) == last_id(
        before,
        other,
    )
}

/// The number of requests of `kind` among `kinds`.
pub open spec fn count_kind(kinds: Seq<IdKind>, kind: IdKind) -> nat
    decreases kinds.len(),
{
    if kinds.len() == 0 {
        0
    } else {
        count_kind(kinds.drop_last(), kind) + if kinds.last() == kind {
            1nat
        } else {
            0nat
        }
    }
}

proof fn lemma_counters_count(
    gens: Seq<GpuIdGenerator>,
    kinds: Seq<IdKind>,
    ids: Seq<u32>,
    n: int,
)
    requires
        gens.len() == kinds.len() + 1,
        ids.len() == kinds.len(),
        is_fresh(gens[0]),
        forall|i: int|
            #![trigger kinds[i]]
            0 <= i < kinds.len() ==> hands_out(gens[i], gens[i + 1], kinds[i], ids[i]),
        0 <= n <= kinds.len(),
    ensures
        forall|k: IdKind| #[trigger] last_id(gens[n], k) == count_kind(kinds.take(n), k),
    decreases n,
{
    if n == 0 {
        assert forall|k: IdKind| #[trigger] last_id(gens[n], k) == count_kind(kinds.take(n), k) by {
            assert(kinds.take(0).len() == 0);
        }
    } else {
        lemma_counters_count(gens, kinds, ids, n - 1);
        assert(hands_out(gens[n - 1], gens[n], kinds[n - 1], ids[n - 1]));
        assert(kinds.take(n).drop_last() =~= kinds.take(n - 1));
        assert forall|k: IdKind| #[trigger] last_id(gens[n], k) == count_kind(kinds.take(n), k) by {
            assert(last_id(gens[n - 1], k) == count_kind(kinds.take(n - 1), k));
            if k != kinds[n - 1] {
                assert(last_id(gens[n], k) == last_id(gens[n - 1], k));
            }
        }
    }
}

proof fn lemma_count_grows(kinds: Seq<IdKind>, kind: IdKind, a: int, b: int)
    requires
        0 <= a <= b <= kinds.len(),
    ensures
        count_kind(kinds.take(a), kind) <= count_kind(kinds.take(b), kind),
    decreases b - a,
{
    if a < b {
        lemma_count_grows(kinds, kind, a, b - 1);
        assert(kinds.take(b).drop_last() =~= kinds.take(b - 1));
    }
}

/// The ids a generator hands out from its creation on count up from `1`,
/// each kind on its own: the id handed out for a request is the number of
/// requests of its kind so far, including itself. So no id is the reserved
/// `0`, and an id handed out later is greater than every id of the same kind
/// handed out before it. `gens` are the generator's states, `kinds` the
/// requests made in turn and `ids` the ids handed out for them.
pub proof fn lemma_ids_count_up(gens: Seq<GpuIdGenerator>, kinds: Seq<IdKind>, ids: Seq<u32>)
    requires
        gens.len() == kinds.len() + 1,
        ids.len() == kinds.len(),
        is_fresh(gens[0]),
        forall|i: int|
            #![trigger kinds[i]]
            0 <= i < kinds.len() ==> hands_out(gens[i], gens[i + 1], kinds[i], ids[i]),
    ensures
        forall|i: int| 0 <= i < ids.len() ==> #[trigger] ids[i] == count_kind(kinds.take(i + 1), kinds[i]),
        forall|i: int| 0 <= i < ids.len() ==> #[trigger] ids[i] >= 1,
        forall|i: int, j: int|
            0 <= i < j < ids.len() && kinds[i] == kinds[j] ==> #[trigger] ids[i] < #[trigger] ids[j],
{
    assert forall|i: int| 0 <= i < ids.len() implies #[trigger] ids[i] == count_kind(
        kinds.take(i + 1),
        kinds[i],
    ) by {
        lemma_counters_count(gens, kinds, ids, i);
        assert(hands_out(gens[i], gens[i + 1], kinds[i], ids[i]));
        assert(kinds.take(i + 1).drop_last() =~= kinds.take(i));
        assert(last_id(gens[i], kinds[i]) == count_kind(kinds.take(i), kinds[i]));
    }
    assert forall|i: int, j: int|
        0 <= i < j < ids.len() && kinds[i] == kinds[j] implies #[trigger] ids[i] < #[trigger] ids[j] by {
        lemma_counters_count(gens, kinds, ids, j);
        assert(hands_out(gens[j], gens[j + 1], kinds[j], ids[j]));
        assert(last_id(gens[j], kinds[j]) == count_kind(kinds.take(j), kinds[j]));
        lemma_count_grows(kinds, kinds[i], i + 1, j);
        assert(ids[i] == count_kind(kinds.take(i + 1), kinds[i]));
    }
}

/// The C API value of each variant (`kVertexBufferFormat_*`): `Format_2f_4ub_2f` is 0,
/// `Format_2f_4ub_2f_2f_28f` is 1. A path vertex takes 20 bytes and a quad vertex 140.
pub proof fn lemma_vertex_buffer_format_raw_values()
    ensures
        VertexBufferFormat::Format_2f_4ub_2f.spec_raw() == 0,
        VertexBufferFormat::Format_2f_4ub_2f_2f_28f.spec_raw() == 1,
        VertexBufferFormat::Format_2f_4ub_2f.spec_vertex_size() == 20,
        VertexBufferFormat::Format_2f_4ub_2f_2f_28f.spec_vertex_size() == 140,
{
}

/// The C API value of each variant (`kShaderType_*`): `Fill` is 0, `FillPath` is 1.
pub proof fn lemma_shader_type_raw_values()
    ensures
        ShaderType::Fill.spec_raw() == 0,
        ShaderType::FillPath.spec_raw() == 1,
{
}

/// The C API value of each variant (`kCommandType_*`): `ClearRenderBuffer` is 0, `DrawGeometry`
/// is 1.
pub proof fn lemma_gpu_command_kind_raw_values()
    ensures
        GpuCommandKind::ClearRenderBuffer.spec_raw() == 0,
        GpuCommandKind::DrawGeometry.spec_raw() == 1,
{
}

} // verus!
