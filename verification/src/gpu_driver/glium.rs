//! Bookkeeping of a GPU driver that renders with `glium`.
//!
//! The driver receives commands from the library and keeps textures,
//! render buffers and geometry alive in `glium`. This module holds the
//! decisions of that driver: which resources exist, what each command does to
//! them, what a draw or clear command binds, and which commands are faulty.
//! The `glium` work itself is done by the caller.
use std::collections::HashMap;
use vstd::prelude::*;

use crate::bitmap::{BitmapFormat, OwnedBitmap};
use crate::gpu_driver::{RenderBuffer, ShaderType};
use crate::rect::Rect;

verus! {

broadcast use vstd::std_specs::hash::group_hash_axioms;

/// The error `glium` returns when it cannot create a texture.
#[verifier::external_type_specification]
#[verifier::external_body]
pub struct ExTextureCreationError(::glium::texture::TextureCreationError);

/// The error `glium` returns when it cannot create a shader program.
#[verifier::external_type_specification]
#[verifier::external_body]
pub struct ExProgramChooserCreationError(::glium::program::ProgramChooserCreationError);

/// The error `glium` returns when it cannot create an index buffer.
#[verifier::external_type_specification]
#[verifier::external_body]
pub struct ExIndexBufferCreationError(::glium::index::BufferCreationError);

/// The error `glium` returns when it cannot create a vertex buffer.
#[verifier::external_type_specification]
#[verifier::external_body]
pub struct ExVertexBufferCreationError(::glium::vertex::BufferCreationError);

/// The error `glium` returns when it cannot create a buffer.
#[verifier::external_type_specification]
#[verifier::external_body]
pub struct ExBufferCreationError(::glium::buffer::BufferCreationError);

/// The error `glium` returns when a framebuffer is not valid.
#[verifier::external_type_specification]
#[verifier::external_body]
pub struct ExValidationError(::glium::framebuffer::ValidationError);

/// The error `glium` returns when it cannot draw.
#[verifier::external_type_specification]
#[verifier::external_body]
pub struct ExDrawError(::glium::DrawError);

/// Errors can occur when creating or running the `glium` GPU driver.
#[derive(Debug)]
pub enum GliumGpuDriverError {
    /// Failed to create `glium` textures.
    TextureCreationError(::glium::texture::TextureCreationError),
    /// Failed to create a shader program in `glium`.
    ProgramCreationError(::glium::program::ProgramChooserCreationError),
    /// Failed to create a `glium` index buffer.
    IndexBufferCreationError(::glium::index::BufferCreationError),
    /// Failed to create a `glium` vertex buffer.
    VertexBufferCreationError(::glium::vertex::BufferCreationError),
    /// Failed to create a `glium` buffer.
    BufferCreationError(::glium::buffer::BufferCreationError),
    /// Failed to create a `glium` framebuffer.
    FrameBufferCreationError(::glium::framebuffer::ValidationError),
    /// Failed to draw.
    DrawError(::glium::DrawError),
    /// The index offset and size used in a draw are out of range of the index buffer.
    DrawIndexOutOfRange { index_buffer_size: usize, draw_index_offset: u32, draw_index_size: u32 },
}

/// What the driver knows of a texture it holds.
#[derive(Debug, Clone, Copy, PartialEq, Eq)]
pub struct TextureRecord {
    /// The width of the texture in pixels.
    pub width: u32,
    /// The height of the texture in pixels.
    pub height: u32,
    /// The render buffer that uses this texture as its backing texture, if any.
    pub render_buffer_id: Option<u32>,
}

/// A command that creates, updates or destroys a resource of the driver.
#[derive(Debug, Clone, Copy, PartialEq, Eq)]
pub enum ResourceCommand {
    /// Create a texture of the given size (replacing any texture with that id).
    CreateTexture { id: u32, width: u32, height: u32 },
    /// Replace the contents of an existing texture.
    UpdateTexture { id: u32, width: u32, height: u32 },
    /// Destroy an existing texture.
    DestroyTexture { id: u32 },
    /// Create a render buffer backed by an existing texture.
    CreateRenderBuffer { id: u32, render_buffer: RenderBuffer },
    /// Destroy an existing render buffer.
    DestroyRenderBuffer { id: u32 },
    /// Create geometry whose index buffer holds `index_count` indices.
    CreateGeometry { id: u32, index_count: usize },
    /// Replace the buffers of existing geometry.
    UpdateGeometry { id: u32, index_count: usize },
    /// Destroy existing geometry.
    DestroyGeometry { id: u32 },
}

/// A command that the driver cannot carry out; the driver stops on it.
#[derive(Debug, Clone, Copy, PartialEq, Eq)]
pub enum DriverFault {
    /// The command refers to a texture the driver does not hold.
    MissingTexture { id: u32 },
    /// The command refers to a render buffer the driver does not hold.
    MissingRenderBuffer { id: u32 },
    /// The command refers to geometry the driver does not hold.
    MissingGeometry { id: u32 },
    /// A render buffer's width differs from its backing texture's width.
    RenderBufferWidthMismatch { render_buffer_id: u32 },
    /// A render buffer's height differs from its backing texture's height.
    RenderBufferHeightMismatch { render_buffer_id: u32 },
    /// The render buffer asks for a stencil buffer, which is not supported.
    StencilBufferUnsupported { render_buffer_id: u32 },
    /// The render buffer asks for a depth buffer, which is not supported.
    DepthBufferUnsupported { render_buffer_id: u32 },
    /// The width or the height of the scissor rectangle does not fit in an `i32`.
    ScissorOverflow,
    /// A bitmap that is not empty has no pixel buffer.
    MissingPixels,
    /// The unpadded row size (`width * 4` bytes) of a bitmap does not fit in a `u32`.
    RowSizeOverflow,
    /// A padded bitmap reports rows of zero bytes.
    ZeroRowStride,
    /// A row of a padded bitmap is shorter than an unpadded row.
    ShortRow,
    /// The indices a draw command asks for (`draw_index_size` indices from
    /// `draw_index_offset` on) lie outside its geometry's index buffer of
    /// `index_buffer_size` indices.
    DrawIndexOutOfRange { index_buffer_size: usize, draw_index_offset: u32, draw_index_size: u32 },
}

/// The fault of a resource command on the given resources, `None` if it can be
/// carried out.
pub open spec fn resource_fault(
    textures: Map<u32, TextureRecord>,
    render_buffers: Map<u32, RenderBuffer>,
    geometries: Map<u32, usize>,
    cmd: ResourceCommand,
) -> Option<DriverFault> {
    match cmd {
        ResourceCommand::CreateTexture { .. } => None,
        ResourceCommand::UpdateTexture { id, .. } => if textures.contains_key(id) {
            None
        } else {
            Some(DriverFault::MissingTexture { id })
        },
        ResourceCommand::DestroyTexture { id } => if textures.contains_key(id) {
            None
        } else {
            Some(DriverFault::MissingTexture { id })
        },
        ResourceCommand::CreateRenderBuffer { id, render_buffer } => {
            let tid = render_buffer.texture_id;
            if !textures.contains_key(tid) {
                Some(DriverFault::MissingTexture { id: tid })
            } else if textures[tid].width != render_buffer.width {
                Some(DriverFault::RenderBufferWidthMismatch { render_buffer_id: id })
            } else if textures[tid].height != render_buffer.height {
                Some(DriverFault::RenderBufferHeightMismatch { render_buffer_id: id })
            } else {
                None
            }
        },
        ResourceCommand::DestroyRenderBuffer { id } => if render_buffers.contains_key(id) {
            None
        } else {
            Some(DriverFault::MissingRenderBuffer { id })
        },
        ResourceCommand::CreateGeometry { .. } => None,
        ResourceCommand::UpdateGeometry { id, .. } => if geometries.contains_key(id) {
            None
        } else {
            Some(DriverFault::MissingGeometry { id })
        },
        ResourceCommand::DestroyGeometry { id } => if geometries.contains_key(id) {
            None
        } else {
            Some(DriverFault::MissingGeometry { id })
        },
    }
}

/// The textures after a resource command that has no fault.
pub open spec fn next_textures(
    textures: Map<u32, TextureRecord>,
    render_buffers: Map<u32, RenderBuffer>,
    cmd: ResourceCommand,
) -> Map<u32, TextureRecord> {
    match cmd {
        ResourceCommand::CreateTexture { id, width, height } => textures.insert(
            id,
            TextureRecord { width, height, render_buffer_id: None },
        ),
        ResourceCommand::UpdateTexture { id, width, height } => textures.insert(
            id,
            TextureRecord { width, height, render_buffer_id: textures[id].render_buffer_id },
        ),
        ResourceCommand::DestroyTexture { id } => textures.remove(id),
        ResourceCommand::CreateRenderBuffer { id, render_buffer } => {
            let tid = render_buffer.texture_id;
            textures.insert(tid, TextureRecord { render_buffer_id: Some(id), ..textures[tid] })
        },
        ResourceCommand::DestroyRenderBuffer { id } => {
            let tid = render_buffers[id].texture_id;
            if textures.contains_key(tid) {
                textures.insert(tid, TextureRecord { render_buffer_id: None, ..textures[tid] })
            } else {
                textures
            }
        },
        _ => textures,
    }
}

/// The render buffers after a resource command that has no fault.
pub open spec fn next_render_buffers(
    render_buffers: Map<u32, RenderBuffer>,
    cmd: ResourceCommand,
) -> Map<u32, RenderBuffer> {
    match cmd {
        ResourceCommand::CreateRenderBuffer { id, render_buffer } => render_buffers.insert(
            id,
            render_buffer,
        ),
        ResourceCommand::DestroyRenderBuffer { id } => render_buffers.remove(id),
        _ => render_buffers,
    }
}

/// The geometry (id to number of indices) after a resource command that has no fault.
pub open spec fn next_geometries(geometries: Map<u32, usize>, cmd: ResourceCommand) -> Map<
    u32,
    usize,
> {
    match cmd {
        ResourceCommand::CreateGeometry { id, index_count } => geometries.insert(id, index_count),
        ResourceCommand::UpdateGeometry { id, index_count } => geometries.insert(id, index_count),
        ResourceCommand::DestroyGeometry { id } => geometries.remove(id),
        _ => geometries,
    }
}

/// Every texture that names a render buffer is the backing texture of that
/// render buffer.
pub open spec fn links_consistent(
    textures: Map<u32, TextureRecord>,
    render_buffers: Map<u32, RenderBuffer>,
) -> bool {
    forall|t: u32|
        #![trigger textures[t]]
        textures.contains_key(t) && textures[t].render_buffer_id is Some ==> {
            let r = textures[t].render_buffer_id->0;
            render_buffers.contains_key(r) && render_buffers[r].texture_id == t
        }
}

/// The resources a `glium` GPU driver holds, keyed by the ids the library
/// gave them.
#[derive(Debug, Clone)]
pub struct GliumResourceTable {
    textures: HashMap<u32, TextureRecord>,
    render_buffers: HashMap<u32, RenderBuffer>,
    geometries: HashMap<u32, usize>,
}

impl GliumResourceTable {
    /// The textures held, by id.
    pub closed spec fn textures(&self) -> Map<u32, TextureRecord> {
        self.textures@
    }

    /// The render buffers held, by id.
    pub closed spec fn render_buffers(&self) -> Map<u32, RenderBuffer> {
        self.render_buffers@
    }

    /// The geometry held, by id, with the number of indices of each.
    pub closed spec fn geometries(&self) -> Map<u32, usize> {
        self.geometries@
    }

    /// A table that holds nothing.
    pub fn new() -> (r: GliumResourceTable)
        ensures
            r.textures() == Map::<u32, TextureRecord>::empty(),
            r.render_buffers() == Map::<u32, RenderBuffer>::empty(),
            r.geometries() == Map::<u32, usize>::empty(),
    {
        GliumResourceTable {
            textures: HashMap::new(),
            render_buffers: HashMap::new(),
            geometries: HashMap::new(),
        }
    }

    /// The record of a texture, if the driver holds it.
    pub fn texture(&self, id: u32) -> (r: Option<TextureRecord>)
        ensures
            match r {
                Some(t) => self.textures().contains_key(id) && self.textures()[id] == t,
                None => !self.textures().contains_key(id),
            },
    {
        match self.textures.get(&id) {
            Some(t) => Some(*t),
            None => None,
        }
    }

    /// The description of a render buffer, if the driver holds it.
    pub fn render_buffer(&self, id: u32) -> (r: Option<RenderBuffer>)
        ensures
            match r {
                Some(b) => self.render_buffers().contains_key(id) && self.render_buffers()[id]
                    == b,
                None => !self.render_buffers().contains_key(id),
            },
    {
        match self.render_buffers.get(&id) {
            Some(b) => Some(*b),
            None => None,
        }
    }

    /// The number of indices of a geometry, if the driver holds it.
    pub fn geometry(&self, id: u32) -> (r: Option<usize>)
        ensures
            match r {
                Some(n) => self.geometries().contains_key(id) && self.geometries()[id] == n,
                None => !self.geometries().contains_key(id),
            },
    {
        match self.geometries.get(&id) {
            Some(n) => Some(*n),
            None => None,
        }
    }

    /// Checks whether a resource command can be carried out, without changing
    /// anything.
    pub fn check(&self, cmd: &ResourceCommand) -> (r: Result<(), DriverFault>)
        ensures
            match r {
                Ok(()) => resource_fault(
                    self.textures(),
                    self.render_buffers(),
                    self.geometries(),
                    *cmd,
                ) is None,
                Err(f) => resource_fault(
                    self.textures(),
                    self.render_buffers(),
                    self.geometries(),
                    *cmd,
                ) == Some(f),
            },
    {
        match cmd {
            ResourceCommand::CreateTexture { .. } => Ok(()),
            ResourceCommand::UpdateTexture { id, .. } => if self.textures.contains_key(id) {
                Ok(())
            } else {
                Err(DriverFault::MissingTexture { id: *id })
            },
            ResourceCommand::DestroyTexture { id } => if self.textures.contains_key(id) {
                Ok(())
            } else {
                Err(DriverFault::MissingTexture { id: *id })
            },
            ResourceCommand::CreateRenderBuffer { id, render_buffer } => {
                let tid = render_buffer.texture_id;
                match self.textures.get(&tid) {
                    None => Err(DriverFault::MissingTexture { id: tid }),
                    Some(t) => if t.width != render_buffer.width {
                        Err(DriverFault::RenderBufferWidthMismatch { render_buffer_id: *id })
                    } else if t.height != render_buffer.height {
                        Err(DriverFault::RenderBufferHeightMismatch { render_buffer_id: *id })
                    } else {
                        Ok(())
                    },
                }
            },
            ResourceCommand::DestroyRenderBuffer { id } => if self.render_buffers.contains_key(
                id,
            ) {
                Ok(())
            } else {
                Err(DriverFault::MissingRenderBuffer { id: *id })
            },
            ResourceCommand::CreateGeometry { .. } => Ok(()),
            ResourceCommand::UpdateGeometry { id, .. } => if self.geometries.contains_key(id) {
                Ok(())
            } else {
                Err(DriverFault::MissingGeometry { id: *id })
            },
            ResourceCommand::DestroyGeometry { id } => if self.geometries.contains_key(id) {
                Ok(())
            } else {
                Err(DriverFault::MissingGeometry { id: *id })
            },
        }
    }

    /// Carries out a resource command. A faulty command changes nothing.
    pub fn apply(&mut self, cmd: &ResourceCommand) -> (r: Result<(), DriverFault>)
        ensures
            match r {
                Ok(()) => {
                    &&& resource_fault(
                        old(self).textures(),
                        old(self).render_buffers(),
                        old(self).geometries(),
                        *cmd,
                    ) is None
                    &&& final(self).textures() == next_textures(
                        old(self).textures(),
                        old(self).render_buffers(),
                        *cmd,
                    )
                    &&& final(self).render_buffers() == next_render_buffers(
                        old(self).render_buffers(),
                        *cmd,
                    )
                    &&& final(self).geometries() == next_geometries(old(self).geometries(), *cmd)
                },
                Err(f) => {
                    &&& resource_fault(
                        old(self).textures(),
                        old(self).render_buffers(),
                        old(self).geometries(),
                        *cmd,
                    ) == Some(f)
                    &&& final(self).textures() == old(self).textures()
                    &&& final(self).render_buffers() == old(self).render_buffers()
                    &&& final(self).geometries() == old(self).geometries()
                },
            },
    {
        self.check(cmd)?;
        match cmd {
            ResourceCommand::CreateTexture { id, width, height } => {
                self.textures.insert(
                    *id,
                    TextureRecord { width: *width, height: *height, render_buffer_id: None },
                );
            },
            ResourceCommand::UpdateTexture { id, width, height } => {
                let link = match self.textures.get(id) {
                    Some(t) => t.render_buffer_id,
                    None => None,
                };
                self.textures.insert(
                    *id,
                    TextureRecord { width: *width, height: *height, render_buffer_id: link },
                );
            },
            ResourceCommand::DestroyTexture { id } => {
                self.textures.remove(id);
            },
            ResourceCommand::CreateRenderBuffer { id, render_buffer } => {
                let tid = render_buffer.texture_id;
                if let Some(t) = self.textures.get(&tid) {
                    let linked = TextureRecord { render_buffer_id: Some(*id), ..*t };
                    self.textures.insert(tid, linked);
                }
                self.render_buffers.insert(*id, *render_buffer);
            },
            ResourceCommand::DestroyRenderBuffer { id } => {
                if let Some(b) = self.render_buffers.remove(id) {
                    let tid = b.texture_id;
                    if let Some(t) = self.textures.get(&tid) {
                        let unlinked = TextureRecord { render_buffer_id: None, ..*t };
                        self.textures.insert(tid, unlinked);
                    }
                }
            },
            ResourceCommand::CreateGeometry { id, index_count } => {
                self.geometries.insert(*id, *index_count);
            },
            ResourceCommand::UpdateGeometry { id, index_count } => {
                self.geometries.insert(*id, *index_count);
            },
            ResourceCommand::DestroyGeometry { id } => {
                self.geometries.remove(id);
            },
        }
        Ok(())
    }
}

/// The link between textures and render buffers stays consistent under every
/// resource command that can be carried out, provided a render buffer is not
/// created under the id of one that is still held.
pub proof fn lemma_links_stay_consistent(
    textures: Map<u32, TextureRecord>,
    render_buffers: Map<u32, RenderBuffer>,
    geometries: Map<u32, usize>,
    cmd: ResourceCommand,
)
    requires
        links_consistent(textures, render_buffers),
        resource_fault(textures, render_buffers, geometries, cmd) is None,
        cmd matches ResourceCommand::CreateRenderBuffer { id, .. } ==> !render_buffers.contains_key(
            id,
        ),
    ensures
        links_consistent(
            next_textures(textures, render_buffers, cmd),
            next_render_buffers(render_buffers, cmd),
        ),
{
    let nt = next_textures(textures, render_buffers, cmd);
    let nr = next_render_buffers(render_buffers, cmd);
    assert forall|t: u32|
        #![trigger nt[t]]
        nt.contains_key(t) && nt[t].render_buffer_id is Some implies {
            let r = nt[t].render_buffer_id->0;
            nr.contains_key(r) && nr[r].texture_id == t
        } by {
        match cmd {
            ResourceCommand::CreateRenderBuffer { id, render_buffer } => {
                if t != render_buffer.texture_id {
                    assert(nt[t] == textures[t]);
                    let r = textures[t].render_buffer_id->0;
                    assert(render_buffers.contains_key(r));
                    assert(r != id);
                }
            },
            ResourceCommand::DestroyRenderBuffer { id } => {
                let tid = render_buffers[id].texture_id;
                if t != tid {
                    assert(nt[t] == textures[t]);
                    let r = textures[t].render_buffer_id->0;
                    assert(render_buffers[r].texture_id == t);
                    assert(r != id);
                }
            },
            ResourceCommand::CreateTexture { id, .. } => {
                if t != id {
                    assert(nt[t] == textures[t]);
                }
            },
            ResourceCommand::UpdateTexture { id, .. } => {
                if t != id {
                    assert(nt[t] == textures[t]);
                } else {
                    assert(nt[t].render_buffer_id == textures[t].render_buffer_id);
                }
            },
            ResourceCommand::DestroyTexture { id } => {
                assert(nt[t] == textures[t]);
            },
            _ => {
                assert(nt[t] == textures[t]);
            },
        }
    }
}

/// A texture that was just created is held with the size it was created
/// with and no render buffer, and a destroyed texture is no longer held; no
/// other texture changes.
pub proof fn lemma_texture_create_and_destroy(
    textures: Map<u32, TextureRecord>,
    render_buffers: Map<u32, RenderBuffer>,
    id: u32,
    width: u32,
    height: u32,
)
    ensures
        ({
            let created = next_textures(
                textures,
                render_buffers,
                ResourceCommand::CreateTexture { id, width, height },
            );
            &&& created.contains_key(id)
            &&& created[id] == TextureRecord { width, height, render_buffer_id: None }
            &&& forall|other: u32| other != id ==> #[trigger] created.contains_key(other)
                == textures.contains_key(other) && created[other] == textures[other]
        }),
        ({
            let destroyed = next_textures(
                textures,
                render_buffers,
                ResourceCommand::DestroyTexture { id },
            );
            &&& !destroyed.contains_key(id)
            &&& forall|other: u32| other != id ==> #[trigger] destroyed.contains_key(other)
                == textures.contains_key(other) && destroyed[other] == textures[other]
        }),
{
}

/// Destroying geometry that was just created gives back the geometry held
/// before, when no geometry with that id was held.
pub proof fn lemma_geometry_create_then_destroy(
    geometries: Map<u32, usize>,
    id: u32,
    index_count: usize,
)
    requires
        !geometries.contains_key(id),
    ensures
        next_geometries(
            next_geometries(geometries, ResourceCommand::CreateGeometry { id, index_count }),
            ResourceCommand::DestroyGeometry { id },
        ) == geometries,
{
    assert(next_geometries(
        next_geometries(geometries, ResourceCommand::CreateGeometry { id, index_count }),
        ResourceCommand::DestroyGeometry { id },
    ) =~= geometries);
}

/// Destroying a render buffer that was just created gives back the render
/// buffers held before, and leaves its backing texture without a render
/// buffer, when no render buffer with that id was held.
pub proof fn lemma_render_buffer_create_then_destroy(
    textures: Map<u32, TextureRecord>,
    render_buffers: Map<u32, RenderBuffer>,
    id: u32,
    render_buffer: RenderBuffer,
)
    requires
        !render_buffers.contains_key(id),
        textures.contains_key(render_buffer.texture_id),
    ensures
        ({
            let create = ResourceCommand::CreateRenderBuffer { id, render_buffer };
            let destroy = ResourceCommand::DestroyRenderBuffer { id };
            let t1 = next_textures(textures, render_buffers, create);
            let r1 = next_render_buffers(render_buffers, create);
            let t2 = next_textures(t1, r1, destroy);
            let r2 = next_render_buffers(r1, destroy);
            &&& r2 == render_buffers
            &&& t2 == textures.insert(
                render_buffer.texture_id,
                TextureRecord {
                    render_buffer_id: None,
                    ..textures[render_buffer.texture_id]
                },
            )
        }),
{
    let create = ResourceCommand::CreateRenderBuffer { id, render_buffer };
    let destroy = ResourceCommand::DestroyRenderBuffer { id };
    let t1 = next_textures(textures, render_buffers, create);
    let r1 = next_render_buffers(render_buffers, create);
    assert(next_render_buffers(r1, destroy) =~= render_buffers);
    assert(next_textures(t1, r1, destroy) =~= textures.insert(
        render_buffer.texture_id,
        TextureRecord { render_buffer_id: None, ..textures[render_buffer.texture_id] },
    ));
}

/// A resource command that can be carried out leaves the resource it
/// creates held and the resource it destroys gone.
pub proof fn lemma_commands_create_and_destroy(
    textures: Map<u32, TextureRecord>,
    render_buffers: Map<u32, RenderBuffer>,
    geometries: Map<u32, usize>,
    cmd: ResourceCommand,
)
    requires
        resource_fault(textures, render_buffers, geometries, cmd) is None,
    ensures
        cmd matches ResourceCommand::CreateTexture { id, .. } ==> next_textures(
            textures,
            render_buffers,
            cmd,
        ).contains_key(id),
        cmd matches ResourceCommand::CreateRenderBuffer { id, .. } ==> next_render_buffers(
            render_buffers,
            cmd,
        ).contains_key(id),
        cmd matches ResourceCommand::CreateGeometry { id, .. } ==> next_geometries(
            geometries,
            cmd,
        ).contains_key(id),
        cmd matches ResourceCommand::DestroyTexture { id } ==> !next_textures(
            textures,
            render_buffers,
            cmd,
        ).contains_key(id),
        cmd matches ResourceCommand::DestroyRenderBuffer { id } ==> !next_render_buffers(
            render_buffers,
            cmd,
        ).contains_key(id),
        cmd matches ResourceCommand::DestroyGeometry { id } ==> !next_geometries(
            geometries,
            cmd,
        ).contains_key(id),
{
}

/// Every command of the sequence can be carried out when it is reached,
/// starting from the given resources.
pub open spec fn commands_fault_free(
    textures: Map<u32, TextureRecord>,
    render_buffers: Map<u32, RenderBuffer>,
    geometries: Map<u32, usize>,
    cmds: Seq<ResourceCommand>,
) -> bool
    decreases cmds.len(),
{
    if cmds.len() == 0 {
        true
    } else {
        &&& resource_fault(textures, render_buffers, geometries, cmds[0]) is None
        &&& commands_fault_free(
            next_textures(textures, render_buffers, cmds[0]),
            next_render_buffers(render_buffers, cmds[0]),
            next_geometries(geometries, cmds[0]),
            cmds.drop_first(),
        )
    }
}

/// The textures held after carrying out the commands in order, starting from
/// the given textures and render buffers.
pub open spec fn textures_after(
    textures: Map<u32, TextureRecord>,
    render_buffers: Map<u32, RenderBuffer>,
    cmds: Seq<ResourceCommand>,
) -> Map<u32, TextureRecord>
    decreases cmds.len(),
{
    if cmds.len() == 0 {
        textures
    } else {
        textures_after(
            next_textures(textures, render_buffers, cmds[0]),
            next_render_buffers(render_buffers, cmds[0]),
            cmds.drop_first(),
        )
    }
}

/// Whether the command creates (`Some(true)`) or destroys (`Some(false)`) the
/// texture with the given id; `None` if it does neither.
pub open spec fn texture_event(cmd: ResourceCommand, id: u32) -> Option<bool> {
    match cmd {
        ResourceCommand::CreateTexture { id: t, .. } => if t == id {
            Some(true)
        } else {
            None
        },
        ResourceCommand::DestroyTexture { id: t } => if t == id {
            Some(false)
        } else {
            None
        },
        _ => None,
    }
}

/// Whether the last command of the sequence that creates or destroys the
/// texture with the given id creates it; `None` if no command does either.
pub open spec fn last_texture_event(cmds: Seq<ResourceCommand>, id: u32) -> Option<bool>
    decreases cmds.len(),
{
    if cmds.len() == 0 {
        None
    } else {
        match last_texture_event(cmds.drop_first(), id) {
            Some(b) => Some(b),
            None => texture_event(cmds[0], id),
        }
    }
}

/// After a sequence of resource commands each of which can be carried out
/// when it is reached, a texture is held exactly when the last command that
/// creates or destroys it creates it, or, when no command does either, when
/// it was held at the start. Starting from a driver that holds nothing, the
/// textures held are those whose last such command is a creation.
pub proof fn lemma_textures_held_after_commands(
    textures: Map<u32, TextureRecord>,
    render_buffers: Map<u32, RenderBuffer>,
    geometries: Map<u32, usize>,
    cmds: Seq<ResourceCommand>,
)
    requires
        commands_fault_free(textures, render_buffers, geometries, cmds),
    ensures
        forall|id: u32|
            #[trigger] textures_after(textures, render_buffers, cmds).contains_key(id) == match
            last_texture_event(cmds, id) {
                Some(created) => created,
                None => textures.contains_key(id),
            },
    decreases cmds.len(),
{
    if cmds.len() > 0 {
        let c = cmds[0];
        let nt = next_textures(textures, render_buffers, c);
        let nr = next_render_buffers(render_buffers, c);
        let ng = next_geometries(geometries, c);
        lemma_textures_held_after_commands(nt, nr, ng, cmds.drop_first());
        assert forall|id: u32|
            #[trigger] textures_after(textures, render_buffers, cmds).contains_key(id) == match
            last_texture_event(cmds, id) {
                Some(created) => created,
                None => textures.contains_key(id),
            } by {
            assert(textures_after(textures, render_buffers, cmds) == textures_after(
                nt,
                nr,
                cmds.drop_first(),
            ));
            assert(textures_after(nt, nr, cmds.drop_first()).contains_key(id) == match
            last_texture_event(cmds.drop_first(), id) {
                Some(created) => created,
                None => nt.contains_key(id),
            });
            assert(nt.contains_key(id) == match texture_event(c, id) {
                Some(created) => created,
                None => textures.contains_key(id),
            });
        }
    }
}

/// The parts of a draw command that the driver decides on.
#[derive(Debug, Clone, Copy, PartialEq, Eq)]
pub struct DrawRequest {
    /// The geometry (vertex/index buffer pair) to draw.
    pub geometry_id: u32,
    /// The render buffer to draw into.
    pub render_buffer_id: u32,
    /// The index offset to start drawing from in the index buffer.
    pub indices_offset: u32,
    /// The number of indices to draw.
    pub indices_count: u32,
}

/// What a draw command draws into, once its geometry and render buffer are known.
#[derive(Debug, Clone, Copy, PartialEq, Eq)]
pub struct DrawTarget {
    /// The render buffer drawn into.
    pub render_buffer: RenderBuffer,
    /// The first index drawn.
    pub index_start: u64,
    /// One past the last index drawn.
    pub index_end: u64,
}

/// The fault of a draw command, `None` if there is none.
pub open spec fn draw_target_fault(
    render_buffers: Map<u32, RenderBuffer>,
    geometries: Map<u32, usize>,
    req: DrawRequest,
) -> Option<DriverFault> {
    if !geometries.contains_key(req.geometry_id) {
        Some(DriverFault::MissingGeometry { id: req.geometry_id })
    } else if !render_buffers.contains_key(req.render_buffer_id) {
        Some(DriverFault::MissingRenderBuffer { id: req.render_buffer_id })
    } else if render_buffers[req.render_buffer_id].has_stencil_buffer {
        Some(DriverFault::StencilBufferUnsupported { render_buffer_id: req.render_buffer_id })
    } else if render_buffers[req.render_buffer_id].has_depth_buffer {
        Some(DriverFault::DepthBufferUnsupported { render_buffer_id: req.render_buffer_id })
    } else if req.indices_offset + req.indices_count > geometries[req.geometry_id] {
        Some(
            DriverFault::DrawIndexOutOfRange {
                index_buffer_size: geometries[req.geometry_id],
                draw_index_offset: req.indices_offset,
                draw_index_size: req.indices_count,
            },
        )
    } else {
        None
    }
}

/// The fault of a clear command, `None` if there is none.
pub open spec fn clear_fault(
    textures: Map<u32, TextureRecord>,
    render_buffers: Map<u32, RenderBuffer>,
    render_buffer_id: u32,
) -> Option<DriverFault> {
    if !render_buffers.contains_key(render_buffer_id) {
        Some(DriverFault::MissingRenderBuffer { id: render_buffer_id })
    } else if render_buffers[render_buffer_id].has_stencil_buffer {
        Some(DriverFault::StencilBufferUnsupported { render_buffer_id })
    } else if render_buffers[render_buffer_id].has_depth_buffer {
        Some(DriverFault::DepthBufferUnsupported { render_buffer_id })
    } else if !textures.contains_key(render_buffers[render_buffer_id].texture_id) {
        Some(DriverFault::MissingTexture { id: render_buffers[render_buffer_id].texture_id })
    } else {
        None
    }
}

impl GliumResourceTable {
    /// Decides what a clear command clears: the backing texture of the render buffer.
    pub fn clear_target(&self, render_buffer_id: u32) -> (r: Result<u32, DriverFault>)
        ensures
            match r {
                Ok(texture_id) => clear_fault(
                    self.textures(),
                    self.render_buffers(),
                    render_buffer_id,
                ) is None && texture_id == self.render_buffers()[render_buffer_id].texture_id,
                Err(f) => clear_fault(self.textures(), self.render_buffers(), render_buffer_id)
                    == Some(f),
            },
    {
        match self.render_buffers.get(&render_buffer_id) {
            None => Err(DriverFault::MissingRenderBuffer { id: render_buffer_id }),
            Some(b) => {
                if b.has_stencil_buffer {
                    Err(DriverFault::StencilBufferUnsupported { render_buffer_id })
                } else if b.has_depth_buffer {
                    Err(DriverFault::DepthBufferUnsupported { render_buffer_id })
                } else if !self.textures.contains_key(&b.texture_id) {
                    Err(DriverFault::MissingTexture { id: b.texture_id })
                } else {
                    Ok(b.texture_id)
                }
            },
        }
    }

    /// Decides what a draw command draws into and which indices it draws; the
    /// indices must lie within the geometry's index buffer.
    pub fn draw_target(&self, req: &DrawRequest) -> (r: Result<DrawTarget, DriverFault>)
        ensures
            match r {
                Ok(t) => {
                    &&& draw_target_fault(self.render_buffers(), self.geometries(), *req) is None
                    &&& t.render_buffer == self.render_buffers()[req.render_buffer_id]
                    &&& t.index_start == req.indices_offset
                    &&& t.index_end == req.indices_offset + req.indices_count
                },
                Err(f) => draw_target_fault(self.render_buffers(), self.geometries(), *req)
                    == Some(f),
            },
    {
        let index_count: usize = match self.geometries.get(&req.geometry_id) {
            None => {
                return Err(DriverFault::MissingGeometry { id: req.geometry_id });
            },
            Some(n) => *n,
        };
        match self.render_buffers.get(&req.render_buffer_id) {
            None => Err(DriverFault::MissingRenderBuffer { id: req.render_buffer_id }),
            Some(b) => {
                if b.has_stencil_buffer {
                    Err(
                        DriverFault::StencilBufferUnsupported {
                            render_buffer_id: req.render_buffer_id,
                        },
                    )
                } else if b.has_depth_buffer {
                    Err(
                        DriverFault::DepthBufferUnsupported {
                            render_buffer_id: req.render_buffer_id,
                        },
                    )
                } else if req.indices_offset as u64 + req.indices_count as u64
                    > index_count as u64 {
                    Err(
                        DriverFault::DrawIndexOutOfRange {
                            index_buffer_size: index_count,
                            draw_index_offset: req.indices_offset,
                            draw_index_size: req.indices_count,
                        },
                    )
                } else {
                    Ok(
                        DrawTarget {
                            render_buffer: *b,
                            index_start: req.indices_offset as u64,
                            index_end: req.indices_offset as u64 + req.indices_count as u64,
                        },
                    )
                }
            },
        }
    }

    /// The texture to bind for a texture slot of a draw command: the texture
    /// with the slot's id, or `None` (bind an empty texture) for an unused slot.
    pub fn bound_texture(&self, slot: Option<u32>) -> (r: Result<Option<u32>, DriverFault>)
        ensures
            match slot {
                None => r == Ok::<Option<u32>, DriverFault>(None),
                Some(id) => if self.textures().contains_key(id) {
                    r == Ok::<Option<u32>, DriverFault>(Some(id))
                } else {
                    r == Err::<Option<u32>, DriverFault>(DriverFault::MissingTexture { id })
                },
            },
    {
        match slot {
            None => Ok(None),
            Some(id) => if self.textures.contains_key(&id) {
                Ok(Some(id))
            } else {
                Err(DriverFault::MissingTexture { id })
            },
        }
    }

    /// The texture a draw command draws into: the backing texture of its render buffer.
    pub fn target_texture(&self, render_buffer: &RenderBuffer) -> (r: Result<u32, DriverFault>)
        ensures
            self.textures().contains_key(render_buffer.texture_id) ==> r == Ok::<
                u32,
                DriverFault,
            >(render_buffer.texture_id),
            !self.textures().contains_key(render_buffer.texture_id) ==> r == Err::<
                u32,
                DriverFault,
            >(DriverFault::MissingTexture { id: render_buffer.texture_id }),
    {
        if self.textures.contains_key(&render_buffer.texture_id) {
            Ok(render_buffer.texture_id)
        } else {
            Err(DriverFault::MissingTexture { id: render_buffer.texture_id })
        }
    }
}

/// The region that scissor testing keeps, in the units `glium` takes.
#[derive(Debug, Clone, Copy, PartialEq, Eq)]
pub struct ScissorRegion {
    pub left: u32,
    pub bottom: u32,
    pub width: u32,
    pub height: u32,
}

/// The scissor region of a draw command: the scissor rectangle's left and top
/// edges as the region's left and bottom, its extent as the region's size,
/// each taken as a `u32` as Rust's `as` does. `None` when scissor testing is off.
pub fn scissor_region(enable_scissor: bool, rect: Rect<i32>) -> (r: Result<
    Option<ScissorRegion>,
    DriverFault,
>)
    ensures
        !enable_scissor ==> r == Ok::<Option<ScissorRegion>, DriverFault>(None),
        enable_scissor ==> {
            let w = rect.right - rect.left;
            let h = rect.bottom - rect.top;
            if i32::MIN <= w <= i32::MAX && i32::MIN <= h <= i32::MAX {
                r == Ok::<Option<ScissorRegion>, DriverFault>(
                    Some(
                        ScissorRegion {
                            left: rect.left as u32,
                            bottom: rect.top as u32,
                            width: (w as i32) as u32,
                            height: (h as i32) as u32,
                        },
                    ),
                )
            } else {
                r == Err::<Option<ScissorRegion>, DriverFault>(DriverFault::ScissorOverflow)
            }
        },
{
    if !enable_scissor {
        return Ok(None);
    }
    let w = rect.right as i64 - rect.left as i64;
    let h = rect.bottom as i64 - rect.top as i64;
    if w < i32::MIN as i64 || w > i32::MAX as i64 || h < i32::MIN as i64 || h > i32::MAX as i64 {
        return Err(DriverFault::ScissorOverflow);
    }
    let w32 = w as i32;
    let h32 = h as i32;
    Ok(
        Some(
            ScissorRegion {
                left: rect.left as u32,
                bottom: rect.top as u32,
                width: w32 as u32,
                height: h32 as u32,
            },
        ),
    )
}

/// The pixels of a bitmap whose rows are `stride` bytes apart, with each row
/// cut to its first `row_len` bytes. Rows are taken in `stride`-byte chunks
/// from the start; the last chunk may be shorter.
pub open spec fn unpadded_rows(pixels: Seq<u8>, stride: nat, row_len: nat) -> Seq<u8>
    decreases pixels.len(),
{
    if pixels.len() == 0 || stride == 0 {
        Seq::empty()
    } else if pixels.len() <= stride {
        pixels.take(row_len as int)
    } else {
        pixels.take(row_len as int) + unpadded_rows(pixels.skip(stride as int), stride, row_len)
    }
}

/// Every `stride`-byte chunk of the pixels holds at least `row_len` bytes.
pub open spec fn rows_hold(pixels: Seq<u8>, stride: nat, row_len: nat) -> bool
    decreases pixels.len(),
{
    if pixels.len() == 0 || stride == 0 {
        true
    } else if pixels.len() <= stride {
        row_len <= pixels.len()
    } else {
        row_len <= stride && rows_hold(pixels.skip(stride as int), stride, row_len)
    }
}

/// A buffer of `rows` rows of `stride` bytes each holds rows long enough for
/// any `row_len` up to the stride, and cutting each row to `row_len` bytes
/// leaves exactly `rows * row_len` bytes.
pub proof fn lemma_unpadded_rows_length(pixels: Seq<u8>, stride: nat, row_len: nat, rows: nat)
    requires
        stride > 0,
        row_len <= stride,
        pixels.len() == rows * stride,
    ensures
        rows_hold(pixels, stride, row_len),
        unpadded_rows(pixels, stride, row_len).len() == rows * row_len,
    decreases rows,
{
    if rows == 0 {
        assert(rows * stride == 0 && rows * row_len == 0) by (nonlinear_arith)
            requires
                rows == 0,
        ;
    } else {
        assert(rows * stride == (rows - 1) * stride + stride) by (nonlinear_arith)
            requires
                rows > 0,
        ;
        assert(rows * row_len == (rows - 1) * row_len + row_len) by (nonlinear_arith)
            requires
                rows > 0,
        ;
        if rows == 1 {
            assert(rows * stride == stride && rows * row_len == row_len) by (nonlinear_arith)
                requires
                    rows == 1,
            ;
        } else {
            assert((rows - 1) * stride >= stride) by (nonlinear_arith)
                requires
                    rows > 1,
            ;
            lemma_unpadded_rows_length(pixels.skip(stride as int), stride, row_len, (rows - 1) as nat);
        }
    }
}

/// Cuts the padding off each row of a padded pixel buffer: the buffer is
/// read in chunks of `stride` bytes, and the first `row_len` bytes of each
/// chunk are kept, so an empty buffer gives no bytes. Fails when `stride` is
/// zero (whatever the buffer holds) or a chunk is shorter than `row_len`.
pub fn strip_row_padding(pixels: &[u8], stride: usize, row_len: usize) -> (r: Result<
    Vec<u8>,
    DriverFault,
>)
    ensures
        match r {
            Ok(out) => stride > 0 && rows_hold(pixels@, stride as nat, row_len as nat) && out@
                == unpadded_rows(pixels@, stride as nat, row_len as nat),
            Err(f) => if stride == 0 {
                f == DriverFault::ZeroRowStride
            } else {
                f == DriverFault::ShortRow && !rows_hold(pixels@, stride as nat, row_len as nat)
            },
        },
{
    let mut out: Vec<u8> = Vec::new();
    if stride == 0 {
        return Err(DriverFault::ZeroRowStride);
    }
    let len = pixels.len();
    let mut offset: usize = 0;
    assert(pixels@.skip(0) =~= pixels@);
    while offset < len
        invariant
            len == pixels@.len(),
            stride > 0,
            offset <= len,
            unpadded_rows(pixels@, stride as nat, row_len as nat) == out@ + unpadded_rows(
                pixels@.skip(offset as int),
                stride as nat,
                row_len as nat,
            ),
            rows_hold(pixels@, stride as nat, row_len as nat) == rows_hold(
                pixels@.skip(offset as int),
                stride as nat,
                row_len as nat,
            ),
        decreases len - offset,
    {
        let ghost rest = pixels@.skip(offset as int);
        let remaining = len - offset;
        let chunk_len = if remaining <= stride {
            remaining
        } else {
            stride
        };
        if chunk_len < row_len {
            return Err(DriverFault::ShortRow);
        }
        let ghost before = out@;
        let mut j: usize = 0;
        while j < row_len
            invariant
                j <= row_len,
                row_len <= chunk_len,
                chunk_len <= remaining,
                remaining == len - offset,
                offset < len,
                len == pixels@.len(),
                out@ == before + pixels@.subrange(offset as int, offset + j),
            decreases row_len - j,
        {
            out.push(pixels[offset + j]);
            j = j + 1;
            assert(out@ =~= before + pixels@.subrange(offset as int, offset + j));
        }
        assert(rest.take(row_len as int) =~= pixels@.subrange(offset as int, offset + row_len));
        if remaining <= stride {
            assert(unpadded_rows(rest, stride as nat, row_len as nat) == rest.take(
                row_len as int,
            ));
            assert(pixels@.skip(len as int) =~= Seq::<u8>::empty());
            offset = len;
        } else {
            assert(rest.skip(stride as int) =~= pixels@.skip(offset + stride));
            offset = offset + stride;
        }
    }
    Ok(out)
}

/// How a bitmap is uploaded into a new `glium` texture.
#[derive(Debug, Clone, PartialEq, Eq)]
pub enum TextureUpload {
    /// An empty texture of the given size, to be rendered into.
    Empty { width: u32, height: u32 },
    /// A single channel texture with one byte per pixel.
    Alpha { width: u32, height: u32, pixels: Vec<u8> },
    /// An sRGB texture with four bytes per pixel and no row padding.
    Srgb { width: u32, height: u32, pixels: Vec<u8> },
}

/// Decides how a bitmap is uploaded into a texture: an empty bitmap becomes an
/// empty texture of its size; an alpha bitmap is uploaded as it is; a BGRA
/// bitmap is uploaded with the padding cut off its rows when its rows are not
/// exactly `width * 4` bytes long.
pub fn texture_upload(bitmap: &OwnedBitmap) -> (r: Result<TextureUpload, DriverFault>)
    ensures
        bitmap.spec_is_empty() ==> r == Ok::<TextureUpload, DriverFault>(
            TextureUpload::Empty { width: bitmap.spec_width(), height: bitmap.spec_height() },
        ),
        !bitmap.spec_is_empty() && bitmap.spec_pixels() is None ==> r == Err::<
            TextureUpload,
            DriverFault,
        >(DriverFault::MissingPixels),
        !bitmap.spec_is_empty() && bitmap.spec_pixels() is Some ==> {
            let px = bitmap.spec_pixels()->0;
            let row_len = bitmap.spec_width() * 4;
            let stride = bitmap.spec_row_bytes();
            match bitmap.spec_format() {
                BitmapFormat::A8Unorm => r matches Ok(TextureUpload::Alpha { width, height, pixels })
                    && width == bitmap.spec_width() && height == bitmap.spec_height() && pixels@
                    == px,
                BitmapFormat::Bgra8UnormSrgb => if row_len > u32::MAX {
                    r == Err::<TextureUpload, DriverFault>(DriverFault::RowSizeOverflow)
                } else if stride == row_len {
                    r matches Ok(TextureUpload::Srgb { width, height, pixels }) && width
                        == bitmap.spec_width() && height == bitmap.spec_height() && pixels@ == px
                } else {
                    match r {
                        Ok(TextureUpload::Srgb { width, height, pixels }) => width
                            == bitmap.spec_width() && height == bitmap.spec_height() && stride > 0
                            && rows_hold(px, stride as nat, row_len as nat) && pixels@
                            == unpadded_rows(px, stride as nat, row_len as nat),
                        Ok(_) => false,
                        Err(f) => if stride == 0 {
                            f == DriverFault::ZeroRowStride
                        } else {
                            f == DriverFault::ShortRow && !rows_hold(
                                px,
                                stride as nat,
                                row_len as nat,
                            )
                        },
                    }
                },
            }
        },
        ({
            let stride = bitmap.spec_row_bytes();
            let row_len = bitmap.spec_width() * 4;
            let height = bitmap.spec_height();
            &&& !bitmap.spec_is_empty()
            &&& bitmap.spec_format() == BitmapFormat::Bgra8UnormSrgb
            &&& bitmap.spec_pixels() is Some
            &&& row_len <= stride
            &&& bitmap.spec_pixels()->0.len() == stride * height
        } ==> {
            let row_len = bitmap.spec_width() * 4;
            &&& r matches Ok(TextureUpload::Srgb { pixels, .. })
            &&& pixels@.len() == row_len * bitmap.spec_height()
        }),
{
    let width = bitmap.width();
    let height = bitmap.height();
    if bitmap.is_empty() {
        return Ok(TextureUpload::Empty { width, height });
    }
    let pixels = match bitmap.pixels() {
        Some(p) => p,
        None => {
            return Err(DriverFault::MissingPixels);
        },
    };
    match bitmap.format() {
        BitmapFormat::A8Unorm => Ok(TextureUpload::Alpha { width, height, pixels: vstd::slice::slice_to_vec(pixels) }),
        BitmapFormat::Bgra8UnormSrgb => {
            if width > u32::MAX / 4 {
                return Err(DriverFault::RowSizeOverflow);
            }
            let row_len = width * 4;
            let stride = bitmap.row_bytes();
            if stride != row_len {
                proof {
                    if row_len <= stride && pixels@.len() == stride * height {
                        lemma_unpadded_rows_length(
                            pixels@,
                            stride as nat,
                            row_len as nat,
                            height as nat,
                        );
                        assert(height as nat * row_len as nat == row_len as nat * height as nat)
                            by (nonlinear_arith);
                    }
                }
                let data = strip_row_padding(pixels, stride as usize, row_len as usize)?;
                Ok(TextureUpload::Srgb { width, height, pixels: data })
            } else {
                Ok(TextureUpload::Srgb { width, height, pixels: vstd::slice::slice_to_vec(pixels) })
            }
        },
    }
}

} // verus!
