use ul_next::gpu_driver::glium::{
    scissor_region, strip_row_padding, texture_upload, DrawRequest, DriverFault,
    GliumResourceTable, ResourceCommand, ScissorRegion, TextureRecord, TextureUpload,
};
use ul_next::gpu_driver::{
    texture_slot, GpuCommandKind, GpuIdGenerator, RenderBuffer, ShaderType, VertexBufferFormat,
};
use ul_next::bitmap::{BitmapFormat, OwnedBitmap};
use ul_next::rect::Rect;

fn rb(texture_id: u32, width: u32, height: u32) -> RenderBuffer {
    RenderBuffer { texture_id, width, height, has_stencil_buffer: false, has_depth_buffer: false }
}

#[test]
fn ids_start_at_one_and_increase() {
    let mut g = GpuIdGenerator::new();
    assert_eq!(g.next_texture_id(), 1);
    assert_eq!(g.next_texture_id(), 2);
    assert_eq!(g.next_render_buffer_id(), 1);
    assert_eq!(g.next_geometry_id(), 1);
    assert_eq!(g.next_geometry_id(), 2);
    assert_eq!(g.next_texture_id(), 3);
    assert!(g.can_hand_out_texture_id());
}

#[test]
fn texture_slot_zero_is_empty() {
    assert_eq!(texture_slot(0), None);
    assert_eq!(texture_slot(7), Some(7));
}

#[test]
fn enum_raw_values() {
    assert_eq!(VertexBufferFormat::from_raw(0), Some(VertexBufferFormat::Format_2f_4ub_2f));
    assert_eq!(VertexBufferFormat::from_raw(1), Some(VertexBufferFormat::Format_2f_4ub_2f_2f_28f));
    assert_eq!(VertexBufferFormat::from_raw(2), None);
    assert_eq!(ShaderType::from_raw(1), Some(ShaderType::FillPath));
    assert_eq!(ShaderType::Fill.to_raw(), 0);
    assert_eq!(ShaderType::from_raw(5), None);
    assert_eq!(GpuCommandKind::from_raw(0), Some(GpuCommandKind::ClearRenderBuffer));
    assert_eq!(GpuCommandKind::from_raw(1), Some(GpuCommandKind::DrawGeometry));
    assert_eq!(GpuCommandKind::from_raw(3), None);
}

#[test]
fn vertex_counts() {
    assert_eq!(VertexBufferFormat::Format_2f_4ub_2f.vertex_size(), 20);
    assert_eq!(VertexBufferFormat::Format_2f_4ub_2f_2f_28f.vertex_size(), 140);
    assert_eq!(VertexBufferFormat::Format_2f_4ub_2f.vertex_count(60), Some(3));
    assert_eq!(VertexBufferFormat::Format_2f_4ub_2f.vertex_count(61), None);
    assert_eq!(VertexBufferFormat::Format_2f_4ub_2f_2f_28f.vertex_count(280), Some(2));
    assert_eq!(VertexBufferFormat::Format_2f_4ub_2f_2f_28f.vertex_count(0), Some(0));
}

#[test]
fn created_texture_is_held_and_destroyed_texture_is_gone() {
    let mut t = GliumResourceTable::new();
    assert_eq!(t.texture(1), None);
    t.apply(&ResourceCommand::CreateTexture { id: 1, width: 4, height: 3 }).unwrap();
    assert_eq!(t.texture(1), Some(TextureRecord { width: 4, height: 3, render_buffer_id: None }));
    t.apply(&ResourceCommand::UpdateTexture { id: 1, width: 5, height: 6 }).unwrap();
    assert_eq!(t.texture(1), Some(TextureRecord { width: 5, height: 6, render_buffer_id: None }));
    t.apply(&ResourceCommand::DestroyTexture { id: 1 }).unwrap();
    assert_eq!(t.texture(1), None);
}

#[test]
fn commands_on_missing_resources_are_faults_and_change_nothing() {
    let mut t = GliumResourceTable::new();
    assert_eq!(
        t.apply(&ResourceCommand::UpdateTexture { id: 2, width: 1, height: 1 }),
        Err(DriverFault::MissingTexture { id: 2 })
    );
    assert_eq!(
        t.apply(&ResourceCommand::DestroyTexture { id: 2 }),
        Err(DriverFault::MissingTexture { id: 2 })
    );
    assert_eq!(
        t.apply(&ResourceCommand::DestroyRenderBuffer { id: 3 }),
        Err(DriverFault::MissingRenderBuffer { id: 3 })
    );
    assert_eq!(
        t.apply(&ResourceCommand::UpdateGeometry { id: 4, index_count: 3 }),
        Err(DriverFault::MissingGeometry { id: 4 })
    );
    assert_eq!(
        t.apply(&ResourceCommand::DestroyGeometry { id: 4 }),
        Err(DriverFault::MissingGeometry { id: 4 })
    );
    assert_eq!(
        t.apply(&ResourceCommand::CreateRenderBuffer { id: 1, render_buffer: rb(9, 1, 1) }),
        Err(DriverFault::MissingTexture { id: 9 })
    );
    assert_eq!(t.texture(9), None);
    assert_eq!(t.render_buffer(1), None);
}

#[test]
fn render_buffer_must_match_its_texture() {
    let mut t = GliumResourceTable::new();
    t.apply(&ResourceCommand::CreateTexture { id: 1, width: 4, height: 3 }).unwrap();
    assert_eq!(
        t.check(&ResourceCommand::CreateRenderBuffer { id: 5, render_buffer: rb(1, 5, 3) }),
        Err(DriverFault::RenderBufferWidthMismatch { render_buffer_id: 5 })
    );
    assert_eq!(
        t.apply(&ResourceCommand::CreateRenderBuffer { id: 5, render_buffer: rb(1, 4, 2) }),
        Err(DriverFault::RenderBufferHeightMismatch { render_buffer_id: 5 })
    );
    assert_eq!(t.texture(1).unwrap().render_buffer_id, None);
}

#[test]
fn render_buffer_links_its_texture_until_destroyed() {
    let mut t = GliumResourceTable::new();
    t.apply(&ResourceCommand::CreateTexture { id: 1, width: 4, height: 3 }).unwrap();
    assert_eq!(
        t.check(&ResourceCommand::CreateRenderBuffer { id: 5, render_buffer: rb(1, 4, 3) }),
        Ok(())
    );
    t.apply(&ResourceCommand::CreateRenderBuffer { id: 5, render_buffer: rb(1, 4, 3) }).unwrap();
    assert_eq!(t.texture(1).unwrap().render_buffer_id, Some(5));
    assert_eq!(t.render_buffer(5), Some(rb(1, 4, 3)));
    t.apply(&ResourceCommand::UpdateTexture { id: 1, width: 4, height: 3 }).unwrap();
    assert_eq!(t.texture(1).unwrap().render_buffer_id, Some(5));
    t.apply(&ResourceCommand::DestroyRenderBuffer { id: 5 }).unwrap();
    assert_eq!(t.render_buffer(5), None);
    assert_eq!(t.texture(1), Some(TextureRecord { width: 4, height: 3, render_buffer_id: None }));
}

#[test]
fn destroying_a_render_buffer_after_its_texture_is_allowed() {
    let mut t = GliumResourceTable::new();
    t.apply(&ResourceCommand::CreateTexture { id: 1, width: 4, height: 3 }).unwrap();
    t.apply(&ResourceCommand::CreateRenderBuffer { id: 5, render_buffer: rb(1, 4, 3) }).unwrap();
    t.apply(&ResourceCommand::DestroyTexture { id: 1 }).unwrap();
    assert_eq!(t.apply(&ResourceCommand::DestroyRenderBuffer { id: 5 }), Ok(()));
    assert_eq!(t.texture(1), None);
}

#[test]
fn geometry_create_update_destroy() {
    let mut t = GliumResourceTable::new();
    t.apply(&ResourceCommand::CreateGeometry { id: 2, index_count: 6 }).unwrap();
    assert_eq!(t.geometry(2), Some(6));
    t.apply(&ResourceCommand::UpdateGeometry { id: 2, index_count: 9 }).unwrap();
    assert_eq!(t.geometry(2), Some(9));
    t.apply(&ResourceCommand::DestroyGeometry { id: 2 }).unwrap();
    assert_eq!(t.geometry(2), None);
}

fn drawing_table() -> GliumResourceTable {
    let mut t = GliumResourceTable::new();
    t.apply(&ResourceCommand::CreateTexture { id: 1, width: 8, height: 8 }).unwrap();
    t.apply(&ResourceCommand::CreateTexture { id: 2, width: 2, height: 2 }).unwrap();
    t.apply(&ResourceCommand::CreateRenderBuffer { id: 3, render_buffer: rb(1, 8, 8) }).unwrap();
    t.apply(&ResourceCommand::CreateGeometry { id: 4, index_count: 12 }).unwrap();
    t
}

#[test]
fn draw_target_of_a_valid_draw() {
    let t = drawing_table();
    let req = DrawRequest { geometry_id: 4, render_buffer_id: 3, indices_offset: 6, indices_count: 6 };
    let target = t.draw_target(&req).unwrap();
    assert_eq!(target.render_buffer, rb(1, 8, 8));
    assert_eq!(target.index_start, 6);
    assert_eq!(target.index_end, 12);
    assert_eq!(t.target_texture(&target.render_buffer), Ok(1));
    assert_eq!(t.bound_texture(Some(2)), Ok(Some(2)));
    assert_eq!(t.bound_texture(None), Ok(None));
    assert_eq!(t.bound_texture(Some(7)), Err(DriverFault::MissingTexture { id: 7 }));
}

#[test]
fn draw_index_range_does_not_overflow() {
    let t = drawing_table();
    let req = DrawRequest {
        geometry_id: 4,
        render_buffer_id: 3,
        indices_offset: u32::MAX,
        indices_count: u32::MAX,
    };
    assert_eq!(
        t.draw_target(&req),
        Err(DriverFault::DrawIndexOutOfRange {
            index_buffer_size: 12,
            draw_index_offset: u32::MAX,
            draw_index_size: u32::MAX,
        })
    );
}

#[test]
fn draw_index_range_must_lie_in_the_index_buffer() {
    let t = drawing_table();
    let whole = DrawRequest { geometry_id: 4, render_buffer_id: 3, indices_offset: 0, indices_count: 12 };
    assert_eq!(t.draw_target(&whole).unwrap().index_end, 12);
    let past = DrawRequest { indices_offset: 7, indices_count: 6, ..whole };
    assert_eq!(
        t.draw_target(&past),
        Err(DriverFault::DrawIndexOutOfRange {
            index_buffer_size: 12,
            draw_index_offset: 7,
            draw_index_size: 6,
        })
    );
}

#[test]
fn draw_faults_in_the_order_checked() {
    let mut t = drawing_table();
    let mut req = DrawRequest { geometry_id: 9, render_buffer_id: 8, indices_offset: 0, indices_count: 1 };
    assert_eq!(t.draw_target(&req), Err(DriverFault::MissingGeometry { id: 9 }));
    req.geometry_id = 4;
    assert_eq!(t.draw_target(&req), Err(DriverFault::MissingRenderBuffer { id: 8 }));
    t.apply(&ResourceCommand::CreateTexture { id: 10, width: 1, height: 1 }).unwrap();
    let stencil = RenderBuffer { has_stencil_buffer: true, ..rb(10, 1, 1) };
    t.apply(&ResourceCommand::CreateRenderBuffer { id: 8, render_buffer: stencil }).unwrap();
    assert_eq!(
        t.draw_target(&req),
        Err(DriverFault::StencilBufferUnsupported { render_buffer_id: 8 })
    );
    let depth = RenderBuffer { has_depth_buffer: true, ..rb(10, 1, 1) };
    t.apply(&ResourceCommand::CreateRenderBuffer { id: 11, render_buffer: depth }).unwrap();
    req.render_buffer_id = 11;
    assert_eq!(t.draw_target(&req), Err(DriverFault::DepthBufferUnsupported { render_buffer_id: 11 }));
}

#[test]
fn clear_target_is_the_backing_texture() {
    let mut t = drawing_table();
    assert_eq!(t.clear_target(3), Ok(1));
    assert_eq!(t.clear_target(7), Err(DriverFault::MissingRenderBuffer { id: 7 }));
    t.apply(&ResourceCommand::DestroyTexture { id: 1 }).unwrap();
    assert_eq!(t.clear_target(3), Err(DriverFault::MissingTexture { id: 1 }));
}

#[test]
fn scissor_region_of_a_rect() {
    assert_eq!(scissor_region(false, Rect { left: 1, top: 2, right: 3, bottom: 4 }), Ok(None));
    assert_eq!(
        scissor_region(true, Rect { left: 10, top: 20, right: 110, bottom: 70 }),
        Ok(Some(ScissorRegion { left: 10, bottom: 20, width: 100, height: 50 }))
    );
    assert_eq!(
        scissor_region(true, Rect { left: -1, top: 0, right: 1, bottom: 0 }),
        Ok(Some(ScissorRegion { left: u32::MAX, bottom: 0, width: 2, height: 0 }))
    );
    assert_eq!(
        scissor_region(true, Rect { left: i32::MIN, top: 0, right: 1, bottom: 0 }),
        Err(DriverFault::ScissorOverflow)
    );
}

#[test]
fn padding_is_cut_off_rows() {
    let px: Vec<u8> = (0..12).collect();
    assert_eq!(strip_row_padding(&px, 6, 4), Ok(vec![0, 1, 2, 3, 6, 7, 8, 9]));
    assert_eq!(strip_row_padding(&px[..10], 6, 4), Ok(vec![0, 1, 2, 3, 6, 7, 8, 9]));
    assert_eq!(strip_row_padding(&px[..9], 6, 4), Err(DriverFault::ShortRow));
    assert_eq!(strip_row_padding(&px, 0, 4), Err(DriverFault::ZeroRowStride));
    assert_eq!(strip_row_padding(&[], 0, 4), Err(DriverFault::ZeroRowStride));
    assert_eq!(strip_row_padding(&[], 6, 4), Ok(vec![]));
}

fn bitmap(format: BitmapFormat, width: u32, row_bytes: u32, pixels: Option<Vec<u8>>, is_empty: bool) -> OwnedBitmap {
    OwnedBitmap::from_bitmap_parts(width, 2, format, 4, row_bytes, 0, pixels, is_empty)
}

#[test]
fn empty_bitmap_uploads_an_empty_texture() {
    let b = bitmap(BitmapFormat::Bgra8UnormSrgb, 3, 12, None, true);
    assert_eq!(texture_upload(&b), Ok(TextureUpload::Empty { width: 3, height: 2 }));
}

#[test]
fn bitmap_upload_cases() {
    let px: Vec<u8> = (0..16).collect();
    let a = bitmap(BitmapFormat::A8Unorm, 8, 8, Some(px.clone()), false);
    assert_eq!(texture_upload(&a), Ok(TextureUpload::Alpha { width: 8, height: 2, pixels: px.clone() }));
    let s = bitmap(BitmapFormat::Bgra8UnormSrgb, 2, 8, Some(px.clone()), false);
    assert_eq!(texture_upload(&s), Ok(TextureUpload::Srgb { width: 2, height: 2, pixels: px.clone() }));
    let padded = bitmap(BitmapFormat::Bgra8UnormSrgb, 1, 8, Some(px.clone()), false);
    assert_eq!(
        texture_upload(&padded),
        Ok(TextureUpload::Srgb { width: 1, height: 2, pixels: vec![0, 1, 2, 3, 8, 9, 10, 11] })
    );
    let missing = bitmap(BitmapFormat::Bgra8UnormSrgb, 1, 8, None, false);
    assert_eq!(texture_upload(&missing), Err(DriverFault::MissingPixels));
    let huge = bitmap(BitmapFormat::Bgra8UnormSrgb, u32::MAX, 8, Some(px.clone()), false);
    assert_eq!(texture_upload(&huge), Err(DriverFault::RowSizeOverflow));
    let short = bitmap(BitmapFormat::Bgra8UnormSrgb, 3, 8, Some(px.clone()), false);
    assert_eq!(texture_upload(&short), Err(DriverFault::ShortRow));
    let zero = bitmap(BitmapFormat::Bgra8UnormSrgb, 1, 0, Some(px), false);
    assert_eq!(texture_upload(&zero), Err(DriverFault::ZeroRowStride));
}

#[test]
fn padded_bitmap_without_pixel_bytes_uploads_no_bytes() {
    let empty_rows = bitmap(BitmapFormat::Bgra8UnormSrgb, 1, 8, Some(vec![]), false);
    assert_eq!(
        texture_upload(&empty_rows),
        Ok(TextureUpload::Srgb { width: 1, height: 2, pixels: vec![] })
    );
    let zero_stride = bitmap(BitmapFormat::Bgra8UnormSrgb, 1, 0, Some(vec![]), false);
    assert_eq!(texture_upload(&zero_stride), Err(DriverFault::ZeroRowStride));
}

#[test]
fn textures_held_follow_the_last_create_or_destroy() {
    let mut t = GliumResourceTable::new();
    let cmds = [
        ResourceCommand::CreateTexture { id: 1, width: 4, height: 4 },
        ResourceCommand::CreateTexture { id: 2, width: 4, height: 4 },
        ResourceCommand::DestroyTexture { id: 1 },
        ResourceCommand::CreateTexture { id: 3, width: 1, height: 1 },
        ResourceCommand::UpdateTexture { id: 2, width: 8, height: 8 },
        ResourceCommand::DestroyTexture { id: 3 },
        ResourceCommand::CreateTexture { id: 1, width: 2, height: 2 },
    ];
    for c in cmds.iter() {
        t.apply(c).unwrap();
    }
    assert!(t.texture(1).is_some());
    assert!(t.texture(2).is_some());
    assert!(t.texture(3).is_none());
    assert!(t.texture(4).is_none());
}
