use helix::combiner::{
    generate_combiner, translate_pass, CombineParams, ColorCombinerManager, CCMUX_ENVIRONMENT,
    CCMUX_PRIMITIVE, CCMUX_SHADE, CCMUX_TEXEL0, CCMUX_TEXEL0_ALPHA, CCMUX_TEXEL1,
};
use helix::output::GfxCommand;
use helix::rdp::{RdpError, TMEMMapEntry, MAX_VBO_SIZE, RDP};
use helix::render_mode::{
    translate_blend_mode, translate_blend_param_b, translate_depth_compare,
    translate_depth_write, translate_polygon_offset, BlendFactor, CompareFunction, ZMODE_DEC,
    ZMODE_INTER, ZMODE_OPA, ZMODE_XLU,
};
use helix::rsp::StagingVertex;
use helix::texture::{G_IM_FMT_CI, G_IM_FMT_RGBA, G_IM_SIZ_16B, G_IM_SIZ_4B, G_IM_SIZ_8B};

fn vertex(x: i16) -> StagingVertex {
    StagingVertex { x, y: 0, z: 0, s: 0, t: 0, r: 0, g: 0, b: 0, a: 0 }
}

#[test]
fn zmode_table_is_exhaustive() {
    for (z, expected) in [
        (ZMODE_OPA, CompareFunction::Less),
        (ZMODE_INTER, CompareFunction::Less),
        (ZMODE_XLU, CompareFunction::Less),
        (ZMODE_DEC, CompareFunction::LessEqual),
    ] {
        let on = (z << 10) | (1 << 4);
        let off = z << 10;
        assert_eq!(translate_depth_compare(on), Some(expected));
        assert_eq!(translate_depth_compare(off), None);
        assert_eq!(translate_polygon_offset(on), z == ZMODE_DEC);
        assert_eq!(translate_polygon_offset(off), z == ZMODE_DEC);
    }
}

#[test]
fn depth_write_follows_z_upd() {
    assert!(translate_depth_write(1 << 5));
    assert!(!translate_depth_write(!(1 << 5)));
}

#[test]
fn blend_without_force_is_replace() {
    let b = translate_blend_mode(1 << 20);
    assert_eq!(b.color.src_factor, BlendFactor::One);
    assert_eq!(b.color.dst_factor, BlendFactor::Zero);
    assert_eq!(b.alpha, b.color);
}

#[test]
fn blend_forced_on_framebuffer() {
    let force = 1 << 14;
    let mem_color = 1 << 20;
    // source alpha, destination one minus source alpha
    let b = translate_blend_mode(force | mem_color);
    assert_eq!(b.color.src_factor, BlendFactor::SrcAlpha);
    assert_eq!(b.color.dst_factor, BlendFactor::OneMinusSrcAlpha);
    // constant zero source alpha
    let b = translate_blend_mode(force | mem_color | (3 << 24));
    assert_eq!(b.color.src_factor, BlendFactor::Zero);
    // coverage select without coverage times alpha gives one, then zero
    let b = translate_blend_mode(force | mem_color | (1 << 13));
    assert_eq!(b.color.src_factor, BlendFactor::One);
    assert_eq!(b.color.dst_factor, BlendFactor::Zero);
    let b = translate_blend_mode(force | mem_color | (1 << 13) | (1 << 12));
    assert_eq!(b.color.src_factor, BlendFactor::SrcAlpha);
    // destination alpha selector
    let b = translate_blend_mode(force | mem_color | (1 << 16));
    assert_eq!(b.color.dst_factor, BlendFactor::DstAlpha);
}

#[test]
fn destination_factor_table() {
    assert_eq!(translate_blend_param_b(0, BlendFactor::SrcAlpha), BlendFactor::OneMinusSrcAlpha);
    assert_eq!(translate_blend_param_b(0, BlendFactor::One), BlendFactor::Zero);
    assert_eq!(translate_blend_param_b(0, BlendFactor::Zero), BlendFactor::OneMinusSrcAlpha);
    assert_eq!(translate_blend_param_b(1, BlendFactor::One), BlendFactor::DstAlpha);
    assert_eq!(translate_blend_param_b(2, BlendFactor::Zero), BlendFactor::One);
    assert_eq!(translate_blend_param_b(3, BlendFactor::SrcAlpha), BlendFactor::Zero);
}

#[test]
fn combine_word_round_trip() {
    let p = CombineParams::from_u32(0x00fa_c688);
    assert_eq!(p.to_u32(), 0x00fa_c688);
    assert_eq!(p.c0, [0, 1, 2, 3]);
}

#[test]
fn canonical_slots_in_first_seen_order() {
    let (sources, inputs) = translate_pass(
        false,
        &[CCMUX_SHADE, CCMUX_PRIMITIVE, CCMUX_SHADE, CCMUX_TEXEL0],
    );
    assert_eq!(sources, [1, 2, 1, 5]);
    assert_eq!(inputs, [CCMUX_SHADE, CCMUX_PRIMITIVE, 0, 0]);
    let (sources, _) = translate_pass(false, &[CCMUX_TEXEL1, CCMUX_TEXEL0_ALPHA, CCMUX_ENVIRONMENT, 0]);
    assert_eq!(sources, [7, 6, 1, 0]);
    // the alpha pass has no texel-alpha source
    let (sources, inputs) = translate_pass(true, &[6, 3, 4, 3]);
    assert_eq!(sources, [0, 1, 2, 1]);
    assert_eq!(inputs, [3, 4, 0, 0]);
}

#[test]
fn shader_id_keeps_top_byte() {
    let params = CombineParams { c0: [CCMUX_TEXEL0, CCMUX_SHADE, 0, 0], a0: [1, 0, 0, 0] };
    let c = generate_combiner(0xab00_0000, &params, 9);
    assert_eq!(c.shader_id, 0xab00_0000 | 5 | (1 << 3) | (5 << 12));
    assert_eq!(c.shader_program, 9);
    assert_eq!(c.color_inputs, [CCMUX_SHADE, 0, 0, 0]);
}

#[test]
fn distinct_ids_with_same_canonical_form_are_distinct_entries() {
    let mut rdp = RDP::new();
    // shade then primitive, and primitive then shade: both canonicalize to slots 1, 2
    let a: u32 = (CCMUX_SHADE as u32) | (CCMUX_PRIMITIVE as u32) << 3;
    let b: u32 = (CCMUX_PRIMITIVE as u32) | (CCMUX_SHADE as u32) << 3;
    rdp.combine = CombineParams::from_u32(a);
    let ca = rdp.lookup_or_create_color_combiner(a);
    rdp.combine = CombineParams::from_u32(b);
    let cb = rdp.lookup_or_create_color_combiner(b);
    assert_eq!(ca.shader_id, cb.shader_id);
    assert_eq!(rdp.color_combiner_manager.combiners.len(), 2);
    assert_eq!(rdp.color_combiner_manager.lookup_color_combiner(a), Some(ca));
    assert_eq!(rdp.color_combiner_manager.lookup_color_combiner(b), Some(cb));
    // the shared shader was created once
    let creates = rdp
        .output
        .commands
        .iter()
        .filter(|c| matches!(c, GfxCommand::CreateShader(_)))
        .count();
    assert_eq!(creates, 1);
    // a second lookup regenerates nothing
    let again = rdp.lookup_or_create_color_combiner(a);
    assert_eq!(again, ca);
    assert_eq!(rdp.color_combiner_manager.combiners.len(), 2);
}

#[test]
fn empty_manager_has_no_combiner() {
    let m = ColorCombinerManager::new();
    assert_eq!(m.lookup_color_combiner(7), None);
}

#[test]
fn batch_overflow_flushes_once_at_capacity() {
    let mut rdp = RDP::new();
    let total = MAX_VBO_SIZE + 1;
    for i in 0..total {
        rdp.add_triangle(vertex(i as i16), vertex(0), vertex(0));
    }
    let draws: Vec<usize> = rdp
        .output
        .commands
        .iter()
        .filter_map(|c| match c {
            GfxCommand::DrawTriangles { triangle_count, .. } => Some(*triangle_count),
            _ => None,
        })
        .collect();
    assert_eq!(draws, vec![MAX_VBO_SIZE]);
    assert_eq!(rdp.buf_vbo_num_tris, 1);
    assert_eq!(draws.iter().sum::<usize>() + rdp.buf_vbo_num_tris, total);
    assert_eq!(rdp.buf_vbo[0].x, MAX_VBO_SIZE as i16);
    rdp.flush();
    assert_eq!(rdp.output.vertex_batches.len(), 2);
    assert_eq!(rdp.output.vertex_batches[0].len(), 3 * MAX_VBO_SIZE);
}

#[test]
fn flush_of_empty_batch_submits_nothing() {
    let mut rdp = RDP::new();
    rdp.flush();
    assert!(rdp.output.commands.is_empty());
}

fn texture_rdp(fmt: u8, siz: u8) -> RDP {
    let mut rdp = RDP::new();
    rdp.tile_descriptors[0].fmt = fmt;
    rdp.tile_descriptors[0].siz = siz;
    rdp.tile_descriptors[0].lrs = 4; // two texels wide
    rdp.tile_descriptors[0].lrt = 0; // one texel high
    rdp.tmem_map.insert(0, TMEMMapEntry::new(2));
    rdp
}

#[test]
fn repeated_lookups_decode_once() {
    let mem: Vec<u8> = vec![0, 0, 0xf8, 0x01, 0x07, 0xc1];
    let mut rdp = texture_rdp(G_IM_FMT_RGBA, G_IM_SIZ_16B);
    for _ in 0..5 {
        assert_eq!(rdp.import_tile_texture(&mem, 0), Ok(()));
    }
    let uploads = rdp
        .output
        .commands
        .iter()
        .filter(|c| matches!(c, GfxCommand::UploadTexture { .. }))
        .count();
    assert_eq!(uploads, 1);
    assert_eq!(rdp.output.pixel_data.len(), 1);
    assert_eq!(rdp.output.pixel_data[0], vec![255, 0, 0, 255, 0, 255, 0, 255]);
    assert_eq!(rdp.texture_manager.textures.len(), 1);
    assert_eq!(rdp.rendering_state.textures[0].width, 2);
}

#[test]
fn textures_changed_reimports_through_cache() {
    let mem: Vec<u8> = vec![0, 0, 0xf8, 0x01, 0x07, 0xc1];
    let mut rdp = texture_rdp(G_IM_FMT_RGBA, G_IM_SIZ_16B);
    for _ in 0..3 {
        rdp.textures_changed[0] = true;
        rdp.flush_textures(&mem);
        assert!(!rdp.textures_changed[0]);
    }
    assert_eq!(rdp.output.pixel_data.len(), 1);
}

#[test]
fn unsupported_format_binds_placeholder() {
    let mem: Vec<u8> = vec![0; 16];
    let mut rdp = texture_rdp(1, G_IM_SIZ_16B);
    assert_eq!(
        rdp.import_tile_texture(&mem, 0),
        Err(RdpError::UnsupportedTextureFormat { fmt: 1, siz: G_IM_SIZ_16B })
    );
    assert_eq!(rdp.rendering_state.textures[0].width, 1);
    assert_eq!(rdp.output.pixel_data[0], vec![255, 255, 255, 255]);
}

#[test]
fn texture_past_memory_is_reported() {
    let mem: Vec<u8> = vec![0; 4];
    let mut rdp = texture_rdp(G_IM_FMT_RGBA, G_IM_SIZ_16B);
    assert_eq!(rdp.import_tile_texture(&mem, 0), Err(RdpError::TextureOutOfBounds { address: 2 }));
}

#[test]
fn missing_tmem_entry_is_reported() {
    let mem: Vec<u8> = vec![0; 16];
    let mut rdp = texture_rdp(G_IM_FMT_RGBA, G_IM_SIZ_16B);
    assert_eq!(rdp.import_tile_texture(&mem, 1), Err(RdpError::MissingTmemEntry(1)));
}

#[test]
fn tile_past_descriptors_is_reported() {
    let mem: Vec<u8> = vec![0; 16];
    let mut rdp = texture_rdp(G_IM_FMT_RGBA, G_IM_SIZ_16B);
    rdp.texture_state.tile = 7;
    assert_eq!(rdp.import_tile_texture(&mem, 1), Err(RdpError::TileOutOfRange(8)));
}

#[test]
fn oversized_tile_is_reported() {
    let mem: Vec<u8> = vec![0; 16];
    let mut rdp = texture_rdp(G_IM_FMT_RGBA, G_IM_SIZ_16B);
    rdp.tile_descriptors[0].lrs = 0xfffc;
    rdp.tile_descriptors[0].lrt = 0xfffc;
    assert_eq!(
        rdp.import_tile_texture(&mem, 0),
        Err(RdpError::TextureTooLarge { width: 16384, height: 16384 })
    );
}

#[test]
fn indexed_texture_reads_palette_from_complementary_slot() {
    // texels at 0: indices 1 and 0; palette at 8: entry 0 black opaque, entry 1 white opaque
    let mut mem: Vec<u8> = vec![0x10, 0, 0, 0, 0, 0, 0, 0, 0x00, 0x01, 0xff, 0xff];
    mem.resize(8 + 32, 0);
    let mut rdp = RDP::new();
    rdp.tile_descriptors[0].fmt = G_IM_FMT_CI;
    rdp.tile_descriptors[0].siz = G_IM_SIZ_4B;
    rdp.tile_descriptors[0].lrs = 4;
    rdp.tmem_map.insert(0, TMEMMapEntry::new(0));
    rdp.tmem_map.insert(0xffff, TMEMMapEntry::new(8));
    assert_eq!(rdp.import_tile_texture(&mem, 0), Ok(()));
    assert_eq!(rdp.output.pixel_data[0], vec![255, 255, 255, 255, 0, 0, 0, 255]);
}

#[test]
fn mip_mapping_is_downgraded_to_a_warning() {
    let mem: Vec<u8> = vec![0; 16];
    let mut rdp = texture_rdp(G_IM_FMT_RGBA, G_IM_SIZ_8B);
    rdp.other_mode_h = 1 << 16;
    rdp.flush_textures(&mem);
    assert_eq!(rdp.errors, vec![RdpError::MipMappingUnsupported]);
}

#[test]
fn sampler_change_flushes_first() {
    let mut rdp = RDP::new();
    rdp.add_triangle(vertex(1), vertex(2), vertex(3));
    rdp.other_mode_h = 2 << 12; // bilinear
    rdp.flush_textures(&[]);
    assert_eq!(
        rdp.output.commands,
        vec![
            GfxCommand::DrawTriangles { batch: 0, triangle_count: 1 },
            GfxCommand::SetSamplerParameters { slot: 0, linear_filter: true, cms: 0, cmt: 0 },
        ]
    );
    assert!(rdp.rendering_state.textures[0].linear_filter);
}

#[test]
fn state_change_flushes_before_applying() {
    let mut rdp = RDP::new();
    rdp.add_triangle(vertex(1), vertex(2), vertex(3));
    rdp.other_mode_l = (1 << 4) | (3 << 10);
    rdp.update_render_state(1);
    assert_eq!(
        rdp.output.commands,
        vec![
            GfxCommand::DrawTriangles { batch: 0, triangle_count: 1 },
            GfxCommand::SetDepthTest(true),
            GfxCommand::SetDepthCompare(CompareFunction::LessEqual),
            GfxCommand::SetPolygonOffset(true),
        ]
    );
    // nothing left to change: nothing submitted, nothing flushed
    rdp.add_triangle(vertex(1), vertex(2), vertex(3));
    rdp.update_render_state(1);
    assert_eq!(rdp.output.commands.len(), 4);
    assert_eq!(rdp.buf_vbo_num_tris, 1);
}
