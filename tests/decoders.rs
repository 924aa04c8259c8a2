use helix::texture::{
    translate_tile_ci8, translate_tile_i4, translate_tile_i8, translate_tile_ia16,
    translate_tile_ia4, translate_tile_ia8, translate_tile_rgba16, translate_tile_rgba32,
    translate_tlut, G_IM_SIZ_4B, G_TT_IA16, G_TT_RGBA16,
};
use helix::texture_cache::{Texture, TextureManager};

#[test]
fn rgba16_expands_channels() {
    // 0xf801 is red opaque; 0x0842 is (1, 1, 1) transparent
    let out = translate_tile_rgba16(&[0xf8, 0x01, 0x08, 0x42], 2, 1);
    assert_eq!(out, vec![255, 0, 0, 255, 8, 8, 8, 0]);
}

#[test]
fn rgba32_copies() {
    let out = translate_tile_rgba32(&[1, 2, 3, 4, 5, 6, 7, 8], 1, 2);
    assert_eq!(out, vec![1, 2, 3, 4, 5, 6, 7, 8]);
}

#[test]
fn ia4_high_nibble_first() {
    // 0xf1: texel 0 = 0xf (intensity 7, alpha 1), texel 1 = 0x1 (intensity 0, alpha 1)
    let out = translate_tile_ia4(&[0xf1], 2, 1);
    assert_eq!(out, vec![255, 255, 255, 255, 0, 0, 0, 255]);
}

#[test]
fn ia8_splits_nibbles() {
    let out = translate_tile_ia8(&[0x5a], 1, 1);
    assert_eq!(out, vec![0x55, 0x55, 0x55, 0xaa]);
}

#[test]
fn ia16_splits_bytes() {
    let out = translate_tile_ia16(&[0x12, 0x34], 1, 1);
    assert_eq!(out, vec![0x12, 0x12, 0x12, 0x34]);
}

#[test]
fn i4_and_i8() {
    assert_eq!(translate_tile_i4(&[0x3c], 2, 1), vec![0x33, 0x33, 0x33, 0x33, 0xcc, 0xcc, 0xcc, 0xcc]);
    assert_eq!(translate_tile_i8(&[0x7e], 1, 1), vec![0x7e, 0x7e, 0x7e, 0x7e]);
}

#[test]
fn ci8_reads_palette_entry() {
    let mut palette = vec![0u8; 1024];
    palette[4 * 200..4 * 200 + 4].copy_from_slice(&[9, 8, 7, 6]);
    assert_eq!(translate_tile_ci8(&[200], &palette, 1, 1), vec![9, 8, 7, 6]);
}

#[test]
fn tlut_modes() {
    let mut data = vec![0u8; 32];
    data[0] = 0x12;
    data[1] = 0x34;
    let ia = translate_tlut(&data, G_IM_SIZ_4B, G_TT_IA16);
    assert_eq!(ia.len(), 64);
    assert_eq!(&ia[0..4], &[0x12, 0x12, 0x12, 0x34]);
    data[0] = 0xf8;
    data[1] = 0x01;
    let rgba = translate_tlut(&data, G_IM_SIZ_4B, G_TT_RGBA16);
    assert_eq!(&rgba[0..4], &[255, 0, 0, 255]);
    assert_eq!(translate_tlut(&vec![0u8; 512], 1, 0).len(), 1024);
}

#[test]
fn empty_tile_decodes_to_nothing() {
    assert!(translate_tile_rgba16(&[], 0, 5).is_empty());
}

fn tex(address: usize, handle: u32) -> Texture {
    Texture {
        tmem_index: 0,
        address,
        fmt: 0,
        siz: 2,
        handle,
        width: 1,
        height: 1,
        linear_filter: false,
        cms: 0,
        cmt: 0,
    }
}

#[test]
fn cache_lookup_after_insert() {
    let mut cache = TextureManager::new(4);
    cache.insert(tex(16, 1));
    assert_eq!(cache.lookup(0, 16, 0, 2), Some(tex(16, 1)));
    assert_eq!(cache.lookup(0, 16, 0, 3), None);
    assert_eq!(cache.lookup(1, 16, 0, 2), None);
}

#[test]
fn cache_evicts_oldest_at_capacity() {
    let mut cache = TextureManager::new(2);
    cache.insert(tex(1, 1));
    cache.insert(tex(2, 2));
    cache.insert(tex(3, 3));
    assert_eq!(cache.textures.len(), 2);
    assert_eq!(cache.lookup(0, 1, 0, 2), None);
    assert_eq!(cache.lookup(0, 2, 0, 2), Some(tex(2, 2)));
    assert_eq!(cache.lookup(0, 3, 0, 2), Some(tex(3, 3)));
}
