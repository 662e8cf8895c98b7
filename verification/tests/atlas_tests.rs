use voxel_world::texture_atlas::TextureAtlas;
use voxel_world::compute_mip_level;
use voxel_world::InitTextureProvider;

fn filled(len: usize, value: u8) -> Vec<u8> {
    let mut v = Vec::new();
    for _ in 0..len {
        v.push(value);
    }
    v
}

#[test]
fn atlas_capacity_grows_by_powers_of_four() {
    // level = ceil(log4(count)): capacity (2^level)^2 always holds count.
    let expected: &[(u32, u32)] = &[
        (1, 1),
        (2, 2),
        (3, 2),
        (4, 2),
        (5, 4),
        (16, 4),
        (17, 8),
        (64, 8),
        (65, 16),
    ];
    for &(count, tiles) in expected {
        let atlas = TextureAtlas::new(1, count);
        assert_eq!(atlas.textures_per_side(), tiles);
        assert!(tiles * tiles >= count);
        // Minimality: one level down would not hold `count`.
        if count > 1 {
            assert!((tiles / 2) * (tiles / 2) < count);
        }
    }
}

#[test]
fn atlas_zero_count_gets_single_tile() {
    let atlas = TextureAtlas::new(4, 0);
    assert_eq!(atlas.textures_per_side(), 1);
    assert_eq!(atlas.side_length(), 4);
    assert!(atlas.texture_data().iter().all(|&b| b == 0));
    assert_eq!(atlas.texture_data().len(), 4 * 4 * 4);
}

#[test]
fn atlas_uv_round_trip_exact() {
    // Four 16x16 textures in a 2x2 grid: min = (i % 2, i / 2) / 2 and
    // max = min + (1/2, 1/2), exactly.
    let mut atlas = TextureAtlas::new(16, 4);
    let data = filled(16 * 16 * 4, 7);
    for _ in 0..4 {
        atlas.add_texture(&data);
    }
    for i in 0..4u32 {
        let (min, max) = atlas.get_texture_coordinates(i);
        assert_eq!(min.denom, 2);
        assert_eq!(max.denom, 2);
        assert_eq!(min.u_num, i % 2);
        assert_eq!(min.v_num, i / 2);
        assert_eq!(max.u_num, i % 2 + 1);
        assert_eq!(max.v_num, i / 2 + 1);
    }
}

#[test]
fn add_texture_places_tile_bytes() {
    // Two 2x2 textures in a 2x2 grid: the atlas is 4x4 pixels, tile 0 at
    // the top-left corner, tile 1 right of it.
    let mut atlas = TextureAtlas::new(2, 2);
    let first = filled(2 * 2 * 4, 0xAA);
    let second = filled(2 * 2 * 4, 0xBB);
    assert_eq!(atlas.add_texture(&first), 0);
    assert_eq!(atlas.add_texture(&second), 1);
    assert_eq!(atlas.texture_count(), 2);
    let data = atlas.texture_data();
    let side4 = 4 * 4;
    for y in 0..2 {
        for x in 0..8 {
            // Tile 0 occupies bytes 0..8 of rows 0 and 1.
            assert_eq!(data[y * side4 + x], 0xAA);
            // Tile 1 occupies bytes 8..16 of rows 0 and 1.
            assert_eq!(data[y * side4 + 8 + x], 0xBB);
        }
    }
    // Rows 2 and 3 are untouched.
    for y in 2..4 {
        for x in 0..side4 {
            assert_eq!(data[y * side4 + x], 0);
        }
    }
}

#[test]
fn mip_level_averages_each_block() {
    // One 2x2 image whose channel bytes are 0, 4, 6, 10 per channel:
    // the mip pixel is the truncated mean (0 + 4 + 6 + 10) / 4 = 5.
    let mut rgba = Vec::new();
    for value in [0u8, 4, 6, 10] {
        for _ in 0..4 {
            rgba.push(value);
        }
    }
    let (w, h, out) = compute_mip_level(2, 2, rgba);
    assert_eq!((w, h), (1, 1));
    assert_eq!(out, vec![5, 5, 5, 5]);
}

#[test]
fn mip_truncates_toward_zero() {
    // Channel samples 0, 0, 0, 3 average to 3/4, truncated to 0.
    let mut rgba = Vec::new();
    for value in [0u8, 0, 0, 3] {
        for _ in 0..4 {
            rgba.push(value);
        }
    }
    let (_, _, out) = compute_mip_level(2, 2, rgba);
    assert_eq!(out, vec![0, 0, 0, 0]);
}

#[test]
fn mip_uniform_color_is_unchanged_at_every_level() {
    // Box-filtering a uniform-color image keeps the color, level after
    // level, down to one pixel.
    let color = [10u8, 20, 30, 255];
    let mut width = 8u32;
    let mut height = 8u32;
    let mut rgba = Vec::new();
    for _ in 0..(width * height) {
        rgba.extend_from_slice(&color);
    }
    while width > 1 && height > 1 {
        let (w, h, out) = compute_mip_level(width, height, rgba);
        assert_eq!((w, h), (width / 2, height / 2));
        assert_eq!(out.len(), (w * h * 4) as usize);
        for (i, &b) in out.iter().enumerate() {
            assert_eq!(b, color[i % 4]);
        }
        width = w;
        height = h;
        rgba = out;
    }
}

#[test]
fn texture_provider_deduplicates_paths() {
    let mut provider = InitTextureProvider::new();
    let a = provider.texture("assets/textures/blocks/cobblestone.png");
    let b = provider.texture("assets/textures/blocks/dirt.png");
    let a_again = provider.texture("assets/textures/blocks/cobblestone.png");
    assert_eq!(a, 0);
    assert_eq!(b, 1);
    assert_eq!(a_again, a);
    assert_eq!(provider.count(), 2);
    assert_eq!(provider.name_at(0), "assets/textures/blocks/cobblestone.png");
    assert_eq!(provider.name_at(1), "assets/textures/blocks/dirt.png");
}
