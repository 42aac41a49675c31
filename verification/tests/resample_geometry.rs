use ai_detector::grid::{
    grid_offset, neighbor_plan, sampling_offsets, src_coord, src_pixel_offset, TARGET_H, TARGET_W,
};

#[test]
fn canonical_size_is_128() {
    assert_eq!(TARGET_W, 128);
    assert_eq!(TARGET_H, 128);
}

#[test]
fn same_size_maps_identically() {
    for x in 0..128 {
        assert_eq!(src_coord(x, 128, 128), x);
    }
}

#[test]
fn halving_samples_every_odd_column() {
    // A 256-wide row downsampled to 128 cells reads source column 2x+1 for
    // destination column x: with alternating 1-pixel columns, every sampled
    // column is an odd one.
    for x in 0..128 {
        assert_eq!(src_coord(x, 256, 128), 2 * x + 1);
    }
}

#[test]
fn mapping_matches_box_center_floor_formula() {
    for src_dim in [1u32, 2, 3, 16, 100, 127, 128, 129, 255, 256, 1000, 4096] {
        for x in 0..128 {
            let scale = src_dim as f64 / 128.0;
            let expected = ((x as f64 + 0.5) * scale).floor() as u32;
            let got = src_coord(x, src_dim, 128);
            assert_eq!(got, expected, "src_dim {src_dim}, x {x}");
            assert!(got < src_dim);
        }
    }
}

#[test]
fn upscaling_repeats_source_pixels() {
    // 16 source columns spread over 128 destination cells: each source
    // column is sampled 8 times.
    for x in 0..128 {
        assert_eq!(src_coord(x, 16, 128), (2 * x + 1) / 16);
    }
}

#[test]
fn other_destination_grids_follow_the_same_formula() {
    // floor(0.5 * 5 / 1) = 2
    assert_eq!(src_coord(0, 5, 1), 2);
    // floor(2.5 * 7 / 5) = 3
    assert_eq!(src_coord(2, 7, 5), 3);
    // floor(9.5 * 3 / 10) = 2
    assert_eq!(src_coord(9, 3, 10), 2);
}

#[test]
fn source_offsets_stay_inside_the_buffer() {
    for (w, h, c) in [(1u32, 1u32, 3u8), (2, 3, 4), (37, 11, 3), (256, 256, 4), (640, 480, 3)] {
        let len = (w as usize) * (h as usize) * (c as usize);
        for y in (0..128).step_by(13) {
            for x in (0..128).step_by(13) {
                let o = src_pixel_offset(x, y, w, h, c, len);
                assert!(o + c as usize <= len);
                let sx = src_coord(x, w, 128) as usize;
                let sy = src_coord(y, h, 128) as usize;
                assert_eq!(o, (sy * w as usize + sx) * c as usize);
            }
        }
    }
}

#[test]
fn sampling_map_agrees_with_per_cell_offsets() {
    for (w, h, c) in [(1u32, 1u32, 4u8), (3, 2, 3), (256, 256, 4), (200, 150, 3)] {
        let len = (w as usize) * (h as usize) * (c as usize);
        let plan = sampling_offsets(w, h, c, len);
        assert_eq!(plan.len(), 16384);
        for y in 0..128 {
            for x in 0..128 {
                let i = (y * 128 + x) as usize;
                assert_eq!(plan[i], src_pixel_offset(x, y, w, h, c, len));
                assert!(plan[i] + c as usize <= len);
            }
        }
    }
}

#[test]
fn grid_offsets_are_row_major() {
    assert_eq!(grid_offset(0, 0), 0);
    assert_eq!(grid_offset(127, 0), 127);
    assert_eq!(grid_offset(0, 1), 128);
    assert_eq!(grid_offset(127, 127), 16383);
}

#[test]
fn corner_cells_have_no_missing_neighbors() {
    let p = neighbor_plan(0, 0);
    assert_eq!(p.idx, 0);
    assert!(p.has_right && p.has_down && !p.interior);
    assert_eq!(p.right, 1);
    assert_eq!(p.down, 128);

    let p = neighbor_plan(127, 127);
    assert_eq!(p.idx, 16383);
    assert!(!p.has_right && !p.has_down && !p.interior);
}

#[test]
fn interior_cells_expose_the_full_window() {
    let p = neighbor_plan(5, 7);
    let idx = 7 * 128 + 5;
    assert!(p.interior);
    assert_eq!(p.idx, idx);
    assert_eq!(p.up_left, idx - 129);
    assert_eq!(p.up, idx - 128);
    assert_eq!(p.up_right, idx - 127);
    assert_eq!(p.left, idx - 1);
    assert_eq!(p.right, idx + 1);
    assert_eq!(p.down_left, idx + 127);
    assert_eq!(p.down, idx + 128);
    assert_eq!(p.down_right, idx + 129);
}

#[test]
fn block_edges_follow_the_8_pixel_grid() {
    for x in 0..128 {
        let p = neighbor_plan(x, 64);
        assert_eq!(p.right_on_block_edge, (x + 1) % 8 == 0, "x {x}");
    }
    for y in 0..128 {
        let p = neighbor_plan(3, y);
        assert_eq!(p.down_on_block_edge, (y + 1) % 8 == 0, "y {y}");
    }
}

#[test]
fn every_exposed_index_is_inside_the_grid() {
    for y in 0..128 {
        for x in 0..128 {
            let p = neighbor_plan(x, y);
            assert!(p.idx < 16384);
            if p.has_right {
                assert!(p.right < 16384);
            }
            if p.has_down {
                assert!(p.down < 16384);
            }
            if p.interior {
                assert!(p.down_right < 16384);
                assert!(p.up_left < p.idx);
            }
        }
    }
}
