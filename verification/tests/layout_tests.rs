use skyboxer::layout::{face_size, render_face, SkyboxType, MAX_FACE_WIDTH};
use skyboxer::raster::Raster;

fn face_filled(width: u32, height: u32, value: u32) -> Raster<u32> {
    Raster { width, height, pixels: vec![value; (width * height) as usize] }
}

fn numbered(width: u32, height: u32, base: u32) -> Raster<u32> {
    let pixels = (0..width * height).map(|i| base + i).collect();
    Raster { width, height, pixels }
}

fn at(r: &Raster<u32>, x: u32, y: u32) -> u32 {
    r.pixels[(y * r.width + x) as usize]
}

#[test]
fn face_size_is_quarter_of_panorama() {
    assert_eq!(face_size(2048, 10_000), 512);
    assert_eq!(face_size(2050, 10_000), 512);
}

#[test]
fn face_size_is_capped_by_max_width() {
    assert_eq!(face_size(2048, 100), 100);
    assert_eq!(face_size(2048, 0), 0);
}

#[test]
fn face_size_is_capped_at_4096() {
    assert_eq!(face_size(40_000, u32::MAX), MAX_FACE_WIDTH);
    assert_eq!(face_size(40_000, u32::MAX), 4096);
}

#[test]
fn face_size_of_tiny_panorama_is_zero() {
    assert_eq!(face_size(3, 100), 0);
}

#[test]
fn render_face_samples_given_coordinates() {
    // 8 x 2 panorama: faces are 2 x 2.
    let src = numbered(8, 2, 100);
    let coords = vec![(0, 0), (7, 1), (3, 0), (8, 0)];
    let out = render_face(&src, 1000, &coords, 0);
    assert_eq!(out.width, 2);
    assert_eq!(out.height, 2);
    assert_eq!(at(&out, 0, 0), 100);
    assert_eq!(at(&out, 1, 0), 115);
    assert_eq!(at(&out, 0, 1), 103);
    // (8, 0) lies outside the panorama: the pixel keeps the blank value.
    assert_eq!(at(&out, 1, 1), 0);
}

#[test]
fn render_face_out_of_range_rows_stay_blank() {
    let src = numbered(8, 2, 1);
    let coords = vec![(0, 2), (1, 5), (2, 1), (0, 1)];
    let out = render_face(&src, 2, &coords, 99);
    assert_eq!(out.pixels, vec![99, 99, 11, 9]);
}

fn six_faces(w: u32, h: u32) -> Vec<Raster<u32>> {
    (0..6).map(|f| numbered(w, h, (f + 1) * 100)).collect()
}

#[test]
fn bevy_layout_stacks_faces_in_order() {
    let faces = six_faces(2, 2);
    let out = SkyboxType::Bevy.render(&faces, 0);
    assert_eq!(out.width, 2);
    assert_eq!(out.height, 12);
    // rows of faces: +x, -x, +y, -y, +z, -z = faces 2, 3, 4, 5, 0, 1
    let order = [2u32, 3, 4, 5, 0, 1];
    for (row, f) in order.iter().enumerate() {
        let base = (f + 1) * 100;
        for y in 0..2 {
            for x in 0..2 {
                assert_eq!(at(&out, x, row as u32 * 2 + y), base + y * 2 + x);
            }
        }
    }
}

#[test]
fn unity_layout_is_a_cross() {
    let faces = six_faces(2, 2);
    let out = SkyboxType::Unity.render(&faces, 7);
    assert_eq!(out.width, 8);
    assert_eq!(out.height, 6);
    // (column, row, face)
    let cells = [(1u32, 0u32, 4u32), (0, 1, 3), (1, 1, 0), (2, 1, 2), (3, 1, 1), (1, 2, 5)];
    for (c, r, f) in cells.iter() {
        let base = (f + 1) * 100;
        for y in 0..2 {
            for x in 0..2 {
                assert_eq!(at(&out, c * 2 + x, r * 2 + y), base + y * 2 + x);
            }
        }
    }
    // the six empty cells hold the blank pixel
    let empty = [(0u32, 0u32), (2, 0), (3, 0), (0, 2), (2, 2), (3, 2)];
    for (c, r) in empty.iter() {
        for y in 0..2 {
            for x in 0..2 {
                assert_eq!(at(&out, c * 2 + x, r * 2 + y), 7);
            }
        }
    }
}

#[test]
fn both_layouts_show_each_face_once() {
    let faces: Vec<Raster<u32>> = (0..6).map(|f| face_filled(3, 3, f)).collect();
    for layout in [SkyboxType::Bevy, SkyboxType::Unity] {
        let out = layout.render(&faces, 100);
        for f in 0..6u32 {
            let count = out.pixels.iter().filter(|p| **p == f).count();
            assert_eq!(count, 9);
        }
    }
}

#[test]
fn render_of_empty_faces_is_empty() {
    let faces: Vec<Raster<u32>> = (0..6).map(|_| face_filled(0, 0, 0)).collect();
    let out = SkyboxType::Unity.render(&faces, 1);
    assert_eq!(out.width, 0);
    assert_eq!(out.height, 0);
    assert!(out.pixels.is_empty());
}

#[test]
fn format_names() {
    assert_eq!(SkyboxType::from_format("unity"), SkyboxType::Unity);
    assert_eq!(SkyboxType::from_format("bevy"), SkyboxType::Bevy);
    assert_eq!(SkyboxType::from_format("Unity"), SkyboxType::Bevy);
    assert_eq!(SkyboxType::from_format(""), SkyboxType::Bevy);
    assert_eq!(SkyboxType::from_format("unity "), SkyboxType::Bevy);
}
