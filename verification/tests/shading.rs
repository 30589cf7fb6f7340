use shader::color::Color;
use shader::error::ResourceError;
use shader::geometry::{full_screen_quad, PrimitiveMode, QUAD_VERTICES};
use shader::image_source::{texture_from_image, texture_from_parts};
use shader::scalar::{Scalar, Vec2};
use shader::stages::{fragment_shader, texture_aspect_ratio, vertex_shader, App, Uniforms};
use shader::texture::{texel_index_of, TextureResource, MAX_EXTENT};

fn frac(num: i64, den: i64) -> Scalar {
    Scalar::new(num, den).unwrap()
}

fn point(xn: i64, xd: i64, yn: i64, yd: i64) -> Vec2 {
    Vec2::new(frac(xn, xd), frac(yn, yd))
}

/// The colour that marks the texel in column `col` of row `row`.
fn marker(col: u32, row: u32) -> Color {
    Color::new(10 + col as u8, 100 + row as u8, (col * 16 + row) as u8, 200)
}

/// A texture whose texels carry their own position.
fn marked_texture(width: u32, height: u32) -> TextureResource {
    let mut bytes = Vec::new();
    for row in 0..height {
        for col in 0..width {
            let c = marker(col, row);
            bytes.extend_from_slice(&[c.r, c.g, c.b, c.a]);
        }
    }
    TextureResource::new(width, height, bytes).unwrap()
}

/// The clip-space position of the centre of a pixel, rows counted from the top.
fn pixel_center(col: i64, row: i64, width: i64, height: i64) -> Vec2 {
    point(2 * col + 1 - width, width, height - 2 * row - 1, height)
}

#[test]
fn lerp_by_zero_keeps_the_colour() {
    let c = Color::new(12, 34, 56, 78);
    assert_eq!(c.lerp(Color::border(), 0), c);
    assert_eq!(c.lerp(Color::new(1, 2, 3, 4), 0), c);
}

#[test]
fn lerp_by_one_gives_the_target() {
    let c = Color::new(12, 34, 56, 78);
    assert_eq!(c.lerp(Color::border(), 1), Color::new(0, 0, 0, 255));
    assert_eq!(c.lerp(Color::new(1, 2, 3, 4), 1), Color::new(1, 2, 3, 4));
}

#[test]
fn lerp_beyond_one_saturates_at_the_border_colour() {
    let c = Color::new(12, 34, 56, 78);
    assert_eq!(c.lerp(Color::border(), 2), Color::border());
    assert_eq!(c.lerp(Color::border(), 255), Color::border());
    assert_eq!(Color::new(255, 255, 255, 0).lerp(Color::border(), 2), Color::border());
}

#[test]
fn lerp_beyond_one_goes_on_past_the_target() {
    let c = Color::new(10, 200, 100, 0);
    let t = Color::new(100, 150, 100, 200);
    assert_eq!(c.lerp(t, 2), Color::new(190, 100, 100, 255));
    assert_eq!(c.lerp(t, 3), Color::new(255, 50, 100, 255));
    assert_eq!(c.lerp(t, 5), Color::new(255, 0, 100, 255));
}

#[test]
fn border_and_background_colours() {
    assert_eq!(Color::border(), Color::new(0, 0, 0, 255));
    assert_eq!(Color::background(), Color::new(255, 255, 255, 255));
}

#[test]
fn texture_needs_four_bytes_per_texel() {
    assert!(TextureResource::new(2, 2, vec![0; 16]).is_ok());
    assert_eq!(
        TextureResource::new(2, 2, vec![0; 12]).unwrap_err(),
        ResourceError::UnsupportedImageFormat
    );
    assert_eq!(
        TextureResource::new(2, 2, vec![0; 17]).unwrap_err(),
        ResourceError::UnsupportedImageFormat
    );
    assert_eq!(
        TextureResource::new(1, 1, Vec::new()).unwrap_err(),
        ResourceError::UnsupportedImageFormat
    );
}

#[test]
fn texture_refuses_extents_out_of_range() {
    assert_eq!(TextureResource::new(0, 2, Vec::new()).unwrap_err(), ResourceError::UploadFailed);
    assert_eq!(TextureResource::new(2, 0, Vec::new()).unwrap_err(), ResourceError::UploadFailed);
    assert_eq!(
        TextureResource::new(MAX_EXTENT + 1, 1, vec![0; 4 * 65_536]).unwrap_err(),
        ResourceError::UploadFailed
    );
    assert_eq!(
        TextureResource::new(1, 70_000, vec![0; 4 * 70_000]).unwrap_err(),
        ResourceError::UploadFailed
    );
    let widest = TextureResource::new(MAX_EXTENT, 1, vec![7; 4 * 65_535]).unwrap();
    assert_eq!(widest.width(), 65_535);
    assert_eq!(widest.height(), 1);
}

#[test]
fn texels_are_stored_row_by_row_from_the_top() {
    let bytes: Vec<u8> = (0..24).collect();
    let t = TextureResource::new(3, 2, bytes).unwrap();
    assert_eq!(t.width(), 3);
    assert_eq!(t.height(), 2);
    assert_eq!(t.texel(0, 0), Color::new(0, 1, 2, 3));
    assert_eq!(t.texel(2, 0), Color::new(8, 9, 10, 11));
    assert_eq!(t.texel(0, 1), Color::new(12, 13, 14, 15));
    assert_eq!(t.texel(2, 1), Color::new(20, 21, 22, 23));
    assert_eq!(t.pixels(), &(0..24).collect::<Vec<u8>>());
    let size = t.size();
    assert_eq!((size.x.numerator(), size.x.denominator()), (3, 1));
    assert_eq!((size.y.numerator(), size.y.denominator()), (2, 1));
}

#[test]
fn texel_index_is_the_whole_part() {
    assert_eq!(texel_index_of(frac(0, 1), 4), 0);
    assert_eq!(texel_index_of(frac(1, 8), 4), 0);
    assert_eq!(texel_index_of(frac(1, 4), 4), 1);
    assert_eq!(texel_index_of(frac(49, 100), 4), 1);
    assert_eq!(texel_index_of(frac(1, 2), 4), 2);
    assert_eq!(texel_index_of(frac(999, 1000), 4), 3);
    assert_eq!(texel_index_of(frac(2, 3), 3), 2);
    assert_eq!(texel_index_of(frac(1, 3), 3), 1);
    assert_eq!(texel_index_of(frac(5, 7), 1), 0);
}

#[test]
fn texel_index_clamps_to_the_edge() {
    assert_eq!(texel_index_of(frac(-1, 2), 4), 0);
    assert_eq!(texel_index_of(frac(-100, 1), 4), 0);
    assert_eq!(texel_index_of(frac(1, 1), 4), 3);
    assert_eq!(texel_index_of(frac(7, 2), 4), 3);
    assert_eq!(texel_index_of(frac(7, 2), 1), 0);
}

#[test]
fn sampling_takes_the_texel_under_the_position() {
    let t = marked_texture(4, 2);
    assert_eq!(t.sample(point(1, 8, 1, 4)), marker(0, 0));
    assert_eq!(t.sample(point(7, 8, 1, 4)), marker(3, 0));
    assert_eq!(t.sample(point(3, 8, 3, 4)), marker(1, 1));
    assert_eq!(t.sample(point(-1, 1, 2, 1)), marker(0, 1));
    assert_eq!(t.sample(point(2, 1, -1, 1)), marker(3, 0));
}

#[test]
fn texture_aspect_ratio_is_width_over_height() {
    let a = texture_aspect_ratio(&marked_texture(4, 2));
    assert!(a.same(frac(2, 1)));
    let a = texture_aspect_ratio(&marked_texture(3, 5));
    assert!(a.same(frac(3, 5)));
}

#[test]
fn vertex_stage_hands_the_position_on() {
    let uniforms = Uniforms { texture: marked_texture(1, 1), app: App::for_window(8, 8) };
    let vertex = point(-1, 1, 1, 2);
    let out = vertex_shader(&uniforms, vertex);
    assert!(out.clip_position.x.same(frac(-1, 1)));
    assert!(out.clip_position.y.same(frac(1, 2)));
    assert!(out.clip_position.z.same(frac(0, 1)));
    assert!(out.clip_position.w.same(frac(1, 1)));
    assert!(out.interpolant.x.same(vertex.x));
    assert!(out.interpolant.y.same(vertex.y));
}

#[test]
fn wide_texture_in_a_square_window_is_letterboxed() {
    let uniforms = Uniforms { texture: marked_texture(4, 2), app: App::for_window(8, 8) };
    for row in 0..8 {
        for col in 0..8 {
            let c = fragment_shader(&uniforms, pixel_center(col, row, 8, 8));
            if row < 2 || row >= 6 {
                assert_eq!(c, Color::border(), "pixel {col},{row}");
            } else {
                let expected = marker((col / 2) as u32, ((row - 2) / 2) as u32);
                assert_eq!(c, expected, "pixel {col},{row}");
            }
        }
    }
}

#[test]
fn letterbox_strips_take_a_quarter_of_the_height_each() {
    let uniforms = Uniforms { texture: marked_texture(2, 1), app: App::for_window(100, 100) };
    let at = |yn: i64| fragment_shader(&uniforms, point(0, 1, yn, 1000));
    assert_eq!(at(999), Color::border());
    assert_eq!(at(501), Color::border());
    assert_eq!(at(500), Color::border());
    assert_eq!(at(499), marker(1, 0));
    assert_eq!(at(0), marker(1, 0));
    assert_eq!(at(-499), marker(1, 0));
    assert_eq!(at(-500), Color::border());
    assert_eq!(at(-501), Color::border());
    assert_eq!(at(-999), Color::border());
}

#[test]
fn the_first_row_of_the_texture_is_at_the_top() {
    let uniforms = Uniforms { texture: marked_texture(2, 2), app: App::for_window(64, 64) };
    assert_eq!(fragment_shader(&uniforms, point(-1, 2, 1, 2)), marker(0, 0));
    assert_eq!(fragment_shader(&uniforms, point(1, 2, 1, 2)), marker(1, 0));
    assert_eq!(fragment_shader(&uniforms, point(-1, 2, -1, 2)), marker(0, 1));
    assert_eq!(fragment_shader(&uniforms, point(1, 2, -1, 2)), marker(1, 1));
}

#[test]
fn tall_texture_in_a_wide_window_is_pillarboxed() {
    let uniforms = Uniforms { texture: marked_texture(2, 4), app: App::for_window(16, 4) };
    for row in 0..4 {
        for col in 0..16 {
            let c = fragment_shader(&uniforms, pixel_center(col, row, 16, 4));
            if col < 7 || col >= 9 {
                assert_eq!(c, Color::border(), "pixel {col},{row}");
            } else {
                assert_eq!(c, marker((col - 7) as u32, row as u32), "pixel {col},{row}");
            }
        }
    }
}

#[test]
fn matching_aspects_fill_the_window() {
    let uniforms = Uniforms { texture: marked_texture(4, 3), app: App::for_window(8, 6) };
    for row in 0..6 {
        for col in 0..8 {
            let c = fragment_shader(&uniforms, pixel_center(col, row, 8, 6));
            assert_eq!(c, marker((col / 2) as u32, (row / 2) as u32), "pixel {col},{row}");
        }
    }
}

#[test]
fn corners_of_clip_space_are_border() {
    let uniforms = Uniforms { texture: marked_texture(4, 3), app: App::for_window(8, 6) };
    for (x, y) in [(-1, -1), (-1, 1), (1, -1), (1, 1)] {
        assert_eq!(fragment_shader(&uniforms, point(x, 1, y, 1)), Color::border());
    }
}

#[test]
fn a_window_without_height_does_not_stop_the_stage() {
    let uniforms = Uniforms { texture: marked_texture(4, 3), app: App::for_window(800, 0) };
    assert_eq!(fragment_shader(&uniforms, point(0, 1, 0, 1)), marker(2, 1));
    assert_eq!(fragment_shader(&uniforms, point(1, 2, 0, 1)), Color::border());
    let uniforms = Uniforms { texture: marked_texture(4, 3), app: App::for_window(0, 0) };
    assert_eq!(fragment_shader(&uniforms, point(0, 1, 0, 1)), marker(2, 1));
    assert_eq!(fragment_shader(&uniforms, point(0, 1, 1, 2)), Color::border());
}

#[test]
fn a_window_of_a_million_pixels_is_shaded() {
    let uniforms =
        Uniforms { texture: marked_texture(2, 1), app: App::for_window(1_000_000, 500_000) };
    let left = fragment_shader(&uniforms, pixel_center(0, 0, 1_000_000, 500_000));
    assert_eq!(left, marker(0, 0));
    let right = fragment_shader(&uniforms, pixel_center(999_999, 499_999, 1_000_000, 500_000));
    assert_eq!(right, marker(1, 0));
    let uniforms =
        Uniforms { texture: marked_texture(2, 1), app: App::for_window(1_000_000, 1_000_000) };
    let top = fragment_shader(&uniforms, pixel_center(0, 249_999, 1_000_000, 1_000_000));
    assert_eq!(top, Color::border());
    let band = fragment_shader(&uniforms, pixel_center(0, 250_000, 1_000_000, 1_000_000));
    assert_eq!(band, marker(0, 0));
}

#[test]
fn quad_is_two_triangles_over_clip_space() {
    let quad = full_screen_quad();
    assert_eq!(quad.len(), 6);
    assert_eq!(QUAD_VERTICES, 6);
    let expected = [(-1, 1), (-1, -1), (1, -1), (1, -1), (1, 1), (-1, 1)];
    for (v, (x, y)) in quad.iter().zip(expected) {
        assert_eq!((v.x.numerator(), v.x.denominator()), (x, 1));
        assert_eq!((v.y.numerator(), v.y.denominator()), (y, 1));
    }
    assert_eq!(PrimitiveMode::Triangles, PrimitiveMode::Triangles);
}

#[test]
fn rgba_image_becomes_a_texture() {
    let mut buffer = image::RgbaImage::new(3, 2);
    for (col, row, pixel) in buffer.enumerate_pixels_mut() {
        let c = marker(col, row);
        pixel.0 = [c.r, c.g, c.b, c.a];
    }
    let picture = image::DynamicImage::ImageRgba8(buffer);
    let texture = texture_from_image(&picture).unwrap();
    assert_eq!(texture.width(), 3);
    assert_eq!(texture.height(), 2);
    for row in 0..2 {
        for col in 0..3 {
            assert_eq!(texture.texel(col, row), marker(col, row));
        }
    }
}

#[test]
fn image_in_another_layout_is_refused() {
    let rgb = image::DynamicImage::new_rgb8(3, 2);
    assert_eq!(texture_from_image(&rgb).unwrap_err(), ResourceError::UnsupportedImageFormat);
    let luma = image::DynamicImage::new_luma8(3, 2);
    assert_eq!(texture_from_image(&luma).unwrap_err(), ResourceError::UnsupportedImageFormat);
    let deep = image::DynamicImage::new_rgba16(3, 2);
    assert_eq!(texture_from_image(&deep).unwrap_err(), ResourceError::UnsupportedImageFormat);
}

#[test]
fn empty_image_cannot_be_uploaded() {
    let empty = image::DynamicImage::new_rgba8(0, 0);
    assert_eq!(texture_from_image(&empty).unwrap_err(), ResourceError::UploadFailed);
}

#[test]
fn image_with_a_longer_buffer_is_refused() {
    let buffer = image::RgbaImage::from_raw(1, 1, vec![0; 8]).unwrap();
    let picture = image::DynamicImage::ImageRgba8(buffer);
    assert_eq!(texture_from_image(&picture).unwrap_err(), ResourceError::UnsupportedImageFormat);
}

#[test]
fn parts_become_a_texture() {
    assert_eq!(texture_from_parts(None).unwrap_err(), ResourceError::UnsupportedImageFormat);
    let t = texture_from_parts(Some((1, 2, vec![1, 2, 3, 4, 5, 6, 7, 8]))).unwrap();
    assert_eq!(t.texel(0, 1), Color::new(5, 6, 7, 8));
    assert_eq!(
        texture_from_parts(Some((1, 2, vec![1, 2, 3, 4]))).unwrap_err(),
        ResourceError::UnsupportedImageFormat
    );
    assert_eq!(texture_from_parts(Some((0, 2, Vec::new()))).unwrap_err(), ResourceError::UploadFailed);
}
