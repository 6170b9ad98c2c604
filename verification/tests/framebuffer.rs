use softrender::attachments::{Color, EmptyAttachments, Rgba};
use softrender::error::RenderError;
use softrender::framebuffer::{Framebuffer, RenderBuffer, RgbaTextureBuffer};
use softrender::geometry::Dimensions;
use softrender::texture::TextureRead;

type Buffer = RenderBuffer<Rgba<u8>, i32, u8>;

#[test]
fn empty_render_buffer() {
    let buffer = Buffer::new();
    assert_eq!(buffer.dimensions(), Dimensions::new(0, 0));
    assert_eq!(buffer.get_pixel(0), Err(RenderError::OutOfBounds));
}

#[test]
fn render_buffer_starts_cleared() {
    let buffer = Buffer::with_dimensions(Dimensions::new(3, 2));
    assert_eq!(buffer.dimensions(), Dimensions::new(3, 2));
    for index in 0..6 {
        assert_eq!(buffer.get_pixel(index), Ok(Rgba { data: [0, 0, 0, 0] }));
        assert_eq!(buffer.get_depth_unchecked(index), i32::MIN);
        assert_eq!(buffer.get_stencil_unchecked(index), 0);
    }
    assert_eq!(buffer.get_pixel(6), Err(RenderError::OutOfBounds));
}

#[test]
fn writes_change_one_attachment_of_one_pixel() {
    let mut buffer = Buffer::with_dimensions(Dimensions::new(3, 2));
    let color = Rgba { data: [1, 2, 3, 4] };
    assert_eq!(buffer.set_pixel(4, color), Ok(()));
    buffer.set_depth_unchecked(3, 77);
    buffer.set_stencil_unchecked(2, 9);
    buffer.set_pixel_unchecked(0, color);
    for index in 0..6usize {
        let expected_color = if index == 4 || index == 0 { color } else { Rgba { data: [0, 0, 0, 0] } };
        assert_eq!(buffer.get_pixel_unchecked(index), expected_color);
        assert_eq!(buffer.get_depth_unchecked(index), if index == 3 { 77 } else { i32::MIN });
        assert_eq!(buffer.get_stencil_unchecked(index), if index == 2 { 9 } else { 0 });
    }
}

#[test]
fn checked_write_out_of_bounds_changes_nothing() {
    let mut buffer = Buffer::with_dimensions(Dimensions::new(3, 2));
    assert_eq!(buffer.set_pixel(6, Rgba { data: [1, 2, 3, 4] }), Err(RenderError::OutOfBounds));
    assert_eq!(buffer.set_pixel(usize::MAX, Rgba { data: [1, 2, 3, 4] }), Err(RenderError::OutOfBounds));
    for index in 0..6 {
        assert_eq!(buffer.get_pixel(index), Ok(Rgba { data: [0, 0, 0, 0] }));
    }
}

#[test]
fn clear_resets_depth_and_stencil() {
    let mut buffer = Buffer::with_dimensions(Dimensions::new(4, 4));
    buffer.set_depth_unchecked(5, 3);
    buffer.set_stencil_unchecked(6, 200);
    let color = Rgba { data: [64, 128, 191, 255] };
    buffer.clear(color);
    for index in 0..16 {
        assert_eq!(buffer.get_pixel(index), Ok(color));
        assert_eq!(buffer.get_depth_unchecked(index), i32::MIN);
        assert_eq!(buffer.get_stencil_unchecked(index), 0);
    }
}

#[test]
fn render_buffer_without_attachments() {
    let mut buffer: RenderBuffer<(), (), ()> = RenderBuffer::with_dimensions(Dimensions::new(2, 2));
    buffer.clear(());
    assert_eq!(buffer.get_pixel(3), Ok(()));
    assert_eq!(buffer.get_pixel(4), Err(RenderError::OutOfBounds));
}

fn assert_texture<T: TextureRead>(_: T) {}

#[test]
fn test_texturebuffer_texture() {
    let t = RgbaTextureBuffer::<EmptyAttachments>::new();

    let color = t.color();

    assert_texture(color)
}

#[test]
fn texture_buffer_plane() {
    let mut buffer = RgbaTextureBuffer::<EmptyAttachments>::with_dimensions(Dimensions::new(3, 2));
    let red = Rgba { data: [255, 0, 0, 255] };
    assert_eq!(buffer.set_pixel(4, (red,)), Ok(()));
    assert_eq!(buffer.set_pixel(6, (red,)), Err(RenderError::OutOfBounds));
    assert_eq!(buffer.get_pixel(4), Ok((red,)));
    assert_eq!(buffer.get_pixel(3), Ok((<Rgba<u8> as Color>::empty(),)));
    let plane = buffer.color();
    assert_eq!(plane.dimensions(), Dimensions::new(3, 2));
    assert_eq!(TextureRead::len(&plane), 6);
    assert_eq!(plane.get_pixel_unchecked(4), red);
    assert_eq!(plane.get_pixel_unchecked(5), Rgba { data: [0, 0, 0, 0] });
    // The plane can be read as a slice of colors.
    assert_eq!(plane[4], red);
    assert_eq!(plane.iter().filter(|c| **c == red).count(), 1);
}

#[test]
fn texture_buffer_clear() {
    let mut buffer = RgbaTextureBuffer::<EmptyAttachments>::with_dimensions(Dimensions::new(2, 2));
    let blue = Rgba { data: [0, 0, 255, 255] };
    buffer.clear((blue,));
    for index in 0..4 {
        assert_eq!(buffer.get_pixel(index), Ok((blue,)));
        assert_eq!(buffer.get_depth_unchecked(index), ());
        assert_eq!(buffer.get_stencil_unchecked(index), ());
    }
    assert_eq!(buffer.dimensions(), Dimensions::new(2, 2));
}
