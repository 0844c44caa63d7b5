use roar_display::boot::boot_image_payload;
use roar_display::frame::{FRAME_BYTES, FrameRenderer};

#[test]
fn new_renderer_is_blank() {
    let r = FrameRenderer::new();
    let buf = r.snapshot();
    assert_eq!(buf.len(), FRAME_BYTES);
    assert!(buf.iter().all(|&b| b == 0));
}

#[test]
fn clear_is_idempotent() {
    let mut r = FrameRenderer::new();
    r.draw_text("Roar 1", 0, 20);
    r.clear();
    let once = r.snapshot();
    r.clear();
    let twice = r.snapshot();
    assert_eq!(once, twice);
    assert!(once.iter().all(|&b| b == 0));
}

#[test]
fn draw_text_changes_buffer() {
    let mut r = FrameRenderer::new();
    r.draw_text("Roar 1", 0, 20);
    let buf = r.snapshot();
    assert_eq!(buf.len(), FRAME_BYTES);
    assert!(buf.iter().any(|&b| b != 0));
}

#[test]
fn draw_image_blits_raw_data() {
    let mut r = FrameRenderer::new();
    // two full rows of set pixels: 2 * 128 / 8 = 32 bytes
    let data = vec![0xffu8; 32];
    r.draw_image(&data);
    let buf = r.snapshot();
    // the first two rows of the frame carry the image data unchanged,
    // the rest stays background
    assert!(buf[..32].iter().all(|&b| b == 0xff));
    assert!(buf[32..].iter().all(|&b| b == 0));
}

#[test]
fn flush_returns_the_drawn_frame() {
    let mut r = FrameRenderer::new();
    r.draw_text("Roar 7", 0, 20);
    let flushed = r.flush();
    assert_eq!(flushed, r.snapshot());
    assert!(flushed.iter().any(|&b| b != 0));
}

#[test]
fn boot_image_payload_strips_header() {
    // an asset of length L yields exactly L - 4 bytes of pixel data
    let mut asset = vec![9u8, 9, 9, 9];
    let body: Vec<u8> = (0..40u8).collect();
    asset.extend_from_slice(&body);
    let payload = boot_image_payload(&asset);
    assert_eq!(payload.len(), asset.len() - 4);
    assert_eq!(payload, body);
}

#[test]
fn boot_image_payload_empty_body() {
    let asset = vec![1u8, 2, 3, 4];
    let payload = boot_image_payload(&asset);
    assert_eq!(payload.len(), 0);
}
