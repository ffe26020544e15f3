use std::collections::VecDeque;
use std::sync::Arc;

use stremio_core_shell::frame::{take_batch, Frame, BYTES_PER_PIXEL, UPDATES_PER_RENDER};
use stremio_core_shell::renderer::{GpuObjects, Renderer};
use stremio_core_shell::staging::{stage, stage_parallel, stage_sequential};

fn surface(w: i32, h: i32) -> Arc<[u8]> {
    let n = (w * h) as usize * BYTES_PER_PIXEL;
    (0..n).map(|i| (i * 7 % 251) as u8).collect::<Vec<u8>>().into()
}

fn frame(x: i32, y: i32, width: i32, height: i32, fw: i32, fh: i32) -> Frame {
    Frame { x, y, width, height, full_width: fw, full_height: fh, buffer: surface(fw, fh) }
}

fn reference(f: &Frame) -> Vec<u8> {
    let mut out = Vec::new();
    let stride = f.full_width as usize * 4;
    for row in 0..f.height as usize {
        let start = (f.y as usize + row) * stride + f.x as usize * 4;
        out.extend_from_slice(&f.buffer[start..start + f.width as usize * 4]);
    }
    out
}

fn objects() -> GpuObjects {
    GpuObjects {
        program: 1,
        front_texture: 2,
        front_uniform: 0,
        back_texture: 3,
        back_uniform: 1,
        vao: 4,
        vbo: 5,
        fbo: 6,
        pbos: [7, 8],
    }
}

#[test]
fn partial_rect_rows() {
    let f = frame(2, 1, 3, 2, 8, 4);
    let mut dst = vec![0xAAu8; 8 * 4 * 4];
    stage_sequential(&f, &mut dst);
    let expected = reference(&f);
    assert_eq!(expected.len(), 3 * 2 * 4);
    assert_eq!(&dst[..expected.len()], &expected[..]);
    assert!(dst[expected.len()..].iter().all(|&b| b == 0xAA));
    // Row 0 starts at (y * full_width + x) * 4 = (8 + 2) * 4.
    assert_eq!(dst[0], f.buffer[40]);
    // Row 1 starts at ((y + 1) * full_width + x) * 4 = (16 + 2) * 4.
    assert_eq!(dst[12], f.buffer[72]);
}

#[test]
fn full_width_rect_is_contiguous() {
    let f = frame(0, 1, 6, 3, 6, 5);
    let mut dst = vec![0u8; 6 * 5 * 4];
    stage_sequential(&f, &mut dst);
    let stride = 6 * 4;
    assert_eq!(&dst[..3 * stride], &f.buffer[stride..4 * stride]);
}

#[test]
fn paths_agree_on_small_rects() {
    for (x, y, w, h) in [(0, 0, 5, 4), (1, 2, 3, 1), (0, 0, 0, 3), (4, 3, 1, 1), (2, 0, 3, 0)] {
        let f = frame(x, y, w, h, 5, 4);
        let mut a = vec![9u8; 5 * 4 * 4];
        let mut b = vec![9u8; 5 * 4 * 4];
        stage_sequential(&f, &mut a);
        stage_parallel(&f, &mut b);
        assert_eq!(a, b);
        assert_eq!(&a[..reference(&f).len()], &reference(&f)[..]);
    }
}

#[test]
fn paths_agree_above_threshold() {
    // 1100 x 1000 pixels: 4.4 MB, above the parallel threshold.
    let f = frame(20, 10, 1100, 1000, 1200, 1020);
    let n = 1200 * 1020 * 4;
    let mut a = vec![1u8; n];
    let mut b = vec![1u8; n];
    let mut c = vec![1u8; n];
    stage_sequential(&f, &mut a);
    stage_parallel(&f, &mut b);
    stage(&f, &mut c);
    assert!(a == b);
    assert!(a == c);
    let expected = reference(&f);
    assert!(a[..expected.len()] == expected[..]);
}

#[test]
fn staging_index_alternates() {
    let mut r = Renderer::new(objects(), (4, 4), 60, "test".to_string());
    let mut picks = Vec::new();
    for i in 0..6 {
        if i == 3 {
            r.resize(6, 2);
        }
        let (w, h) = (r.width, r.height);
        let f = frame(0, 0, w, h, w, h);
        let mut staging = vec![0u8; (w * h) as usize * BYTES_PER_PIXEL];
        let expected = r.next_staging();
        let used = r.paint(&f, &mut staging);
        assert_eq!(used, expected);
        assert_eq!(staging, reference(&f));
        picks.push(used);
    }
    assert_eq!(picks, vec![7, 8, 7, 8, 7, 8]);
    assert_eq!(r.pbo_index, 0);
}

#[test]
fn resize_then_paint() {
    let mut r = Renderer::new(objects(), (4, 4), 60, "test".to_string());
    r.resize(10, 6);
    assert_eq!((r.width, r.height), (10, 6));
    let f = frame(1, 1, 8, 4, 10, 6);
    let mut staging = vec![0u8; 10 * 6 * 4];
    assert_eq!(r.paint(&f, &mut staging), 7);
    let expected = reference(&f);
    assert_eq!(&staging[..expected.len()], &expected[..]);
}

#[test]
fn draw_binds_video_under_overlay() {
    let r = Renderer::new(objects(), (4, 4), 60, "gpu".to_string());
    let d = r.draw();
    assert_eq!(d.program, 1);
    assert_eq!((d.video.unit, d.video.texture, d.video.uniform), (0, 3, 1));
    assert_eq!((d.overlay.unit, d.overlay.texture, d.overlay.uniform), (1, 2, 0));
    assert_eq!(d.vertices, 4);
}

#[test]
fn teardown_twice_hands_over_nothing() {
    let mut r = Renderer::new(objects(), (4, 4), 60, "gpu".to_string());
    let first = r.teardown();
    assert_eq!(first.program, 1);
    assert_eq!(first.pbos, [7, 8]);
    let second = r.teardown();
    assert_eq!(second.program, 0);
    assert_eq!(second.front_texture, 0);
    assert_eq!(second.pbos, [0, 0]);
}

#[test]
fn batch_takes_at_most_eight_in_order() {
    let mut queue: VecDeque<Frame> = (0..11).map(|i| Frame { x: i, ..Frame::default() }).collect();
    let batch = take_batch(&mut queue);
    assert_eq!(batch.len(), UPDATES_PER_RENDER);
    assert_eq!(batch.iter().map(|f| f.x).collect::<Vec<_>>(), (0..8).collect::<Vec<_>>());
    assert_eq!(queue.iter().map(|f| f.x).collect::<Vec<_>>(), vec![8, 9, 10]);
    let batch = take_batch(&mut queue);
    assert_eq!(batch.len(), 3);
    assert!(queue.is_empty());
    assert!(take_batch(&mut queue).is_empty());
}
