use gpu_core::consts;
use gpu_core::{flip_rows, AsyncSaveScreen, BufferId, Error, Gl, GlCommand, Object, SyncId};

#[test]
fn single_request_drains_once_after_fence_signals() {
    let mut gl = Gl::new(false);
    let mut screen = AsyncSaveScreen::new();
    let done = screen.save_screenshot_async(&mut gl, "shot.png", 0, 0, 4, 2).unwrap();
    assert!(done.is_empty());
    assert_eq!(screen.pending_count(), 1);
    for _ in 0..3 {
        assert!(screen.save(&mut gl).is_empty());
        assert_eq!(screen.pending_count(), 1);
    }
    gl.signal(SyncId { name: 2 });
    let done = screen.save(&mut gl);
    assert_eq!(done.len(), 1);
    assert_eq!(done[0].path, "shot.png");
    assert_eq!((done[0].width, done[0].height, done[0].channels), (4, 2, 3));
    assert_eq!(screen.pending_count(), 0);
    assert!(screen.save(&mut gl).is_empty());
}

#[test]
fn request_commands_and_release() {
    let mut gl = Gl::new(false);
    let mut screen = AsyncSaveScreen::new();
    screen.save_screenshot_async(&mut gl, "a.png", 1, 2, 3, 4).unwrap();
    let b = BufferId { name: 1 };
    let s = SyncId { name: 2 };
    let expected = vec![
        GlCommand::Viewport { x: 1, y: 2, width: 3, height: 4 },
        GlCommand::BindFramebuffer { target: consts::READ_FRAMEBUFFER, framebuffer: None },
        GlCommand::Create { object: Object::Buffer(b) },
        GlCommand::BindBuffer { target: consts::PIXEL_PACK_BUFFER, buffer: Some(b) },
        GlCommand::BufferStorage { target: consts::PIXEL_PACK_BUFFER, size: 36, usage: consts::STREAM_READ },
        GlCommand::BindBuffer { target: consts::PIXEL_PACK_BUFFER, buffer: None },
        GlCommand::BindBuffer { target: consts::PIXEL_PACK_BUFFER, buffer: Some(b) },
        GlCommand::ReadPixels { x: 1, y: 2, width: 3, height: 4, format: consts::RGB, data_type: consts::UNSIGNED_BYTE },
        GlCommand::BindBuffer { target: consts::PIXEL_PACK_BUFFER, buffer: None },
        GlCommand::Create { object: Object::Sync(s) },
        GlCommand::Flush,
    ];
    assert_eq!(gl.commands(), &expected);
    gl.signal(s);
    screen.save(&mut gl);
    let n = gl.commands().len();
    assert_eq!(
        &gl.commands()[n - 5..],
        &[
            GlCommand::Delete { object: Object::Sync(s) },
            GlCommand::BindBuffer { target: consts::PIXEL_PACK_BUFFER, buffer: Some(b) },
            GlCommand::GetBufferData { target: consts::PIXEL_PACK_BUFFER, size: 36 },
            GlCommand::BindBuffer { target: consts::PIXEL_PACK_BUFFER, buffer: None },
            GlCommand::Delete { object: Object::Buffer(b) },
        ]
    );
}

#[test]
fn drain_keeps_unsignalled_in_order() {
    let mut gl = Gl::new(false);
    let mut screen = AsyncSaveScreen::new();
    for p in ["0.png", "1.png", "2.png"] {
        screen.save_screenshot_async(&mut gl, p, 0, 0, 1, 1).unwrap();
    }
    gl.signal(SyncId { name: 4 });
    let done = screen.save(&mut gl);
    assert_eq!(done.len(), 1);
    assert_eq!(done[0].path, "1.png");
    assert_eq!(screen.pending_count(), 2);
    gl.signal(SyncId { name: 6 });
    gl.signal(SyncId { name: 2 });
    let done = screen.save(&mut gl);
    let paths: Vec<&str> = done.iter().map(|d| d.path.as_str()).collect();
    assert_eq!(paths, vec!["0.png", "2.png"]);
    assert_eq!(screen.pending_count(), 0);
}

#[test]
fn request_drains_already_signalled_items() {
    let mut gl = Gl::new(false);
    let mut screen = AsyncSaveScreen::new();
    screen.save_screenshot_async(&mut gl, "first.png", 0, 0, 2, 2).unwrap();
    gl.signal(SyncId { name: 2 });
    let done = screen.save_screenshot_async(&mut gl, "second.png", 0, 0, 2, 2).unwrap();
    assert_eq!(done.len(), 1);
    assert_eq!(done[0].path, "first.png");
    assert_eq!(screen.pending_count(), 1);
}

#[test]
fn request_fails_without_names_for_the_fence() {
    let mut gl = Gl::starting_at(false, u32::MAX - 1);
    let mut screen = AsyncSaveScreen::new();
    let r = screen.save_screenshot_async(&mut gl, "x.png", 0, 0, 2, 2);
    assert!(matches!(r, Err(Error::ResourceCreation)));
    assert_eq!(screen.pending_count(), 0);
    assert_eq!(
        gl.commands().last().unwrap(),
        &GlCommand::Delete { object: Object::Buffer(BufferId { name: u32::MAX - 1 }) }
    );
}

#[test]
fn flip_rows_puts_last_row_first() {
    let pixels: Vec<u8> = (0..18).collect();
    let out = flip_rows(&pixels, 2, 3, 3);
    let expected: Vec<u8> = vec![12, 13, 14, 15, 16, 17, 6, 7, 8, 9, 10, 11, 0, 1, 2, 3, 4, 5];
    assert_eq!(out, expected);
    assert!(flip_rows(&[], 4, 0, 3).is_empty());
    assert_eq!(flip_rows(&[1, 2, 3], 1, 1, 3), vec![1, 2, 3]);
}
