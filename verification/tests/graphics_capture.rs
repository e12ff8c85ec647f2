use omt_obs_plugin::graphics_capture::{pack_rows, BgraCapture, SurfaceAction};

#[test]
fn rows_are_packed_without_padding() {
    let src = [1u8, 2, 3, 4, 9, 9, 5, 6, 7, 8, 9, 9];
    assert_eq!(pack_rows(&src, 6, 1, 2), vec![1, 2, 3, 4, 5, 6, 7, 8]);
    assert_eq!(pack_rows(&src, 6, 1, 0), Vec::<u8>::new());
}

#[test]
fn staging_surface_follows_size() {
    let mut c = BgraCapture::new(true);
    assert!(!c.can_capture(0, 4));
    assert!(c.can_capture(4, 4));
    assert_eq!(c.ensure_size(4, 4), SurfaceAction::Create { destroy_old: false });
    c.surface_created(true);
    assert!(c.has_surface());
    assert_eq!(c.ensure_size(4, 4), SurfaceAction::Keep);
    assert_eq!(c.ensure_size(0, 4), SurfaceAction::Keep);
    assert_eq!(c.ensure_size(8, 4), SurfaceAction::Create { destroy_old: true });
    c.surface_created(false);
    assert_eq!(c.ensure_size(8, 4), SurfaceAction::Create { destroy_old: false });
    c.destroy();
    assert!(!c.can_capture(8, 4));
    assert!(!c.has_surface());
}
