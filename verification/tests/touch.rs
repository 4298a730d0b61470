use unvet::errors::AppError;
use unvet::touch::{checked_screen_size, cursor_move_error, ScreenPoint, TouchBackend};

#[test]
fn disabling_backend_clears_cached_point() {
    let mut backend = TouchBackend::default();
    backend.last_point = Some(ScreenPoint { x: 10, y: 20 });
    backend.set_enabled(false);

    let point = Some(ScreenPoint { x: 960, y: 540 });
    assert_eq!(backend.point_to_send(point), None);
    backend.finish_apply(point, false);

    assert!(backend.last_point.is_none());
}

#[test]
fn touch_moves_only_when_point_changes() {
    let mut backend = TouchBackend::default();
    let p = Some(ScreenPoint { x: 99, y: 0 });
    assert_eq!(backend.point_to_send(p), p);
    backend.finish_apply(p, true);
    assert_eq!(backend.last_point, p);
    assert_eq!(backend.point_to_send(p), None);

    let q = Some(ScreenPoint { x: 98, y: 0 });
    assert_eq!(backend.point_to_send(q), q);
    backend.finish_apply(q, false);
    assert_eq!(backend.last_point, p);
    assert_eq!(backend.point_to_send(q), q);
}

#[test]
fn inactive_frame_forgets_point() {
    let mut backend = TouchBackend::default();
    backend.last_point = Some(ScreenPoint { x: 1, y: 2 });
    assert_eq!(backend.point_to_send(None), None);
    backend.finish_apply(None, true);
    assert!(backend.last_point.is_none());
}

#[test]
fn screen_size_must_be_positive() {
    assert_eq!(checked_screen_size(1920, 1080).ok(), Some((1920, 1080)));
    match checked_screen_size(0, 1080) {
        Err(AppError::InvalidState(m)) => assert_eq!(m, "failed to query screen size for absolute pointer output"),
        other => panic!("unexpected {:?}", other),
    }
    assert!(checked_screen_size(1920, -1).is_err());
    match cursor_move_error() {
        AppError::InvalidState(m) => assert_eq!(m, "failed to set absolute cursor position"),
        other => panic!("unexpected {:?}", other),
    }
}
