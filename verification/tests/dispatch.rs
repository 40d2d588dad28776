use window_clipboard::{select_backend, Backend, BackendConfig, HandleKind};

const BOTH: BackendConfig = BackendConfig { wayland: true, x11: true };
const X11_ONLY: BackendConfig = BackendConfig { wayland: false, x11: true };
const WAYLAND_ONLY: BackendConfig = BackendConfig { wayland: true, x11: false };

#[test]
fn wayland_handle_selects_wayland_when_both_compiled() {
    assert_eq!(select_backend(BOTH, HandleKind::Wayland), Backend::Wayland);
}

#[test]
fn x11_handle_selects_x11_when_both_compiled() {
    assert_eq!(select_backend(BOTH, HandleKind::X11), Backend::X11);
}

#[test]
fn other_handle_falls_back_to_x11_when_both_compiled() {
    assert_eq!(select_backend(BOTH, HandleKind::Other), Backend::X11);
}

#[test]
fn every_handle_selects_x11_when_only_x11_compiled() {
    assert_eq!(select_backend(X11_ONLY, HandleKind::Wayland), Backend::X11);
    assert_eq!(select_backend(X11_ONLY, HandleKind::X11), Backend::X11);
    assert_eq!(select_backend(X11_ONLY, HandleKind::Other), Backend::X11);
}

#[test]
fn wayland_handle_selects_wayland_when_only_wayland_compiled() {
    assert_eq!(
        select_backend(WAYLAND_ONLY, HandleKind::Wayland),
        Backend::Wayland
    );
}
