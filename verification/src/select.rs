use vstd::prelude::*;

verus! {

/// Which windowing system a display handle belongs to, as reported by the
/// host windowing layer. Only the Wayland tag steers the selection; every
/// other tag falls through to the X11 backend.
#[derive(Clone, Copy, Debug, PartialEq, Eq, Structural)]
pub enum HandleKind {
    /// The handle carries a Wayland display.
    Wayland,
    /// The handle carries an X11 display.
    X11,
    /// The handle belongs to some other windowing system.
    Other,
}

/// A clipboard backend this layer can drive.
#[derive(Clone, Copy, Debug, PartialEq, Eq, Structural)]
pub enum Backend {
    Wayland,
    X11,
}

/// Which backends the embedding build compiled in. The backend set is fixed
/// and closed: exactly these two exist.
#[derive(Clone, Copy, Debug, PartialEq, Eq, Structural)]
pub struct BackendConfig {
    pub wayland: bool,
    pub x11: bool,
}

/// Whether the compiled-in backends cover a handle of the given kind: either
/// the handle is a Wayland handle and the Wayland backend is compiled in, or
/// the X11 backend is compiled in to serve as the fallback. A build whose
/// configuration covers no handle at all has no business calling into this
/// layer, so [`select_backend`] demands coverage up front.
pub open spec fn spec_covers(config: BackendConfig, kind: HandleKind) -> bool {
    (config.wayland && kind is Wayland) || config.x11
}

/// The backend that serves a handle of the given kind: Wayland exactly when
/// the handle is a Wayland handle and the Wayland backend is compiled in;
/// X11 in every other case. A non-Wayland handle is not matched against X11
/// specifically — "not Wayland" means "try X11".
pub open spec fn spec_select(config: BackendConfig, kind: HandleKind) -> Backend {
    if config.wayland && kind is Wayland {
        Backend::Wayland
    } else {
        Backend::X11
    }
}

/// Picks the backend for a display handle of the given kind.
///
/// The precondition mirrors the build-time rule that at least one backend
/// able to serve the handle must be compiled in: a configuration that covers
/// no backend is rejected when the caller is verified, not at run time.
pub fn select_backend(config: BackendConfig, kind: HandleKind) -> (backend: Backend)
    requires
        spec_covers(config, kind),
    ensures
        backend == spec_select(config, kind),
{
    match kind {
        HandleKind::Wayland => {
            if config.wayland {
                Backend::Wayland
            } else {
                Backend::X11
            }
        },
        _ => Backend::X11,
    }
}

/// Backend exclusivity: with both backends compiled in, a Wayland handle
/// selects the Wayland backend, never X11.
pub proof fn lemma_backend_exclusivity(config: BackendConfig, kind: HandleKind)
    requires
        config.wayland,
        config.x11,
        kind is Wayland,
    ensures
        spec_select(config, kind) is Wayland,
{
}

/// Fallback policy: as long as the X11 backend is compiled in, every handle
/// that is not a Wayland handle selects the X11 backend, whatever other
/// windowing system it belongs to.
pub proof fn lemma_fallback_policy(config: BackendConfig, kind: HandleKind)
    requires
        config.x11,
        kind !is Wayland,
    ensures
        spec_select(config, kind) is X11,
{
}

} // verus!
