use vstd::prelude::*;

use crate::error::Error;
use crate::select::Backend;

verus! {

#[verifier::external_type_specification]
#[verifier::external_body]
pub struct ExWaylandClipboard(clipboard_wayland::Clipboard);

#[verifier::external_type_specification]
#[verifier::external_body]
pub struct ExX11Clipboard(clipboard_x11::Clipboard);

/// Relies on clipboard_x11::Clipboard::connect: opens a session with the
/// running X11 server, or reports why none could be established; the native
/// error is rendered as its message.
#[verifier::external_body]
fn x11_connect() -> (r: Result<clipboard_x11::Clipboard, String>) {
    clipboard_x11::Clipboard::connect().map_err(|e| e.to_string())
}

/// Relies on clipboard_wayland::Clipboard::read: loads the current contents
/// of the Wayland clipboard; the native error is rendered as its message.
#[verifier::external_body]
fn wayland_read(session: &clipboard_wayland::Clipboard) -> (r: Result<String, String>) {
    session.read().map_err(|e| e.to_string())
}

/// Relies on clipboard_wayland::Clipboard::read_primary: loads the current
/// contents of the Wayland primary selection; the native error is rendered
/// as its message.
#[verifier::external_body]
fn wayland_read_primary(session: &clipboard_wayland::Clipboard) -> (r: Result<String, String>) {
    session.read_primary().map_err(|e| e.to_string())
}

/// Relies on clipboard_wayland::Clipboard::write: hands the contents to the
/// Wayland clipboard and, as its source shows, always returns Ok.
#[verifier::external_body]
fn wayland_write(session: &mut clipboard_wayland::Clipboard, contents: String) -> (r: Result<
    (),
    String,
>)
    ensures
        r is Ok,
{
    session.write(contents).map_err(|e| e.to_string())
}

/// Relies on clipboard_wayland::Clipboard::write_primary: hands the contents
/// to the Wayland primary selection and, as its source shows, always returns
/// Ok.
#[verifier::external_body]
fn wayland_write_primary(session: &mut clipboard_wayland::Clipboard, contents: String) -> (r:
    Result<(), String>)
    ensures
        r is Ok,
{
    session.write_primary(contents).map_err(|e| e.to_string())
}

/// Relies on clipboard_x11::Clipboard::read: loads the current contents of
/// the X11 CLIPBOARD selection; the native error is rendered as its message.
#[verifier::external_body]
fn x11_read(session: &clipboard_x11::Clipboard) -> (r: Result<String, String>) {
    session.read().map_err(|e| e.to_string())
}

/// Relies on clipboard_x11::Clipboard::read_primary: loads the current
/// contents of the X11 PRIMARY selection; the native error is rendered as
/// its message.
#[verifier::external_body]
fn x11_read_primary(session: &clipboard_x11::Clipboard) -> (r: Result<String, String>) {
    session.read_primary().map_err(|e| e.to_string())
}

/// Relies on clipboard_x11::Clipboard::write: offers the contents as the X11
/// CLIPBOARD selection; the native error is rendered as its message.
#[verifier::external_body]
fn x11_write(session: &mut clipboard_x11::Clipboard, contents: String) -> (r: Result<(), String>) {
    session.write(contents).map_err(|e| e.to_string())
}

/// Relies on clipboard_x11::Clipboard::write_primary: offers the contents as
/// the X11 PRIMARY selection; the native error is rendered as its message.
#[verifier::external_body]
fn x11_write_primary(session: &mut clipboard_x11::Clipboard, contents: String) -> (r: Result<
    (),
    String,
>) {
    session.write_primary(contents).map_err(|e| e.to_string())
}

/// Normalizes a backend operation outcome into the uniform error kind: a
/// success is passed through unchanged, and a failure message is wrapped in
/// [`Error::Operation`] — never retried, never swallowed.
pub fn into_operation_result<T>(r: Result<T, String>) -> (out: Result<T, Error>)
    ensures
        r matches Ok(v) ==> out matches Ok(w) && w == v,
        r matches Err(m) ==> out matches Err(e) && e == Error::Operation(m),
{
    match r {
        Ok(v) => Ok(v),
        Err(m) => Err(Error::Operation(m)),
    }
}

/// An open clipboard session on one of the two backends.
enum Session {
    Wayland(clipboard_wayland::Clipboard),
    X11(clipboard_x11::Clipboard),
}

/// An owned connection to the clipboard of the selected backend, exposing
/// the four clipboard operations uniformly over either one. Each operation
/// is a direct, synchronous, one-shot forward to the backend library; this
/// layer holds no state beyond the session itself.
pub struct ClipboardConnection {
    session: Session,
}

impl ClipboardConnection {
    /// The backend this connection runs on.
    pub closed spec fn backend(&self) -> Backend {
        match self.session {
            Session::Wayland(_) => Backend::Wayland,
            Session::X11(_) => Backend::X11,
        }
    }

    /// The backend this connection runs on, as a value: the sentinel that
    /// tells which adapter serves the calls.
    pub fn active_backend(&self) -> (backend: Backend)
        ensures
            backend == self.backend(),
    {
        match &self.session {
            Session::Wayland(_) => Backend::Wayland,
            Session::X11(_) => Backend::X11,
        }
    }

    /// Adopts an already-open Wayland session. Opening one takes the raw
    /// display pointer of the windowing handle, so it is the embedder's
    /// step; from there on every call runs through this layer.
    pub fn from_wayland(session: clipboard_wayland::Clipboard) -> (clipboard: ClipboardConnection)
        ensures
            clipboard.backend() is Wayland,
    {
        ClipboardConnection { session: Session::Wayland(session) }
    }

    /// Connects to the running X11 server. A failure to establish the
    /// session surfaces as [`Error::Connection`].
    pub fn connect_x11() -> (r: Result<ClipboardConnection, Error>)
        ensures
            r matches Ok(clipboard) ==> clipboard.backend() is X11,
            r matches Err(e) ==> e is Connection,
    {
        match x11_connect() {
            Ok(session) => Ok(ClipboardConnection { session: Session::X11(session) }),
            Err(m) => Err(Error::Connection(m)),
        }
    }

    /// Reads the current clipboard contents. Whatever the backend reports,
    /// a failure surfaces as [`Error::Operation`].
    pub fn read(&self) -> (r: Result<String, Error>)
        ensures
            r matches Err(e) ==> e is Operation,
    {
        match &self.session {
            Session::Wayland(session) => into_operation_result(wayland_read(session)),
            Session::X11(session) => into_operation_result(x11_read(session)),
        }
    }

    /// Reads the current primary-selection contents. Both built-in backends
    /// support the primary selection, so the result is never None.
    pub fn read_primary(&self) -> (r: Option<Result<String, Error>>)
        ensures
            r is Some,
            r matches Some(inner) && inner matches Err(e) ==> e is Operation,
    {
        match &self.session {
            Session::Wayland(session) => Some(into_operation_result(wayland_read_primary(session))),
            Session::X11(session) => Some(into_operation_result(x11_read_primary(session))),
        }
    }

    /// Sets the clipboard contents. A backend failure surfaces as
    /// [`Error::Operation`]; on the Wayland backend the write itself never
    /// fails. The connection stays on its backend.
    pub fn write(&mut self, contents: String) -> (r: Result<(), Error>)
        ensures
            r matches Err(e) ==> e is Operation,
            old(self).backend() is Wayland ==> r is Ok,
            final(self).backend() == old(self).backend(),
    {
        match &mut self.session {
            Session::Wayland(session) => into_operation_result(wayland_write(session, contents)),
            Session::X11(session) => into_operation_result(x11_write(session, contents)),
        }
    }

    /// Sets the primary-selection contents. Both built-in backends support
    /// the primary selection, so the result is never None; on the Wayland
    /// backend the write itself never fails. The connection stays on its
    /// backend.
    pub fn write_primary(&mut self, contents: String) -> (r: Option<Result<(), Error>>)
        ensures
            r is Some,
            r matches Some(inner) && inner matches Err(e) ==> e is Operation,
            old(self).backend() is Wayland ==> (r matches Some(inner2) && inner2 is Ok),
            final(self).backend() == old(self).backend(),
    {
        match &mut self.session {
            Session::Wayland(session) => Some(
                into_operation_result(wayland_write_primary(session, contents)),
            ),
            Session::X11(session) => Some(
                into_operation_result(x11_write_primary(session, contents)),
            ),
        }
    }
}

} // verus!
