//! Enumerating and focusing the windows of the running compositor.

use vstd::prelude::*;

pub mod filter;
pub mod payload;
pub mod protocol;
pub mod script;

verus! {

/// One open, user-relevant window.
#[derive(Clone, Debug)]
pub struct WindowInfo {
    /// Backend-assigned handle of the window, opaque to callers.
    pub address: String,
    /// Display caption.
    pub title: String,
    /// Application class of the window.
    pub class: String,
    /// Workspace number, counted from 1.
    pub workspace: i32,
    /// Whether the window has input focus.
    pub focused: bool,
}

/// The mathematical value of a [`WindowInfo`].
pub struct WindowModel {
    pub address: Seq<char>,
    pub title: Seq<char>,
    pub class: Seq<char>,
    pub workspace: int,
    pub focused: bool,
}

impl View for WindowInfo {
    type V = WindowModel;

    open spec fn view(&self) -> WindowModel {
        WindowModel {
            address: self.address@,
            title: self.title@,
            class: self.class@,
            workspace: self.workspace as int,
            focused: self.focused,
        }
    }
}

/// The values of a list of windows, in order.
pub open spec fn window_models(ws: Seq<WindowInfo>) -> Seq<WindowModel> {
    Seq::new(ws.len(), |i: int| ws[i]@)
}

/// The bus call of the protocol that was rejected.
#[derive(Clone, Copy, Debug, PartialEq, Eq, Structural)]
pub enum Stage {
    LoadScript,
    AddMatch,
    Run,
}

/// Why a compositor operation failed.
#[derive(Clone, Copy, Debug, PartialEq, Eq, Structural)]
pub enum CompositorError {
    /// The temporary script file could not be written.
    TempFile,
    /// The scripting service answered the load request with a negative handle.
    ScriptRejected(i32),
    /// A bus call failed.
    BusCall(Stage),
    /// No matching broadcast arrived before the deadline.
    Timeout,
    /// The payload is not a JSON list of windows.
    Payload,
}

impl CompositorError {
    /// A human-readable description of the failure.
    pub fn message(&self) -> (r: String)
        ensures
            r@ == error_text(*self),
    {
        match self {
            CompositorError::TempFile => "Failed to write temp script file".to_owned(),
            CompositorError::ScriptRejected(_) => "KWin returned invalid script ID".to_owned(),
            CompositorError::BusCall(Stage::LoadScript) => "Failed to load KWin script".to_owned(),
            CompositorError::BusCall(Stage::AddMatch) => "Failed to add D-Bus match rule".to_owned(),
            CompositorError::BusCall(Stage::Run) => "Failed to run KWin script".to_owned(),
            CompositorError::Timeout => "No output from KWin script (timeout or no windows)".to_owned(),
            CompositorError::Payload => "Failed to parse KWin window list JSON".to_owned(),
        }
    }
}

/// The text that [`CompositorError::message`] gives for each failure.
pub open spec fn error_text(e: CompositorError) -> Seq<char> {
    match e {
        CompositorError::TempFile => "Failed to write temp script file"@,
        CompositorError::ScriptRejected(_) => "KWin returned invalid script ID"@,
        CompositorError::BusCall(Stage::LoadScript) => "Failed to load KWin script"@,
        CompositorError::BusCall(Stage::AddMatch) => "Failed to add D-Bus match rule"@,
        CompositorError::BusCall(Stage::Run) => "Failed to run KWin script"@,
        CompositorError::Timeout => "No output from KWin script (timeout or no windows)"@,
        CompositorError::Payload => "Failed to parse KWin window list JSON"@,
    }
}

/// The backends that the launcher knows.
#[derive(Clone, Copy, Debug, PartialEq, Eq, Structural)]
pub enum BackendKind {
    /// The scripting service of KWin, reached over the session bus.
    Kwin,
}

/// The name of the session variable whose presence marks a KDE session.
pub const KDE_SESSION_MARKER: &'static str = "KDE_SESSION_VERSION";

/// What the running session tells about itself.
#[derive(Clone, Copy, Debug, PartialEq, Eq, Structural)]
pub struct SessionMarkers {
    /// Whether the KDE session marker is set.
    pub kde_session: bool,
}

/// The backend to try in a session with the given markers.
pub open spec fn candidate_for(markers: SessionMarkers) -> Option<BackendKind> {
    if markers.kde_session {
        Some(BackendKind::Kwin)
    } else {
        None
    }
}

/// Picks the backend whose session marker is present; its liveness probe is
/// still to be made.
pub fn candidate_backend(markers: SessionMarkers) -> (r: Option<BackendKind>)
    ensures
        r == candidate_for(markers),
{
    if markers.kde_session {
        Some(BackendKind::Kwin)
    } else {
        None
    }
}

/// Decides on the backend once the candidate's liveness probe has been made:
/// the candidate where the probe succeeded, none otherwise. That there is no
/// backend is an ordinary answer and no failure.
pub fn select_backend(markers: SessionMarkers, probe_succeeded: bool) -> (r: Option<BackendKind>)
    ensures
        r == if probe_succeeded { candidate_for(markers) } else { None },
        r is Some <==> markers.kde_session && probe_succeeded,
{
    if probe_succeeded {
        candidate_backend(markers)
    } else {
        None
    }
}

/// The human-readable name of a backend.
pub fn backend_name(kind: BackendKind) -> (r: &'static str)
    ensures
        r@ == "KWin"@,
{
    match kind {
        BackendKind::Kwin => "KWin",
    }
}

/// What every compositor backend offers.
pub trait Compositor {
    /// The open, user-relevant windows, in the backend's enumeration order.
    fn list_windows(&self) -> Result<Vec<WindowInfo>, CompositorError>;

    /// Asks the compositor to activate the window with the given identity;
    /// succeeds without effect where no such window exists.
    fn focus_window(&self, window_id: &str) -> Result<(), CompositorError>;

    /// A human-readable name of the backend.
    fn name(&self) -> &'static str;
}

} // verus!
