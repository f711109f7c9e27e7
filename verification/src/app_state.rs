//! The editor window's life cycle: the decisions the window's event handler
//! makes, apart from the windowing and GPU work it hands back to its caller.

use vstd::prelude::*;

verus! {

/// Where the editor's window stands: not set up yet, failed for good, or set
/// up with the window and GPU state `S`.
#[derive(Debug)]
pub enum App<S> {
    Initial,
    FatalError(String),
    Setup(S),
}

/// What the event loop is to do when the application is resumed.
#[derive(Clone, Copy, PartialEq, Eq, Structural, Debug)]
pub enum ResumeAction {
    /// Nothing but note that it was already set up.
    NoteAlreadySetup,
    /// Nothing but report the error it is stuck in.
    ReportError,
    /// Create the window and the GPU state.
    SetUp,
}

/// The window events the editor tells apart.
#[derive(Clone, Copy, PartialEq, Eq, Structural, Debug)]
pub enum WindowEventKind {
    CloseRequested,
    RedrawRequested,
    Other,
}

/// What the event loop is to do on a window event.
#[derive(Clone, Copy, PartialEq, Eq, Structural, Debug)]
pub enum WindowAction {
    /// Leave the event loop.
    Exit,
    /// Ask the window to be redrawn.
    RequestRedraw,
    Nothing,
}

pub open spec fn initial_msg() -> Seq<char> {
    "App state is initial not setup"@
}

pub open spec fn errored_msg(err: Seq<char>) -> Seq<char> {
    "App state is fatally errored not setup: "@ + err
}

impl<S> App<S> {
    /// The state the event loop starts in.
    pub fn new() -> (r: App<S>)
        ensures
            r is Initial,
    {
        App::Initial
    }

    /// The set-up state, or why there is none.
    pub fn setup(&self) -> (r: Result<&S, String>)
        ensures
            match self {
                App::Initial => r matches Err(m) && m@ == initial_msg(),
                App::FatalError(err) => r matches Err(m) && m@ == errored_msg(err@),
                App::Setup(s) => r matches Ok(t) && *t == *s,
            },
    {
        match self {
            App::Initial => Err("App state is initial not setup".to_owned()),
            App::FatalError(err) => {
                let mut m = "App state is fatally errored not setup: ".to_owned();
                m.append(err.as_str());
                Err(m)
            },
            App::Setup(state) => Ok(state),
        }
    }

    /// What to do when the application is resumed: only the first state sets up.
    pub fn resumed(&self) -> (r: ResumeAction)
        ensures
            r == match self {
                App::Initial => ResumeAction::SetUp,
                App::FatalError(_) => ResumeAction::ReportError,
                App::Setup(_) => ResumeAction::NoteAlreadySetup,
            },
    {
        match self {
            App::Setup(_) => ResumeAction::NoteAlreadySetup,
            App::FatalError(_) => ResumeAction::ReportError,
            App::Initial => ResumeAction::SetUp,
        }
    }

    /// What to do on a window event. Window events only come once the window
    /// is set up.
    pub fn window_event(&self, event: WindowEventKind) -> (r: WindowAction)
        requires
            self is Setup,
        ensures
            r == match event {
                WindowEventKind::CloseRequested => WindowAction::Exit,
                WindowEventKind::RedrawRequested => WindowAction::RequestRedraw,
                WindowEventKind::Other => WindowAction::Nothing,
            },
    {
        match event {
            WindowEventKind::CloseRequested => WindowAction::Exit,
            WindowEventKind::RedrawRequested => WindowAction::RequestRedraw,
            WindowEventKind::Other => WindowAction::Nothing,
        }
    }
}

} // verus!
