use vstd::prelude::*;

verus! {

/// The screen the engine is on. Overlays carry the screen they return to.
#[derive(Debug)]
pub enum State {
    ConfirmAbort,
    ConfirmRebase,
    Edit,
    Error { message: String, return_state: Box<State> },
    Exiting,
    ExternalEditor(Box<State>),
    ExternalEditorError,
    ExternalEditorFinish(Box<State>),
    Help(Box<State>),
    List,
    ShowCommit,
    VisualMode,
    WindowSizeError(Box<State>),
}

impl State {
    /// An equal copy of the state.
    pub fn duplicate(&self) -> (r: State)
        ensures
            r == *self,
        decreases self,
    {
        match self {
            State::ConfirmAbort => State::ConfirmAbort,
            State::ConfirmRebase => State::ConfirmRebase,
            State::Edit => State::Edit,
            State::Error { message, return_state } => State::Error {
                message: message.clone(),
                return_state: Box::new(return_state.duplicate()),
            },
            State::Exiting => State::Exiting,
            State::ExternalEditor(s) => State::ExternalEditor(Box::new(s.duplicate())),
            State::ExternalEditorError => State::ExternalEditorError,
            State::ExternalEditorFinish(s) => State::ExternalEditorFinish(Box::new(s.duplicate())),
            State::Help(s) => State::Help(Box::new(s.duplicate())),
            State::List => State::List,
            State::ShowCommit => State::ShowCommit,
            State::VisualMode => State::VisualMode,
            State::WindowSizeError(s) => State::WindowSizeError(Box::new(s.duplicate())),
        }
    }
}

/// How the session ended.
#[derive(Clone, Copy, Debug, PartialEq, Eq, Structural)]
pub enum ExitStatus {
    Good,
    FileWriteError,
    StateError,
}

/// One input event, already resolved from the key bindings.
#[derive(Clone, Copy, Debug, PartialEq, Eq, Structural)]
pub enum Input {
    Abort,
    ActionBreak,
    ActionDrop,
    ActionEdit,
    ActionFixup,
    ActionPick,
    ActionReword,
    ActionSquash,
    Backspace,
    Character(char),
    Delete,
    Edit,
    Enter,
    ForceAbort,
    ForceRebase,
    Help,
    MoveCursorDown,
    MoveCursorLeft,
    MoveCursorPageDown,
    MoveCursorPageUp,
    MoveCursorRight,
    MoveCursorUp,
    No,
    /// An event that carries no key.
    Null,
    OpenInEditor,
    /// A key bound to nothing.
    Other,
    Rebase,
    /// The terminal changed size.
    Resize,
    ShowCommit,
    SwapSelectedDown,
    SwapSelectedUp,
    ToggleVisualMode,
    Yes,
}

/// A key was pressed: every event but a resize and an empty event.
pub open spec fn is_key(i: Input) -> bool {
    !(i is Resize || i is Null)
}

} // verus!
