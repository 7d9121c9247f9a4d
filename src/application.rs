use vstd::prelude::*;
use vstd::view::View as Viewable;

use crate::action::{is_commit_action, Action};
use crate::confirm_rebase::{ConfirmRebase, Results};
use crate::edit_buffer::{graphemes_of, joined, EditBuffer, EditBufferView};
use crate::line::Line;
use crate::plan::{Plan, PlanView};
use crate::state::{is_key, ExitStatus, Input, State};
use crate::view::{
    body_text, list_footer_text, segment_views, size_error_text, size_ok, text_of, title_text,
    todo_rows, visual_mode_footer_text, help_rows, blank, Segment, View, CONFIRM_SUFFIX,
    CONTINUE_MESSAGE, EDIT_FOOTER, EXITING_MESSAGE, HELP_FOOTER, HELP_HEADER, HELP_HEADER_WIDTH,
    HELP_PADDING, MAIN_PADDING,
};
use crate::scroll::{clamp_top, content_height};

verus! {

pub const REBASE_EMPTY_MESSAGE: &'static str = "Rebase empty";
pub const CONFIRM_ABORT_MESSAGE: &'static str = "Are you sure you want to abort";
/// Steps a page move goes.
pub const PAGE_STEP: usize = 5;

/// Outside work that the current state waits for.
#[derive(Clone, Copy, Debug, PartialEq, Eq, Structural)]
pub enum Work {
    Nothing,
    /// Write the plan out and run the editor on it; report with `editor_finished`.
    RunEditor,
    /// Read the plan back in; report with `plan_reloaded`.
    ReloadPlan,
    /// Load the statistics of the selected commit; report with `commit_stats_loaded`.
    LoadCommitStats,
}

/// The action an input sets, if it is one of the commit-action keys.
pub open spec fn input_action(i: Input) -> Option<Action> {
    match i {
        Input::ActionDrop => Some(Action::Drop),
        Input::ActionEdit => Some(Action::Edit),
        Input::ActionFixup => Some(Action::Fixup),
        Input::ActionPick => Some(Action::Pick),
        Input::ActionReword => Some(Action::Reword),
        Input::ActionSquash => Some(Action::Squash),
        _ => None,
    }
}

pub open spec fn selected_has_commit(p: PlanView) -> bool {
    p.len() > 0 && is_commit_action(p.steps[p.selected].action)
}

pub open spec fn selected_is_exec(p: PlanView) -> bool {
    p.len() > 0 && p.steps[p.selected].action == Action::Exec
}

/// The plan after a cursor move or a swap, the inputs that the list and the
/// visual mode share.
pub open spec fn moved_plan(i: Input, p: PlanView) -> PlanView {
    match i {
        Input::MoveCursorDown => p.moved_down(1),
        Input::MoveCursorUp => p.moved_up(1),
        Input::MoveCursorPageDown => p.moved_down(PAGE_STEP as int),
        Input::MoveCursorPageUp => p.moved_up(PAGE_STEP as int),
        Input::SwapSelectedDown => p.swapped_down(),
        Input::SwapSelectedUp => p.swapped_up(),
        _ => p,
    }
}

/// The state after input `i` on the list.
pub open spec fn list_state_after(i: Input, p: PlanView) -> State {
    match i {
        Input::Help => State::Help(Box::new(State::List)),
        Input::ShowCommit => if selected_has_commit(p) { State::ShowCommit } else { State::List },
        Input::Abort => State::ConfirmAbort,
        Input::ForceAbort => State::Exiting,
        Input::Rebase => State::ConfirmRebase,
        Input::ForceRebase => State::Exiting,
        Input::Edit => if selected_is_exec(p) { State::Edit } else { State::List },
        Input::ToggleVisualMode => if p.len() > 0 { State::VisualMode } else { State::List },
        Input::OpenInEditor => State::ExternalEditor(Box::new(State::List)),
        _ => State::List,
    }
}

/// The plan after input `i` on the list; `auto` moves the selection down
/// after an action key.
pub open spec fn list_plan_after(i: Input, p: PlanView, auto: bool) -> PlanView {
    let q = p.range_cleared();
    match i {
        Input::ForceAbort => PlanView { steps: Seq::empty(), selected: 0, anchor: None },
        Input::ActionBreak => q.break_toggled(),
        Input::ToggleVisualMode => if q.len() > 0 { q.range_started() } else { q },
        _ => match input_action(i) {
            Some(a) => if auto {
                q.with_range_action(a).moved_down(1)
            } else {
                q.with_range_action(a)
            },
            None => moved_plan(i, q),
        },
    }
}

pub open spec fn visual_state_after(i: Input) -> State {
    match i {
        Input::ToggleVisualMode => State::List,
        Input::Help => State::Help(Box::new(State::VisualMode)),
        _ => State::VisualMode,
    }
}

/// The plan after input `i` in visual mode: actions and swaps take the
/// whole range.
pub open spec fn visual_plan_after(i: Input, p: PlanView) -> PlanView {
    match i {
        Input::ToggleVisualMode => p.range_cleared(),
        _ => match input_action(i) {
            Some(a) => p.with_range_action(a),
            None => moved_plan(i, p),
        },
    }
}

/// The buffer after input `i` on the edit screen.
pub open spec fn edit_after(i: Input, e: EditBufferView) -> EditBufferView {
    match i {
        Input::Character(c) => EditBufferView {
            content: e.content.insert(e.cursor, seq![c]),
            cursor: e.cursor + 1,
        },
        Input::Backspace => if e.cursor > 0 {
            EditBufferView { content: e.content.remove(e.cursor - 1), cursor: e.cursor - 1 }
        } else {
            e
        },
        Input::Delete => if e.cursor < e.content.len() {
            EditBufferView { content: e.content.remove(e.cursor), cursor: e.cursor }
        } else {
            e
        },
        Input::MoveCursorLeft => EditBufferView {
            content: e.content,
            cursor: if e.cursor > 0 { e.cursor - 1 } else { 0 },
        },
        Input::MoveCursorRight => EditBufferView {
            content: e.content,
            cursor: if e.cursor < e.content.len() { e.cursor + 1 } else { e.cursor },
        },
        _ => e,
    }
}

/// The exit status once the editor could not be run: a plan left empty
/// ends well, any other is an error.
pub open spec fn editor_error_status(p: PlanView) -> ExitStatus {
    if p.len() == 0 { ExitStatus::Good } else { ExitStatus::StateError }
}

/// The inputs that scroll the help and commit views.
pub open spec fn is_scroll(i: Input) -> bool {
    i is MoveCursorDown || i is MoveCursorUp
}

/// The plan left after the session is aborted.
pub open spec fn empty_plan() -> PlanView {
    PlanView { steps: Seq::empty(), selected: 0, anchor: None }
}

/// The state after input `i` on state `s` over plan `p`.
pub open spec fn state_after(s: State, i: Input, p: PlanView) -> State {
    match s {
        State::List => list_state_after(i, p),
        State::VisualMode => visual_state_after(i),
        State::Edit => if i is Enter { State::List } else { State::Edit },
        State::ConfirmAbort => if i is Yes {
            State::Exiting
        } else if is_key(i) {
            State::List
        } else {
            s
        },
        State::ConfirmRebase => if i is Yes {
            State::Exiting
        } else if is_key(i) {
            State::List
        } else {
            s
        },
        State::ShowCommit => if is_key(i) && !is_scroll(i) { State::List } else { s },
        State::Help(ret) => if is_key(i) && !is_scroll(i) { *ret } else { s },
        State::Error { return_state, .. } => if is_key(i) { *return_state } else { s },
        State::ExternalEditorError => if is_key(i) { State::Exiting } else { s },
        _ => s,
    }
}

/// The plan after input `i` on state `s`; `e` is the edit buffer and `auto`
/// moves the selection down after an action key on the list.
pub open spec fn plan_after(s: State, i: Input, p: PlanView, auto: bool, e: EditBufferView) -> PlanView {
    match s {
        State::List => list_plan_after(i, p, auto),
        State::VisualMode => visual_plan_after(i, p),
        State::Edit => if i is Enter { p.command_edited(joined(e.content)) } else { p },
        State::ConfirmAbort => if i is Yes { empty_plan() } else { p },
        _ => p,
    }
}

/// The exit status after input `i` on state `s`.
pub open spec fn exit_after(s: State, i: Input, p: PlanView, exit: Option<ExitStatus>) -> Option<
    ExitStatus,
> {
    match s {
        State::List => if i is ForceAbort || i is ForceRebase { Some(ExitStatus::Good) } else { exit },
        State::ConfirmAbort => if i is Yes { Some(ExitStatus::Good) } else { exit },
        State::ConfirmRebase => if i is Yes { Some(ExitStatus::Good) } else { exit },
        State::ExternalEditorError => if is_key(i) { Some(editor_error_status(p)) } else { exit },
        _ => exit,
    }
}

/// The edit buffer after input `i` on state `s`: seeded from the selected
/// `Exec` step when the list opens the edit screen, edited on that screen.
pub open spec fn edit_buffer_after(s: State, i: Input, p: PlanView, e: EditBufferView) -> EditBufferView {
    match s {
        State::List => if i is Edit && selected_is_exec(p) {
            EditBufferView {
                content: graphemes_of(p.steps[p.selected].command),
                cursor: graphemes_of(p.steps[p.selected].command).len() as int,
            }
        } else {
            e
        },
        State::Edit => edit_after(i, e),
        _ => e,
    }
}

/// `s` shows the error `message` and then returns to the list.
pub open spec fn is_error_over_list(s: State, message: Seq<char>) -> bool {
    s matches State::Error { message: m, return_state } && m@ == message && *return_state
        == State::List
}

/// The action an input sets, if it is one of the commit-action keys.
pub fn action_for(i: Input) -> (r: Option<Action>)
    ensures
        r == input_action(i),
{
    match i {
        Input::ActionDrop => Some(Action::Drop),
        Input::ActionEdit => Some(Action::Edit),
        Input::ActionFixup => Some(Action::Fixup),
        Input::ActionPick => Some(Action::Pick),
        Input::ActionReword => Some(Action::Reword),
        Input::ActionSquash => Some(Action::Squash),
        _ => None,
    }
}

/// The keys and what they do on the list screen.
pub open spec fn list_help_spec() -> Seq<(&'static str, &'static str)> {
    seq![
        ("Up", "Move selection up"),
        ("Down", "Move selection down"),
        ("PgUp", "Move selection up 5 lines"),
        ("PgDn", "Move selection down 5 lines"),
        ("q", "Abort interactive rebase"),
        ("Q", "Immediately abort interactive rebase"),
        ("w", "Write interactive rebase file"),
        ("W", "Immediately write interactive rebase file"),
        ("?", "Show help"),
        ("c", "Show commit information"),
        ("j", "Move selected commit down"),
        ("k", "Move selected commit up"),
        ("b", "Toggle break action"),
        ("p", "Set selected commit to be picked"),
        ("r", "Set selected commit to be reworded"),
        ("e", "Set selected commit to be edited"),
        ("s", "Set selected commit to be squashed"),
        ("f", "Set selected commit to be fixed-up"),
        ("d", "Set selected commit to be dropped"),
        ("E", "Edit an exec action's command"),
        ("V", "Enter visual mode"),
        ("!", "Open the todo file in the default editor"),
    ]
}

/// The keys and what they do in visual mode.
pub open spec fn visual_mode_help_spec() -> Seq<(&'static str, &'static str)> {
    seq![
        ("Up", "Move selection up"),
        ("Down", "Move selection down"),
        ("PgUp", "Move selection up 5 lines"),
        ("PgDn", "Move selection down 5 lines"),
        ("?", "Show help"),
        ("j", "Move selected commits down"),
        ("k", "Move selected commits up"),
        ("p", "Set selected commits to be picked"),
        ("r", "Set selected commits to be reworded"),
        ("e", "Set selected commits to be edited"),
        ("s", "Set selected commits to be squashed"),
        ("f", "Set selected commits to be fixed-up"),
        ("d", "Set selected commits to be dropped"),
        ("V", "Exit visual mode"),
    ]
}

/// The help shown over the screen `s`.
pub open spec fn help_spec(s: State) -> Seq<(&'static str, &'static str)> {
    if s == State::List { list_help_spec() } else { visual_mode_help_spec() }
}

/// The keys and what they do on the list screen.
pub fn list_help_lines() -> (r: Vec<(&'static str, &'static str)>)
    ensures
        r@ == list_help_spec(),
{
    let r = vec![
        ("Up", "Move selection up"),
        ("Down", "Move selection down"),
        ("PgUp", "Move selection up 5 lines"),
        ("PgDn", "Move selection down 5 lines"),
        ("q", "Abort interactive rebase"),
        ("Q", "Immediately abort interactive rebase"),
        ("w", "Write interactive rebase file"),
        ("W", "Immediately write interactive rebase file"),
        ("?", "Show help"),
        ("c", "Show commit information"),
        ("j", "Move selected commit down"),
        ("k", "Move selected commit up"),
        ("b", "Toggle break action"),
        ("p", "Set selected commit to be picked"),
        ("r", "Set selected commit to be reworded"),
        ("e", "Set selected commit to be edited"),
        ("s", "Set selected commit to be squashed"),
        ("f", "Set selected commit to be fixed-up"),
        ("d", "Set selected commit to be dropped"),
        ("E", "Edit an exec action's command"),
        ("V", "Enter visual mode"),
        ("!", "Open the todo file in the default editor"),
    ];
    assert(r@ =~= list_help_spec());
    r
}

/// The keys and what they do in visual mode.
pub fn visual_mode_help_lines() -> (r: Vec<(&'static str, &'static str)>)
    ensures
        r@ == visual_mode_help_spec(),
{
    let r = vec![
        ("Up", "Move selection up"),
        ("Down", "Move selection down"),
        ("PgUp", "Move selection up 5 lines"),
        ("PgDn", "Move selection down 5 lines"),
        ("?", "Show help"),
        ("j", "Move selected commits down"),
        ("k", "Move selected commits up"),
        ("p", "Set selected commits to be picked"),
        ("r", "Set selected commits to be reworded"),
        ("e", "Set selected commits to be edited"),
        ("s", "Set selected commits to be squashed"),
        ("f", "Set selected commits to be fixed-up"),
        ("d", "Set selected commits to be dropped"),
        ("V", "Exit visual mode"),
    ];
    assert(r@ =~= visual_mode_help_spec());
    r
}

/// The screen state machine with the plan, the edit buffer and the frame it
/// draws into.
pub struct Application {
    plan: Plan,
    edit: EditBuffer,
    exit_status: Option<ExitStatus>,
    state: State,
    view: View,
    auto_select_next: bool,
    commit_stats: Vec<String>,
    commit_loaded: bool,
    confirm_rebase: ConfirmRebase,
}

impl Application {
    pub closed spec fn state_spec(&self) -> State {
        self.state
    }

    pub closed spec fn plan_spec(&self) -> PlanView {
        self.plan@
    }

    pub closed spec fn edit_spec(&self) -> EditBufferView {
        self.edit@
    }

    pub closed spec fn exit_spec(&self) -> Option<ExitStatus> {
        self.exit_status
    }

    pub closed spec fn auto_spec(&self) -> bool {
        self.auto_select_next
    }

    pub closed spec fn commit_loaded_spec(&self) -> bool {
        self.commit_loaded
    }

    pub closed spec fn view_spec(&self) -> View {
        self.view
    }

    /// The rows of the loaded commit statistics.
    pub closed spec fn commit_stats_spec(&self) -> Seq<Seq<char>> {
        self.commit_stats@.map_values(|l: String| l@)
    }

    /// The plan and the edit buffer are well formed, and so are the parts
    /// that only this type sees.
    pub open spec fn wf(&self) -> bool {
        &&& self.plan_spec().wf()
        &&& self.edit_spec().wf()
        &&& self.inner_wf()
    }

    pub closed spec fn inner_wf(&self) -> bool {
        &&& self.view.wf()
        &&& self.confirm_rebase.message_spec() == crate::confirm_rebase::CONFIRM_REBASE_MESSAGE@
    }

    /// A session on the list screen over `plan`, drawing into `view`;
    /// `auto_select_next` moves the selection down after an action key.
    pub fn new(plan: Plan, view: View, auto_select_next: bool) -> (r: Application)
        requires
            plan@.wf(),
            view.wf(),
        ensures
            r.wf(),
            r.state_spec() == State::List,
            r.plan_spec() == plan@,
            r.exit_spec() is None,
            r.auto_spec() == auto_select_next,
            r.edit_spec().content.len() == 0,
            r.edit_spec().cursor == 0,
            r.view_spec() == view,
            r.commit_stats_spec().len() == 0,
    {
        Application {
            plan,
            edit: EditBuffer::empty(),
            exit_status: None,
            state: State::List,
            view,
            auto_select_next,
            commit_stats: Vec::new(),
            commit_loaded: false,
            confirm_rebase: ConfirmRebase::new(),
        }
    }

    pub fn get_state(&self) -> (r: &State)
        ensures
            *r == self.state_spec(),
    {
        &self.state
    }

    pub fn get_plan(&self) -> (r: &Plan)
        ensures
            r@ == self.plan_spec(),
    {
        &self.plan
    }

    pub fn get_edit_buffer(&self) -> (r: &EditBuffer)
        ensures
            r@ == self.edit_spec(),
    {
        &self.edit
    }

    pub fn get_view(&self) -> (r: &View)
        ensures
            *r == self.view_spec(),
    {
        &self.view
    }

    pub fn get_exit_status(&self) -> (r: Option<ExitStatus>)
        ensures
            r == self.exit_spec(),
    {
        self.exit_status
    }

    fn set_state(&mut self, new_state: State)
        ensures
            final(self).state_spec() == new_state,
            final(self).plan_spec() == old(self).plan_spec(),
            final(self).edit_spec() == old(self).edit_spec(),
            final(self).exit_spec() == old(self).exit_spec(),
            final(self).auto_spec() == old(self).auto_spec(),
            final(self).view_spec() == old(self).view_spec(),
            final(self).commit_stats_spec() == old(self).commit_stats_spec(),
            final(self).inner_wf() == old(self).inner_wf(),
    {
        self.state = new_state;
    }

    /// Takes the window's new size. Too small a window wraps the current
    /// state in the size overlay; once it is large enough again the overlay
    /// gives the wrapped state back.
    pub fn handle_resize(&mut self, width: usize, height: usize)
        requires
            old(self).wf(),
        ensures
            final(self).wf(),
            final(self).state_spec() == match old(self).state_spec() {
                State::WindowSizeError(inner) => if size_ok(width as int, height as int) {
                    *inner
                } else {
                    old(self).state_spec()
                },
                _ => if size_ok(width as int, height as int) {
                    old(self).state_spec()
                } else {
                    State::WindowSizeError(Box::new(old(self).state_spec()))
                },
            },
            final(self).plan_spec() == old(self).plan_spec(),
            final(self).edit_spec() == old(self).edit_spec(),
            final(self).exit_spec() == old(self).exit_spec(),
            final(self).auto_spec() == old(self).auto_spec(),
    {
        self.view.resize(width, height);
        let check = self.view.check_window_size();
        let next = match &self.state {
            State::WindowSizeError(inner) => if check {
                Some(inner.duplicate())
            } else {
                None
            },
            _ => if check {
                None
            } else {
                Some(State::WindowSizeError(Box::new(self.state.duplicate())))
            },
        };
        if let Some(s) = next {
            self.set_state(s);
        }
    }

    /// Moves the cursor or the active range, for the inputs that do so.
    fn apply_movement(&mut self, input: Input)
        requires
            old(self).wf(),
        ensures
            final(self).wf(),
            final(self).plan_spec() == moved_plan(input, old(self).plan_spec()),
            final(self).state_spec() == old(self).state_spec(),
            final(self).edit_spec() == old(self).edit_spec(),
            final(self).exit_spec() == old(self).exit_spec(),
            final(self).auto_spec() == old(self).auto_spec(),
            final(self).view_spec() == old(self).view_spec(),
            final(self).commit_stats_spec() == old(self).commit_stats_spec(),
    {
        match input {
            Input::MoveCursorDown => self.plan.move_cursor_down(1),
            Input::MoveCursorUp => self.plan.move_cursor_up(1),
            Input::MoveCursorPageDown => self.plan.move_cursor_down(PAGE_STEP),
            Input::MoveCursorPageUp => self.plan.move_cursor_up(PAGE_STEP),
            Input::SwapSelectedDown => self.plan.swap_range_down(),
            Input::SwapSelectedUp => self.plan.swap_range_up(),
            _ => {},
        }
    }

    /// Sets the action of the selected step and, where the session asks for
    /// it, moves the selection down.
    fn set_selected_line_action(&mut self, action: Action)
        requires
            old(self).wf(),
        ensures
            final(self).wf(),
            final(self).plan_spec() == if old(self).auto_spec() {
                old(self).plan_spec().with_range_action(action).moved_down(1)
            } else {
                old(self).plan_spec().with_range_action(action)
            },
            final(self).state_spec() == old(self).state_spec(),
            final(self).edit_spec() == old(self).edit_spec(),
            final(self).exit_spec() == old(self).exit_spec(),
            final(self).auto_spec() == old(self).auto_spec(),
            final(self).view_spec() == old(self).view_spec(),
            final(self).commit_stats_spec() == old(self).commit_stats_spec(),
    {
        self.plan.set_range_action(action);
        if self.auto_select_next {
            self.plan.move_cursor_down(1);
        }
    }

    /// Empties the plan and ends the session well.
    fn exit_abort(&mut self)
        requires
            old(self).wf(),
        ensures
            final(self).wf(),
            final(self).plan_spec() == (PlanView { steps: Seq::empty(), selected: 0, anchor: None }),
            final(self).exit_spec() == Some(ExitStatus::Good),
            final(self).state_spec() == old(self).state_spec(),
            final(self).edit_spec() == old(self).edit_spec(),
            final(self).auto_spec() == old(self).auto_spec(),
            final(self).view_spec() == old(self).view_spec(),
            final(self).commit_stats_spec() == old(self).commit_stats_spec(),
    {
        self.plan.clear();
        self.exit_finish();
    }

    /// Ends the session well.
    fn exit_finish(&mut self)
        ensures
            final(self).exit_spec() == Some(ExitStatus::Good),
            final(self).plan_spec() == old(self).plan_spec(),
            final(self).state_spec() == old(self).state_spec(),
            final(self).edit_spec() == old(self).edit_spec(),
            final(self).auto_spec() == old(self).auto_spec(),
            final(self).wf() == old(self).wf(),
            final(self).view_spec() == old(self).view_spec(),
            final(self).commit_stats_spec() == old(self).commit_stats_spec(),
    {
        self.exit_status = Some(ExitStatus::Good);
    }

    fn handle_list_input(&mut self, input: Input)
        requires
            old(self).wf(),
            old(self).state_spec() == State::List,
        ensures
            final(self).wf(),
            final(self).state_spec() == list_state_after(input, old(self).plan_spec()),
            final(self).plan_spec() == list_plan_after(
                input,
                old(self).plan_spec(),
                old(self).auto_spec(),
            ),
            final(self).exit_spec() == if input is ForceAbort || input is ForceRebase {
                Some(ExitStatus::Good)
            } else {
                old(self).exit_spec()
            },
            final(self).auto_spec() == old(self).auto_spec(),
            final(self).edit_spec() == if input is Edit && selected_is_exec(old(self).plan_spec()) {
                EditBufferView {
                    content: graphemes_of(old(self).plan_spec().steps[old(self).plan_spec().selected].command),
                    cursor: graphemes_of(old(self).plan_spec().steps[old(self).plan_spec().selected].command).len() as int,
                }
            } else {
                old(self).edit_spec()
            },
            input is Help ==> final(self).view_spec().help_top_spec() == 0,
            input is ShowCommit && selected_has_commit(old(self).plan_spec()) ==> final(self).view_spec().commit_top_spec() == 0,
            !(input is Help) && !(input is ShowCommit && selected_has_commit(old(self).plan_spec()))
                ==> final(self).view_spec() == old(self).view_spec(),
            final(self).commit_stats_spec() == old(self).commit_stats_spec(),
            input is Edit && selected_is_exec(old(self).plan_spec()) ==> joined(
                final(self).edit_spec().content,
            ) == old(self).plan_spec().steps[old(self).plan_spec().selected].command,
    {
        self.plan.end_visual_mode();
        match input {
            Input::Help => {
                let n = list_help_lines().len();
                self.view.update_help_top(false, true, n);
                self.set_state(State::Help(Box::new(State::List)));
            },
            Input::ShowCommit => {
                if !self.plan.is_empty() && self.plan.get_selected_line().get_action().has_commit() {
                    self.view.update_commit_top(false, true, 0);
                    self.commit_loaded = false;
                    self.set_state(State::ShowCommit);
                }
            },
            Input::Abort => self.set_state(State::ConfirmAbort),
            Input::ForceAbort => {
                self.exit_abort();
                self.set_state(State::Exiting);
            },
            Input::Rebase => self.set_state(State::ConfirmRebase),
            Input::ForceRebase => {
                self.exit_finish();
                self.set_state(State::Exiting);
            },
            Input::ActionBreak => self.plan.toggle_break(),
            Input::Edit => {
                if !self.plan.is_empty() {
                    if let Action::Exec = self.plan.get_selected_line().get_action() {
                        self.edit = EditBuffer::new(self.plan.get_selected_line().get_command().as_str());
                        self.set_state(State::Edit);
                    }
                }
            },
            Input::ToggleVisualMode => {
                if !self.plan.is_empty() {
                    self.plan.start_visual_mode();
                    self.set_state(State::VisualMode);
                }
            },
            Input::OpenInEditor => self.set_state(State::ExternalEditor(Box::new(State::List))),
            _ => {
                match action_for(input) {
                    Some(action) => self.set_selected_line_action(action),
                    None => self.apply_movement(input),
                }
            },
        }
    }

    fn handle_visual_mode_input(&mut self, input: Input)
        requires
            old(self).wf(),
            old(self).state_spec() == State::VisualMode,
        ensures
            final(self).wf(),
            final(self).state_spec() == visual_state_after(input),
            final(self).plan_spec() == visual_plan_after(input, old(self).plan_spec()),
            final(self).exit_spec() == old(self).exit_spec(),
            final(self).auto_spec() == old(self).auto_spec(),
            final(self).edit_spec() == old(self).edit_spec(),
            input is Help ==> final(self).view_spec().help_top_spec() == 0,
            !(input is Help) ==> final(self).view_spec() == old(self).view_spec(),
            final(self).commit_stats_spec() == old(self).commit_stats_spec(),
    {
        match input {
            Input::ToggleVisualMode => {
                self.plan.end_visual_mode();
                self.set_state(State::List);
            },
            Input::Help => {
                let n = visual_mode_help_lines().len();
                self.view.update_help_top(false, true, n);
                self.set_state(State::Help(Box::new(State::VisualMode)));
            },
            _ => {
                match action_for(input) {
                    Some(action) => self.plan.set_range_action(action),
                    None => self.apply_movement(input),
                }
            },
        }
    }

    fn handle_edit(&mut self, input: Input)
        requires
            old(self).wf(),
            old(self).state_spec() == State::Edit,
        ensures
            final(self).wf(),
            final(self).state_spec() == if input is Enter { State::List } else { State::Edit },
            final(self).plan_spec() == if input is Enter {
                old(self).plan_spec().command_edited(joined(old(self).edit_spec().content))
            } else {
                old(self).plan_spec()
            },
            final(self).edit_spec() == edit_after(input, old(self).edit_spec()),
            final(self).exit_spec() == old(self).exit_spec(),
            final(self).auto_spec() == old(self).auto_spec(),
    {
        match input {
            Input::Character(c) => self.edit.insert(c),
            Input::Backspace => self.edit.backspace(),
            Input::Delete => self.edit.delete(),
            Input::MoveCursorLeft => self.edit.move_left(),
            Input::MoveCursorRight => self.edit.move_right(),
            Input::Enter => {
                let content = self.edit.get_content();
                self.plan.edit_selected_line(content.as_str());
                self.set_state(State::List);
            },
            _ => {},
        }
    }

    fn handle_confirm_abort_input(&mut self, input: Input)
        requires
            old(self).wf(),
            old(self).state_spec() == State::ConfirmAbort,
        ensures
            final(self).wf(),
            final(self).state_spec() == state_after(old(self).state_spec(), input, old(self).plan_spec()),
            final(self).plan_spec() == plan_after(
                old(self).state_spec(),
                input,
                old(self).plan_spec(),
                old(self).auto_spec(),
                old(self).edit_spec(),
            ),
            final(self).exit_spec() == exit_after(
                old(self).state_spec(),
                input,
                old(self).plan_spec(),
                old(self).exit_spec(),
            ),
            final(self).edit_spec() == old(self).edit_spec(),
            final(self).auto_spec() == old(self).auto_spec(),
    {
        match input {
            Input::Yes => {
                self.exit_abort();
                self.set_state(State::Exiting);
            },
            Input::Resize | Input::Null => {},
            _ => self.set_state(State::List),
        }
    }

    fn handle_confirm_rebase_input(&mut self, input: Input)
        requires
            old(self).wf(),
            old(self).state_spec() == State::ConfirmRebase,
        ensures
            final(self).wf(),
            final(self).state_spec() == state_after(old(self).state_spec(), input, old(self).plan_spec()),
            final(self).plan_spec() == old(self).plan_spec(),
            final(self).exit_spec() == exit_after(
                old(self).state_spec(),
                input,
                old(self).plan_spec(),
                old(self).exit_spec(),
            ),
            final(self).edit_spec() == old(self).edit_spec(),
            final(self).auto_spec() == old(self).auto_spec(),
    {
        let results: Results = self.confirm_rebase.handle_event(input);
        if let Some(status) = results.exit_status {
            self.exit_status = Some(status);
            self.set_state(State::Exiting);
        }
        if let Some(state) = results.state {
            self.set_state(state);
        }
    }

    fn handle_show_commit_input(&mut self, input: Input)
        requires
            old(self).wf(),
            old(self).state_spec() == State::ShowCommit,
        ensures
            final(self).wf(),
            final(self).state_spec() == state_after(old(self).state_spec(), input, old(self).plan_spec()),
            final(self).plan_spec() == old(self).plan_spec(),
            final(self).exit_spec() == old(self).exit_spec(),
            final(self).edit_spec() == old(self).edit_spec(),
            final(self).auto_spec() == old(self).auto_spec(),
            input is MoveCursorDown ==> final(self).view_spec().commit_top_spec() == clamp_top(
                old(self).view_spec().commit_top_spec() + 1,
                old(self).commit_stats_spec().len() as int,
                content_height(old(self).view_spec().height_spec(), HELP_PADDING as int),
            ),
            input is MoveCursorUp ==> final(self).view_spec().commit_top_spec() == clamp_top(
                old(self).view_spec().commit_top_spec() - 1,
                old(self).commit_stats_spec().len() as int,
                content_height(old(self).view_spec().height_spec(), HELP_PADDING as int),
            ),
    {
        match input {
            Input::MoveCursorDown => self.view.update_commit_top(false, false, self.commit_stats.len()),
            Input::MoveCursorUp => self.view.update_commit_top(true, false, self.commit_stats.len()),
            Input::Resize | Input::Null => {},
            _ => self.set_state(State::List),
        }
    }

    fn handle_help_input(&mut self, return_state: State, input: Input)
        requires
            old(self).wf(),
            old(self).state_spec() == State::Help(Box::new(return_state)),
        ensures
            final(self).wf(),
            final(self).state_spec() == state_after(old(self).state_spec(), input, old(self).plan_spec()),
            final(self).plan_spec() == old(self).plan_spec(),
            final(self).exit_spec() == old(self).exit_spec(),
            final(self).edit_spec() == old(self).edit_spec(),
            final(self).auto_spec() == old(self).auto_spec(),
            input is MoveCursorDown ==> final(self).view_spec().help_top_spec() == clamp_top(
                old(self).view_spec().help_top_spec() + 1,
                help_spec(return_state).len() as int,
                content_height(old(self).view_spec().height_spec(), HELP_PADDING as int),
            ),
            input is MoveCursorUp ==> final(self).view_spec().help_top_spec() == clamp_top(
                old(self).view_spec().help_top_spec() - 1,
                help_spec(return_state).len() as int,
                content_height(old(self).view_spec().height_spec(), HELP_PADDING as int),
            ),
    {
        let n = match return_state {
            State::List => list_help_lines().len(),
            _ => visual_mode_help_lines().len(),
        };
        match input {
            Input::MoveCursorDown => self.view.update_help_top(false, false, n),
            Input::MoveCursorUp => self.view.update_help_top(true, false, n),
            Input::Resize | Input::Null => {},
            _ => self.set_state(return_state),
        }
    }

    /// Reacts to one input on the current screen.
    pub fn handle_input(&mut self, input: Input)
        requires
            old(self).wf(),
        ensures
            final(self).wf(),
            final(self).state_spec() == state_after(old(self).state_spec(), input, old(self).plan_spec()),
            final(self).plan_spec() == plan_after(
                old(self).state_spec(),
                input,
                old(self).plan_spec(),
                old(self).auto_spec(),
                old(self).edit_spec(),
            ),
            final(self).exit_spec() == exit_after(
                old(self).state_spec(),
                input,
                old(self).plan_spec(),
                old(self).exit_spec(),
            ),
            final(self).edit_spec() == edit_buffer_after(
                old(self).state_spec(),
                input,
                old(self).plan_spec(),
                old(self).edit_spec(),
            ),
            final(self).auto_spec() == old(self).auto_spec(),
            (old(self).state_spec() is List || old(self).state_spec() is VisualMode) && input is Help
                ==> final(self).view_spec().help_top_spec() == 0,
            old(self).state_spec() is List && input is ShowCommit ==> final(self).view_spec().commit_top_spec() == if selected_has_commit(old(self).plan_spec()) {
                0
            } else {
                old(self).view_spec().commit_top_spec()
            },
            old(self).state_spec() is ShowCommit && input is MoveCursorDown ==> final(self).view_spec().commit_top_spec() == clamp_top(
                old(self).view_spec().commit_top_spec() + 1,
                old(self).commit_stats_spec().len() as int,
                content_height(old(self).view_spec().height_spec(), HELP_PADDING as int),
            ),
            old(self).state_spec() is ShowCommit && input is MoveCursorUp ==> final(self).view_spec().commit_top_spec() == clamp_top(
                old(self).view_spec().commit_top_spec() - 1,
                old(self).commit_stats_spec().len() as int,
                content_height(old(self).view_spec().height_spec(), HELP_PADDING as int),
            ),
            old(self).state_spec() matches State::Help(ret) ==> (input is MoveCursorDown ==> final(
                self).view_spec().help_top_spec() == clamp_top(
                old(self).view_spec().help_top_spec() + 1,
                help_spec(*ret).len() as int,
                content_height(old(self).view_spec().height_spec(), HELP_PADDING as int),
            )),
            old(self).state_spec() matches State::Help(ret) ==> (input is MoveCursorUp ==> final(
                self).view_spec().help_top_spec() == clamp_top(
                old(self).view_spec().help_top_spec() - 1,
                help_spec(*ret).len() as int,
                content_height(old(self).view_spec().height_spec(), HELP_PADDING as int),
            )),
            old(self).state_spec() is List && input is Edit && selected_is_exec(old(self).plan_spec()) ==> joined(
                final(self).edit_spec().content,
            ) == old(self).plan_spec().steps[old(self).plan_spec().selected].command,
    {
        let key = match input {
            Input::Resize | Input::Null => false,
            _ => true,
        };
        match &self.state {
            State::List => self.handle_list_input(input),
            State::VisualMode => self.handle_visual_mode_input(input),
            State::Edit => self.handle_edit(input),
            State::ConfirmAbort => self.handle_confirm_abort_input(input),
            State::ConfirmRebase => self.handle_confirm_rebase_input(input),
            State::ShowCommit => self.handle_show_commit_input(input),
            State::Help(ret) => {
                let r = ret.duplicate();
                self.handle_help_input(r, input);
            },
            State::Error { return_state, .. } => {
                if key {
                    let r = return_state.duplicate();
                    self.set_state(r);
                }
            },
            State::ExternalEditorError => {
                if key {
                    let status = if self.plan.is_empty() {
                        ExitStatus::Good
                    } else {
                        ExitStatus::StateError
                    };
                    self.exit_status = Some(status);
                    self.set_state(State::Exiting);
                }
            },
            _ => {},
        }
    }

    /// Does the work of the current state that needs nothing from outside,
    /// and says which outside work it waits for.
    pub fn process(&mut self) -> (r: Work)
        requires
            old(self).wf(),
        ensures
            final(self).wf(),
            r == match old(self).state_spec() {
                State::ExternalEditor(_) => Work::RunEditor,
                State::ExternalEditorFinish(_) => Work::ReloadPlan,
                State::ShowCommit => if old(self).commit_loaded_spec() {
                    Work::Nothing
                } else {
                    Work::LoadCommitStats
                },
                _ => Work::Nothing,
            },
            final(self).state_spec() == old(self).state_spec(),
            final(self).plan_spec() == old(self).plan_spec(),
            final(self).exit_spec() == old(self).exit_spec(),
            final(self).edit_spec() == old(self).edit_spec(),
            final(self).auto_spec() == old(self).auto_spec(),
            final(self).commit_loaded_spec() == old(self).commit_loaded_spec(),
            (old(self).state_spec() is List || old(self).state_spec() is VisualMode)
                ==> final(self).view_spec().main_top_spec() <= old(self).plan_spec().selected
                < final(self).view_spec().main_top_spec() + crate::scroll::content_height(
                old(self).view_spec().height_spec(),
                crate::view::MAIN_PADDING as int,
            ),
            (old(self).state_spec() is List || old(self).state_spec() is VisualMode)
                ==> final(self).view_spec().main_top_spec() == crate::scroll::cursor_top(
                old(self).view_spec().main_top_spec(),
                old(self).plan_spec().selected,
                content_height(old(self).view_spec().height_spec(), MAIN_PADDING as int),
                old(self).plan_spec().len(),
            ),
    {
        match &self.state {
            State::List | State::VisualMode => {
                let n = self.plan.len();
                let selected = self.plan.get_selected_line_index();
                self.view.update_main_top(n, selected);
                Work::Nothing
            },
            State::ExternalEditor(_) => Work::RunEditor,
            State::ExternalEditorFinish(_) => Work::ReloadPlan,
            State::ShowCommit => if self.commit_loaded {
                Work::Nothing
            } else {
                Work::LoadCommitStats
            },
            _ => Work::Nothing,
        }
    }

    /// Reports how the editor run ended: on success the plan is to be read
    /// back, on failure the message is shown before the session ends.
    pub fn editor_finished(&mut self, result: Result<(), String>)
        requires
            old(self).wf(),
        ensures
            final(self).wf(),
            final(self).state_spec() == match old(self).state_spec() {
                State::ExternalEditor(ret) => match result {
                    Ok(_) => State::ExternalEditorFinish(ret),
                    Err(m) => State::Error {
                        message: m,
                        return_state: Box::new(State::ExternalEditorError),
                    },
                },
                _ => old(self).state_spec(),
            },
            final(self).plan_spec() == old(self).plan_spec(),
            final(self).exit_spec() == old(self).exit_spec(),
            final(self).edit_spec() == old(self).edit_spec(),
            final(self).auto_spec() == old(self).auto_spec(),
    {
        let next = match &self.state {
            State::ExternalEditor(ret) => match result {
                Ok(_) => Some(State::ExternalEditorFinish(Box::new(ret.duplicate()))),
                Err(m) => Some(
                    State::Error { message: m, return_state: Box::new(State::ExternalEditorError) },
                ),
            },
            _ => None,
        };
        if let Some(s) = next {
            self.set_state(s);
        }
    }

    /// Reports the plan as read back after the editor: a failure or an
    /// empty plan is shown as an error over the list.
    pub fn plan_reloaded(&mut self, result: Result<Vec<Line>, String>)
        requires
            old(self).wf(),
            result matches Ok(lines) ==> forall|i: int|
                0 <= i < lines@.len() ==> #[trigger] lines@[i]@.wf(),
        ensures
            final(self).wf(),
            old(self).state_spec() is ExternalEditorFinish ==> match result {
                Err(m) => final(self).state_spec() == (State::Error {
                    message: m,
                    return_state: Box::new(State::List),
                }) && final(self).plan_spec() == old(self).plan_spec(),
                Ok(lines) => final(self).plan_spec() == (PlanView {
                    steps: crate::plan::line_views(lines@),
                    selected: 0,
                    anchor: None,
                }) && if lines@.len() == 0 {
                    is_error_over_list(final(self).state_spec(), REBASE_EMPTY_MESSAGE@)
                } else {
                    final(self).state_spec() == State::List
                },
            },
            !(old(self).state_spec() is ExternalEditorFinish) ==> final(self).state_spec()
                == old(self).state_spec() && final(self).plan_spec() == old(self).plan_spec(),
            final(self).exit_spec() == old(self).exit_spec(),
            final(self).edit_spec() == old(self).edit_spec(),
            final(self).auto_spec() == old(self).auto_spec(),
    {
        if let State::ExternalEditorFinish(_) = &self.state {
            match result {
                Err(m) => self.set_state(State::Error { message: m, return_state: Box::new(State::List) }),
                Ok(lines) => {
                    let empty = lines.len() == 0;
                    self.plan.replace_lines(lines);
                    if empty {
                        self.set_state(
                            State::Error {
                                message: String::from_str(REBASE_EMPTY_MESSAGE),
                                return_state: Box::new(State::List),
                            },
                        );
                    } else {
                        self.set_state(State::List);
                    }
                },
            }
        }
    }

    /// Reports the statistics of the selected commit, one row each; a
    /// failure is shown as an error over the list.
    pub fn commit_stats_loaded(&mut self, result: Result<Vec<String>, String>)
        requires
            old(self).wf(),
        ensures
            final(self).wf(),
            final(self).state_spec() == match old(self).state_spec() {
                State::ShowCommit => match result {
                    Err(m) => State::Error { message: m, return_state: Box::new(State::List) },
                    Ok(_) => State::ShowCommit,
                },
                _ => old(self).state_spec(),
            },
            old(self).state_spec() is ShowCommit && result is Ok ==> final(self).commit_loaded_spec()
                && final(self).commit_stats_spec() == result->Ok_0@.map_values(|l: String| l@),
            final(self).plan_spec() == old(self).plan_spec(),
            final(self).exit_spec() == old(self).exit_spec(),
            final(self).edit_spec() == old(self).edit_spec(),
            final(self).auto_spec() == old(self).auto_spec(),
    {
        if let State::ShowCommit = &self.state {
            match result {
                Err(m) => self.set_state(State::Error { message: m, return_state: Box::new(State::List) }),
                Ok(lines) => {
                    self.commit_stats = lines;
                    self.commit_loaded = true;
                },
            }
        }
    }

    /// Draws the current screen and hands over the frame.
    pub fn draw(&mut self) -> (r: Vec<Segment>)
        requires
            old(self).wf(),
        ensures
            final(self).wf(),
            final(self).state_spec() == old(self).state_spec(),
            final(self).plan_spec() == old(self).plan_spec(),
            final(self).exit_spec() == old(self).exit_spec(),
            final(self).edit_spec() == old(self).edit_spec(),
            final(self).auto_spec() == old(self).auto_spec(),
            final(self).view_spec().frame_spec().len() == 0,
            final(self).view_spec().same_layout(&old(self).view_spec()),
            old(self).state_spec() is Exiting ==> text_of(segment_views(r@)) == EXITING_MESSAGE@,
            old(self).state_spec() is ConfirmAbort ==> text_of(segment_views(r@)) == title_text(
                old(self).view_spec().width_spec(),
                false,
            ) + "\n"@ + CONFIRM_ABORT_MESSAGE@ + CONFIRM_SUFFIX@ + " "@,
            old(self).state_spec() is ConfirmRebase ==> text_of(segment_views(r@)) == title_text(
                old(self).view_spec().width_spec(),
                false,
            ) + "\n"@ + crate::confirm_rebase::CONFIRM_REBASE_MESSAGE@ + CONFIRM_SUFFIX@,
            old(self).state_spec() matches State::Error { message, .. } ==> text_of(
                segment_views(r@),
            ) == title_text(old(self).view_spec().width_spec(), false) + message@ + "\n"@
                + CONTINUE_MESSAGE@,
            old(self).state_spec() is WindowSizeError ==> text_of(segment_views(r@))
                == size_error_text(
                old(self).view_spec().width_spec(),
                old(self).view_spec().height_spec(),
            ),
            old(self).state_spec() is List ==> text_of(segment_views(r@)) == title_text(
                old(self).view_spec().width_spec(),
                true,
            ) + body_text(
                todo_rows(
                    old(self).plan_spec().steps,
                    old(self).view_spec().width_spec(),
                    old(self).plan_spec().selected,
                    None,
                ),
                old(self).view_spec().main_top_spec(),
                content_height(old(self).view_spec().height_spec(), MAIN_PADDING as int),
                old(self).view_spec().width_spec(),
            ) + list_footer_text(old(self).view_spec().width_spec()),
            old(self).state_spec() is VisualMode ==> text_of(segment_views(r@)) == title_text(
                old(self).view_spec().width_spec(),
                true,
            ) + body_text(
                todo_rows(
                    old(self).plan_spec().steps,
                    old(self).view_spec().width_spec(),
                    old(self).plan_spec().selected,
                    match old(self).plan_spec().anchor {
                        Some(a) => Some(a as usize),
                        None => None,
                    },
                ),
                old(self).view_spec().main_top_spec(),
                content_height(old(self).view_spec().height_spec(), MAIN_PADDING as int),
                old(self).view_spec().width_spec(),
            ) + if old(self).plan_spec().anchor is Some {
                visual_mode_footer_text(old(self).view_spec().width_spec())
            } else {
                list_footer_text(old(self).view_spec().width_spec())
            },
            old(self).state_spec() is ShowCommit ==> text_of(segment_views(r@)) == title_text(
                old(self).view_spec().width_spec(),
                false,
            ) + body_text(
                old(self).commit_stats_spec(),
                old(self).view_spec().commit_top_spec(),
                content_height(old(self).view_spec().height_spec(), HELP_PADDING as int),
                old(self).view_spec().width_spec(),
            ) + HELP_FOOTER@,
            old(self).state_spec() is Edit ==> text_of(segment_views(r@)) == title_text(
                old(self).view_spec().width_spec(),
                false,
            ) + joined(old(self).edit_spec().content) + (if old(self).edit_spec().cursor
                >= old(self).edit_spec().content.len() {
                " "@
            } else {
                Seq::empty()
            }) + "\n\n"@ + EDIT_FOOTER@,
            old(self).state_spec() matches State::Help(ret) ==> text_of(segment_views(r@))
                == title_text(old(self).view_spec().width_spec(), false) + HELP_HEADER@ + blank(
                old(self).view_spec().width_spec() - HELP_HEADER_WIDTH,
            ) + body_text(
                help_rows(help_spec(*ret)),
                old(self).view_spec().help_top_spec(),
                content_height(old(self).view_spec().height_spec(), HELP_PADDING as int),
                old(self).view_spec().width_spec(),
            ) + HELP_FOOTER@,
            (old(self).state_spec() is ExternalEditor || old(self).state_spec() is ExternalEditorFinish
                || old(self).state_spec() is ExternalEditorError) ==> r@.len() == 0,
    {
        match &self.state {
            State::ConfirmAbort => {
                self.view.clear();
                self.view.draw_confirm(CONFIRM_ABORT_MESSAGE);
            },
            State::ConfirmRebase => {
                self.confirm_rebase.build_view_data(&mut self.view);
            },
            State::Edit => {
                self.view.clear();
                self.view.draw_edit(self.edit.graphemes(), self.edit.cursor());
            },
            State::Error { message, .. } => {
                let m = message.clone();
                self.view.clear();
                self.view.draw_error(m.as_str());
            },
            State::Exiting => {
                self.view.clear();
                self.view.draw_exiting();
            },
            State::Help(ret) => {
                let lines = match **ret {
                    State::List => list_help_lines(),
                    _ => visual_mode_help_lines(),
                };
                self.view.draw_help(&lines);
            },
            State::List => {
                self.view.draw_main(self.plan.get_lines(), self.plan.get_selected_line_index(), None);
            },
            State::VisualMode => {
                let start = self.plan.get_visual_start_index();
                assert(start == match self.plan_spec().anchor {
                    Some(a) => Some(a as usize),
                    None => None::<usize>,
                });
                self.view.draw_main(self.plan.get_lines(), self.plan.get_selected_line_index(), start);
            },
            State::ShowCommit => {
                self.view.draw_show_commit(&self.commit_stats);
            },
            State::WindowSizeError(_) => {
                self.view.clear();
                self.view.draw_window_size_error();
            },
            _ => {
                self.view.clear();
            },
        }
        self.view.refresh()
    }

    /// Reports how writing the plan out at the end went; a failure marks the
    /// session as ended by a write error and is handed back.
    pub fn exit_end(&mut self, written: Result<(), String>) -> (r: Result<(), String>)
        ensures
            r == written,
            final(self).exit_spec() == match written {
                Ok(_) => old(self).exit_spec(),
                Err(_) => Some(ExitStatus::FileWriteError),
            },
            final(self).state_spec() == old(self).state_spec(),
            final(self).plan_spec() == old(self).plan_spec(),
            final(self).edit_spec() == old(self).edit_spec(),
            final(self).auto_spec() == old(self).auto_spec(),
            final(self).wf() == old(self).wf(),
    {
        if written.is_err() {
            self.exit_status = Some(ExitStatus::FileWriteError);
        }
        written
    }
}

/// Turning visual mode on and straight off again from the list comes back
/// to the list with the plan as it was.
pub proof fn lemma_visual_toggle_round_trip(p: PlanView, auto: bool, e: EditBufferView)
    requires
        p.wf(),
        p.anchor is None,
    ensures
        ({
            let state_on = state_after(State::List, Input::ToggleVisualMode, p);
            let after_on = plan_after(State::List, Input::ToggleVisualMode, p, auto, e);
            &&& state_after(state_on, Input::ToggleVisualMode, after_on) == State::List
            &&& plan_after(state_on, Input::ToggleVisualMode, after_on, auto, e) == p
        }),
{
}

/// Asking for the commit view on an `Exec` or `Break` step leaves the list
/// and the plan as they were.
pub proof fn lemma_show_commit_needs_commit(p: PlanView, auto: bool, e: EditBufferView)
    requires
        p.wf(),
        p.anchor is None,
        p.len() > 0,
        p.steps[p.selected].action == Action::Exec || p.steps[p.selected].action == Action::Break,
    ensures
        state_after(State::List, Input::ShowCommit, p) == State::List,
        plan_after(State::List, Input::ShowCommit, p, auto, e) == p,
{
}

/// Opening the edit screen on an `Exec` step and pressing Enter at once
/// leaves the plan as it was.
pub proof fn lemma_edit_enter_keeps_command(p: PlanView, auto: bool, e: EditBufferView)
    requires
        p.wf(),
        p.anchor is None,
        selected_is_exec(p),
        joined(graphemes_of(p.steps[p.selected].command)) == p.steps[p.selected].command,
    ensures
        ({
            let state_on = state_after(State::List, Input::Edit, p);
            let buffer = edit_buffer_after(State::List, Input::Edit, p, e);
            &&& state_on == State::Edit
            &&& state_after(state_on, Input::Enter, p) == State::List
            &&& plan_after(state_on, Input::Enter, p, auto, buffer) == p
        }),
{
    let c = p.steps[p.selected].command;
    assert(p.steps[p.selected].with_command(c) == p.steps[p.selected]);
    assert(p.steps.update(p.selected, p.steps[p.selected].with_command(c)) =~= p.steps);
}

} // verus!
