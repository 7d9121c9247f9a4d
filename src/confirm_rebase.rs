use vstd::prelude::*;
use vstd::view::View as Viewable;

use crate::state::{is_key, ExitStatus, Input, State};
use crate::view::{normal, title_segs, title_text, View, CONFIRM_SUFFIX};

verus! {

pub const CONFIRM_REBASE_MESSAGE: &'static str = "Are you sure you want to rebase";

/// What a screen asks of the engine after an event: an exit status to end
/// with, a state to go to, or neither.
#[derive(Debug)]
pub struct Results {
    pub exit_status: Option<ExitStatus>,
    pub state: Option<State>,
}

/// The screen that asks whether to start the rebase.
pub struct ConfirmRebase {
    message: &'static str,
}

impl ConfirmRebase {
    pub closed spec fn message_spec(&self) -> Seq<char> {
        self.message@
    }

    pub fn new() -> (r: ConfirmRebase)
        ensures
            r.message_spec() == CONFIRM_REBASE_MESSAGE@,
    {
        ConfirmRebase { message: CONFIRM_REBASE_MESSAGE }
    }

    /// Draws the question on a cleared frame: the title, then the question
    /// unstyled in the foreground colour on a line of its own.
    pub fn build_view_data(&self, view: &mut View)
        ensures
            final(view).text() == title_text(old(view).width_spec(), false) + "\n"@
                + self.message_spec() + CONFIRM_SUFFIX@,
            final(view).frame_spec() == title_segs(old(view).width_spec(), false) + seq![
                normal("\n"@),
                normal(self.message_spec() + CONFIRM_SUFFIX@),
            ],
            final(view).same_layout(old(view)),
    {
        view.clear();
        view.draw_title(false);
        view.set_style(false, false, false);
        view.draw_str("\n");
        let mut question = String::from_str(self.message);
        question.append(CONFIRM_SUFFIX);
        view.draw_str(question.as_str());
        assert(view.frame_spec() =~= title_segs(old(view).width_spec(), false) + seq![
            normal("\n"@),
            normal(self.message_spec() + CONFIRM_SUFFIX@),
        ]);
    }

    /// `Yes` ends the session well; `No` and any other key go back to the
    /// list; an event without a key changes nothing.
    pub fn handle_event(&mut self, event: Input) -> (r: Results)
        ensures
            event is Yes ==> r.exit_status == Some(ExitStatus::Good) && r.state is None,
            !(event is Yes) && is_key(event) ==> r.exit_status is None && r.state == Some(
                State::List,
            ),
            !is_key(event) ==> r.exit_status is None && r.state is None,
            final(self).message_spec() == old(self).message_spec(),
    {
        match event {
            Input::Yes => Results { exit_status: Some(ExitStatus::Good), state: None },
            Input::Resize | Input::Null => Results { exit_status: None, state: None },
            _ => Results { exit_status: None, state: Some(State::List) },
        }
    }
}

} // verus!
