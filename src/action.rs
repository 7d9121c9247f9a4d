use vstd::prelude::*;

verus! {

/// The operation that one rebase step performs.
#[derive(Clone, Copy, Debug, PartialEq, Eq, Structural)]
pub enum Action {
    Break,
    Drop,
    Edit,
    Exec,
    Fixup,
    Pick,
    Reword,
    Squash,
}

/// Actions that name a commit: every action but `Exec` and `Break`.
pub open spec fn is_commit_action(a: Action) -> bool {
    a != Action::Exec && a != Action::Break
}

impl Action {
    /// Whether this action names a commit.
    pub fn has_commit(&self) -> (r: bool)
        ensures
            r == is_commit_action(*self),
    {
        match self {
            Action::Exec | Action::Break => false,
            _ => true,
        }
    }

    /// The keyword of the action as it stands in a plan file.
    pub fn as_string(&self) -> (r: &'static str)
        ensures
            r@ == action_name(*self),
    {
        match self {
            Action::Break => "break",
            Action::Drop => "drop",
            Action::Edit => "edit",
            Action::Exec => "exec",
            Action::Fixup => "fixup",
            Action::Pick => "pick",
            Action::Reword => "reword",
            Action::Squash => "squash",
        }
    }

    /// The one-letter abbreviation of the action.
    pub fn to_abbreviation(&self) -> (r: &'static str)
        ensures
            r@ == action_abbreviation(*self),
    {
        match self {
            Action::Break => "b",
            Action::Drop => "d",
            Action::Edit => "e",
            Action::Exec => "x",
            Action::Fixup => "f",
            Action::Pick => "p",
            Action::Reword => "r",
            Action::Squash => "s",
        }
    }
}

pub open spec fn action_name(a: Action) -> Seq<char> {
    match a {
        Action::Break => "break"@,
        Action::Drop => "drop"@,
        Action::Edit => "edit"@,
        Action::Exec => "exec"@,
        Action::Fixup => "fixup"@,
        Action::Pick => "pick"@,
        Action::Reword => "reword"@,
        Action::Squash => "squash"@,
    }
}

pub open spec fn action_abbreviation(a: Action) -> Seq<char> {
    match a {
        Action::Break => "b"@,
        Action::Drop => "d"@,
        Action::Edit => "e"@,
        Action::Exec => "x"@,
        Action::Fixup => "f"@,
        Action::Pick => "p"@,
        Action::Reword => "r"@,
        Action::Squash => "s"@,
    }
}

} // verus!
