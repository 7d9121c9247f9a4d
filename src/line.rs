use vstd::prelude::*;

use crate::action::{action_name, is_commit_action, Action};

verus! {

/// One instruction of a rebase plan.
///
/// A commit action carries a hash and a comment; `Exec` carries a command;
/// `Break` carries nothing.
#[derive(Debug)]
pub struct Line {
    action: Action,
    hash: String,
    command: String,
    comment: String,
}

/// Index of the first space of `t` at or after `from`, or the length of `t`.
pub open spec fn first_space(t: Seq<char>, from: int) -> int
    decreases t.len() - from,
{
    if from < 0 || from >= t.len() {
        t.len() as int
    } else if t[from] == ' ' {
        from
    } else {
        first_space(t, from + 1)
    }
}

/// What follows the first word of `t` and the space after it.
pub open spec fn after_word(t: Seq<char>) -> Seq<char> {
    let i = first_space(t, 0);
    if i < t.len() { t.skip(i + 1) } else { Seq::empty() }
}

/// The action that a keyword of a plan file names, long or short.
pub open spec fn keyword_action(w: Seq<char>) -> Option<Action> {
    if w == "pick"@ || w == "p"@ {
        Some(Action::Pick)
    } else if w == "reword"@ || w == "r"@ {
        Some(Action::Reword)
    } else if w == "edit"@ || w == "e"@ {
        Some(Action::Edit)
    } else if w == "squash"@ || w == "s"@ {
        Some(Action::Squash)
    } else if w == "fixup"@ || w == "f"@ {
        Some(Action::Fixup)
    } else if w == "drop"@ || w == "d"@ {
        Some(Action::Drop)
    } else if w == "exec"@ || w == "x"@ {
        Some(Action::Exec)
    } else if w == "break"@ || w == "b"@ {
        Some(Action::Break)
    } else {
        None
    }
}

/// The step that one line of a plan file describes: `<action> <hash>
/// <comment>`, `exec <command>` or `break`; `None` for any other line.
pub open spec fn parse_line(t: Seq<char>) -> Option<LineView> {
    let word = t.take(first_space(t, 0));
    let rest = after_word(t);
    match keyword_action(word) {
        None => None,
        Some(Action::Exec) => Some(
            LineView { action: Action::Exec, hash: Seq::empty(), command: rest, comment: Seq::empty() },
        ),
        Some(Action::Break) => if first_space(t, 0) == t.len() {
            Some(
                LineView {
                    action: Action::Break,
                    hash: Seq::empty(),
                    command: Seq::empty(),
                    comment: Seq::empty(),
                },
            )
        } else {
            None
        },
        Some(a) => {
            let hash = rest.take(first_space(rest, 0));
            if hash.len() == 0 {
                None
            } else {
                Some(LineView { action: a, hash, command: Seq::empty(), comment: after_word(rest) })
            }
        },
    }
}

/// The line of a plan file that describes a step.
pub open spec fn line_text(l: LineView) -> Seq<char> {
    match l.action {
        Action::Exec => "exec "@ + l.command,
        Action::Break => "break"@,
        _ => action_name(l.action) + " "@ + l.hash + " "@ + l.comment,
    }
}

pub open spec fn has_no_space(t: Seq<char>) -> bool {
    forall|k: int| 0 <= k < t.len() ==> t[k] != ' '
}

/// The first space of `w + " " + rest` is the one after `w` when `w` has none.
pub proof fn lemma_first_space_after_word(w: Seq<char>, rest: Seq<char>, from: int)
    requires
        has_no_space(w),
        0 <= from <= w.len(),
    ensures
        first_space(w + " "@ + rest, from) == w.len(),
    decreases w.len() - from,
{
    reveal_strlit(" ");
    let t = w + " "@ + rest;
    if from < w.len() {
        assert(t[from] == w[from]);
        lemma_first_space_after_word(w, rest, from + 1);
    } else {
        assert(t[from] == ' ');
    }
}

/// The first space of a text without one is its end.
pub proof fn lemma_first_space_none(t: Seq<char>, from: int)
    requires
        has_no_space(t),
        0 <= from <= t.len(),
    ensures
        first_space(t, from) == t.len(),
    decreases t.len() - from,
{
    if from < t.len() {
        lemma_first_space_none(t, from + 1);
    }
}

/// What a step holds, as plain values.
pub struct LineView {
    pub action: Action,
    pub hash: Seq<char>,
    pub command: Seq<char>,
    pub comment: Seq<char>,
}

impl LineView {
    /// The fields a step holds agree with its action.
    pub open spec fn wf(self) -> bool {
        &&& self.action != Action::Exec ==> self.command.len() == 0
        &&& !is_commit_action(self.action) ==> self.hash.len() == 0 && self.comment.len() == 0
        &&& is_commit_action(self.action) ==> self.hash.len() > 0
    }

    /// The same step with another action and every other field kept.
    pub open spec fn with_action(self, a: Action) -> LineView {
        LineView { action: a, ..self }
    }

    /// The same step with another command and every other field kept.
    pub open spec fn with_command(self, c: Seq<char>) -> LineView {
        LineView { command: c, ..self }
    }
}

impl View for Line {
    type V = LineView;

    closed spec fn view(&self) -> LineView {
        LineView {
            action: self.action,
            hash: self.hash@,
            command: self.command@,
            comment: self.comment@,
        }
    }
}

impl Line {
    /// A step that applies a commit action to the commit `hash`.
    pub fn new_commit(action: Action, hash: &str, comment: &str) -> (r: Line)
        requires
            is_commit_action(action),
            hash@.len() > 0,
        ensures
            r@ == (LineView { action, hash: hash@, command: Seq::empty(), comment: comment@ }),
    {
        Line {
            action,
            hash: String::from_str(hash),
            command: String::new(),
            comment: String::from_str(comment),
        }
    }

    /// A step that runs `command`.
    pub fn new_exec(command: &str) -> (r: Line)
        ensures
            r@ == (LineView {
                action: Action::Exec,
                hash: Seq::empty(),
                command: command@,
                comment: Seq::empty(),
            }),
    {
        Line {
            action: Action::Exec,
            hash: String::new(),
            command: String::from_str(command),
            comment: String::new(),
        }
    }

    /// A step that stops the rebase.
    pub fn new_break() -> (r: Line)
        ensures
            r@ == (LineView {
                action: Action::Break,
                hash: Seq::empty(),
                command: Seq::empty(),
                comment: Seq::empty(),
            }),
    {
        Line {
            action: Action::Break,
            hash: String::new(),
            command: String::new(),
            comment: String::new(),
        }
    }

    /// Whether the fields agree with the action.
    pub fn is_valid(&self) -> (r: bool)
        ensures
            r == self@.wf(),
    {
        let no_command = match self.action {
            Action::Exec => true,
            _ => self.command.as_str().unicode_len() == 0,
        };
        let bare = if self.action.has_commit() {
            self.hash.as_str().unicode_len() > 0
        } else {
            self.hash.as_str().unicode_len() == 0 && self.comment.as_str().unicode_len() == 0
        };
        no_command && bare
    }

    pub fn get_action(&self) -> (r: Action)
        ensures
            r == self@.action,
    {
        self.action
    }

    pub fn get_hash(&self) -> (r: &String)
        ensures
            r@ == self@.hash,
    {
        &self.hash
    }

    pub fn get_command(&self) -> (r: &String)
        ensures
            r@ == self@.command,
    {
        &self.command
    }

    pub fn get_comment(&self) -> (r: &String)
        ensures
            r@ == self@.comment,
    {
        &self.comment
    }

    /// Changes the action between commit actions; any other change is refused
    /// and leaves the step as it was.
    pub fn set_action(&mut self, action: Action)
        ensures
            final(self)@ == if is_commit_action(old(self)@.action) && is_commit_action(action) {
                old(self)@.with_action(action)
            } else {
                old(self)@
            },
    {
        if self.action.has_commit() && action.has_commit() {
            self.action = action;
        }
    }

    /// Replaces the command of an `Exec` step; other steps are left as they were.
    pub fn edit_content(&mut self, content: &str)
        ensures
            final(self)@ == if old(self)@.action == Action::Exec {
                old(self)@.with_command(content@)
            } else {
                old(self)@
            },
    {
        if let Action::Exec = self.action {
            self.command = String::from_str(content);
        }
    }

    /// Reads one line of a plan file.
    pub fn new(input_line: &str) -> (r: Result<Line, String>)
        ensures
            match r {
                Ok(l) => parse_line(input_line@) == Some(l@),
                Err(_) => parse_line(input_line@) is None,
            },
    {
        let t = input_line;
        let n = t.unicode_len();
        let i = find_space(t, 0);
        let word = t.substring_char(0, i);
        let rest = if i < n { t.substring_char(i + 1, n) } else { t.substring_char(n, n) };
        assert(rest@ =~= after_word(t@));
        let action = match keyword(word) {
            Some(a) => a,
            None => return Err(invalid_line(t)),
        };
        match action {
            Action::Exec => Ok(Line::new_exec(rest)),
            Action::Break => if i == n {
                Ok(Line::new_break())
            } else {
                Err(invalid_line(t))
            },
            _ => {
                let m = rest.unicode_len();
                let j = find_space(rest, 0);
                if j == 0 {
                    return Err(invalid_line(t));
                }
                let hash = rest.substring_char(0, j);
                let comment = if j < m { rest.substring_char(j + 1, m) } else { rest.substring_char(m, m) };
                assert(comment@ =~= after_word(rest@));
                Ok(Line::new_commit(action, hash, comment))
            },
        }
    }

    /// The line of a plan file that describes this step.
    pub fn to_text(&self) -> (r: String)
        ensures
            r@ == line_text(self@),
    {
        match self.action {
            Action::Exec => {
                let mut r = String::from_str("exec ");
                r.append(self.command.as_str());
                r
            },
            Action::Break => String::from_str("break"),
            _ => {
                let mut r = String::from_str(self.action.as_string());
                r.append(" ");
                r.append(self.hash.as_str());
                r.append(" ");
                r.append(self.comment.as_str());
                r
            },
        }
    }
}

/// The message of a line that names no step.
fn invalid_line(t: &str) -> (r: String) {
    let mut r = String::from_str("Invalid line: ");
    r.append(t);
    r
}

/// Index of the first space of `t` at or after `from`, or its length.
fn find_space(t: &str, from: usize) -> (r: usize)
    requires
        from <= t@.len(),
    ensures
        r == first_space(t@, from as int),
        from <= r <= t@.len(),
{
    let n = t.unicode_len();
    let mut i = from;
    while i < n
        invariant
            from <= i <= n,
            n == t@.len(),
            first_space(t@, from as int) == first_space(t@, i as int),
        decreases n - i,
    {
        if t.get_char(i) == ' ' {
            return i;
        }
        i = i + 1;
    }
    i
}

/// Whether two texts are equal, character for character.
fn same_text(a: &str, b: &str) -> (r: bool)
    ensures
        r == (a@ == b@),
{
    let n = a.unicode_len();
    if n != b.unicode_len() {
        return false;
    }
    let mut i: usize = 0;
    while i < n
        invariant
            i <= n,
            n == a@.len(),
            n == b@.len(),
            forall|k: int| 0 <= k < i ==> a@[k] == b@[k],
        decreases n - i,
    {
        if a.get_char(i) != b.get_char(i) {
            return false;
        }
        i = i + 1;
    }
    assert(a@ =~= b@);
    true
}

/// The action that a keyword names.
fn keyword(w: &str) -> (r: Option<Action>)
    ensures
        r == keyword_action(w@),
{
    if same_text(w, "pick") || same_text(w, "p") {
        Some(Action::Pick)
    } else if same_text(w, "reword") || same_text(w, "r") {
        Some(Action::Reword)
    } else if same_text(w, "edit") || same_text(w, "e") {
        Some(Action::Edit)
    } else if same_text(w, "squash") || same_text(w, "s") {
        Some(Action::Squash)
    } else if same_text(w, "fixup") || same_text(w, "f") {
        Some(Action::Fixup)
    } else if same_text(w, "drop") || same_text(w, "d") {
        Some(Action::Drop)
    } else if same_text(w, "exec") || same_text(w, "x") {
        Some(Action::Exec)
    } else if same_text(w, "break") || same_text(w, "b") {
        Some(Action::Break)
    } else {
        None
    }
}

/// Reading back the line written for a step gives that step, for every
/// well-formed step whose hash is a single non-empty word.
pub proof fn lemma_line_round_trip(l: LineView)
    requires
        l.wf(),
        is_commit_action(l.action) ==> l.hash.len() > 0 && has_no_space(l.hash),
    ensures
        parse_line(line_text(l)) == Some(l),
{
    reveal_strlit("exec");
    reveal_strlit("break");
    reveal_strlit("pick");
    reveal_strlit("reword");
    reveal_strlit("edit");
    reveal_strlit("squash");
    reveal_strlit("fixup");
    reveal_strlit("drop");
    reveal_strlit(" ");
    reveal_strlit("exec ");
    reveal_strlit("p");
    reveal_strlit("r");
    reveal_strlit("e");
    reveal_strlit("s");
    reveal_strlit("f");
    reveal_strlit("d");
    reveal_strlit("x");
    reveal_strlit("b");
    let t = line_text(l);
    match l.action {
        Action::Exec => {
            lemma_first_space_after_word("exec"@, l.command, 0);
            assert("exec"@[0] != "pick"@[0]);
            assert("exec"@[1] != "edit"@[1]);
            assert("exec"@[0] != "drop"@[0]);
            assert(keyword_action("exec"@) == Some(Action::Exec));
            assert("exec "@ =~= "exec"@ + " "@);
            assert(t =~= "exec"@ + " "@ + l.command);
            assert(t.take(4) =~= "exec"@);
            assert(after_word(t) =~= l.command);
            assert(l.hash =~= Seq::<char>::empty());
            assert(l.comment =~= Seq::<char>::empty());
        },
        Action::Break => {
            lemma_first_space_none("break"@, 0);
            assert(t.take(5) =~= "break"@);
            assert(l.hash =~= Seq::<char>::empty());
            assert(l.command =~= Seq::<char>::empty());
            assert(l.comment =~= Seq::<char>::empty());
        },
        _ => {
            let name = action_name(l.action);
            let rest = l.hash + " "@ + l.comment;
            assert(t =~= name + " "@ + rest);
            lemma_first_space_after_word(name, rest, 0);
            lemma_first_space_after_word(l.hash, l.comment, 0);
            assert(t.take(name.len() as int) =~= name);
            assert(after_word(t) =~= rest);
            assert(rest.take(l.hash.len() as int) =~= l.hash);
            assert(after_word(rest) =~= l.comment);
            assert(l.command =~= Seq::<char>::empty());
        },
    }
}

} // verus!
