use vstd::prelude::*;

use crate::action::{is_commit_action, Action};
use crate::line::{has_no_space, lemma_line_round_trip, line_text, parse_line, Line, LineView};

verus! {

/// The plan as plain values: its steps, the selected index and the anchor of
/// the visual range, if one is active.
pub struct PlanView {
    pub steps: Seq<LineView>,
    pub selected: int,
    pub anchor: Option<int>,
}

pub open spec fn min_int(a: int, b: int) -> int {
    if a <= b { a } else { b }
}

pub open spec fn max_int(a: int, b: int) -> int {
    if a >= b { a } else { b }
}

impl PlanView {
    pub open spec fn len(self) -> int {
        self.steps.len() as int
    }

    /// The selection lies in the plan, and so does the anchor; an empty plan
    /// selects index 0 and has no anchor.
    pub open spec fn wf(self) -> bool {
        &&& self.len() == 0 ==> self.selected == 0 && self.anchor is None
        &&& self.len() > 0 ==> 0 <= self.selected < self.len()
        &&& self.len() > 0 ==> match self.anchor {
            Some(a) => 0 <= a < self.len(),
            None => true,
        }
        &&& forall|i: int| 0 <= i < self.len() ==> #[trigger] self.steps[i].wf()
    }

    /// First index of the active range: the selection alone when there is no anchor.
    pub open spec fn range_start(self) -> int {
        match self.anchor {
            Some(a) => min_int(a, self.selected),
            None => self.selected,
        }
    }

    /// Last index of the active range.
    pub open spec fn range_end(self) -> int {
        match self.anchor {
            Some(a) => max_int(a, self.selected),
            None => self.selected,
        }
    }

    pub open spec fn in_range(self, i: int) -> bool {
        self.range_start() <= i <= self.range_end()
    }

    /// The selection moved toward the start by `amount`, stopping at the first step.
    pub open spec fn moved_up(self, amount: int) -> PlanView {
        PlanView { selected: max_int(self.selected - amount, 0), ..self }
    }

    /// The selection moved toward the end by `amount`, stopping at the last step.
    pub open spec fn moved_down(self, amount: int) -> PlanView {
        PlanView {
            selected: if self.len() == 0 { 0 } else { min_int(self.selected + amount, self.len() - 1) },
            ..self
        }
    }

    pub open spec fn range_started(self) -> PlanView {
        PlanView { anchor: Some(self.selected), ..self }
    }

    pub open spec fn range_cleared(self) -> PlanView {
        PlanView { anchor: None, ..self }
    }

    /// `a` applied to every step of the active range where both the old and
    /// the new action are commit actions.
    pub open spec fn with_range_action(self, a: Action) -> PlanView {
        PlanView {
            steps: Seq::new(
                self.steps.len(),
                |i: int|
                    if self.in_range(i) && is_commit_action(self.steps[i].action)
                        && is_commit_action(a) {
                        self.steps[i].with_action(a)
                    } else {
                        self.steps[i]
                    },
            ),
            ..self
        }
    }

    /// The active range moved one place toward the end, unless it ends at the
    /// last step; selection and anchor move with it.
    pub open spec fn swapped_down(self) -> PlanView {
        let lo = self.range_start();
        let hi = self.range_end();
        if hi + 1 < self.len() {
            PlanView {
                steps: self.steps.subrange(0, lo) + seq![self.steps[hi + 1]]
                    + self.steps.subrange(lo, hi + 1) + self.steps.subrange(hi + 2, self.len()),
                selected: self.selected + 1,
                anchor: match self.anchor {
                    Some(a) => Some(a + 1),
                    None => None,
                },
            }
        } else {
            self
        }
    }

    /// The active range moved one place toward the start, unless it begins at
    /// the first step; selection and anchor move with it.
    pub open spec fn swapped_up(self) -> PlanView {
        let lo = self.range_start();
        let hi = self.range_end();
        if lo > 0 && self.len() > 0 {
            PlanView {
                steps: self.steps.subrange(0, lo - 1) + self.steps.subrange(lo, hi + 1)
                    + seq![self.steps[lo - 1]] + self.steps.subrange(hi + 1, self.len()),
                selected: self.selected - 1,
                anchor: match self.anchor {
                    Some(a) => Some(a - 1),
                    None => None,
                },
            }
        } else {
            self
        }
    }
}

/// The step that `toggle_break` inserts.
pub open spec fn break_step() -> LineView {
    LineView {
        action: Action::Break,
        hash: Seq::empty(),
        command: Seq::empty(),
        comment: Seq::empty(),
    }
}

impl PlanView {
    /// A selected `Break` step removed (the selection moves to the step before
    /// it, if any), or a `Break` inserted after the selected step and selected.
    /// The anchor is dropped either way; an empty plan stays as it is.
    pub open spec fn break_toggled(self) -> PlanView {
        if self.len() == 0 {
            self
        } else if self.steps[self.selected].action == Action::Break {
            PlanView {
                steps: self.steps.remove(self.selected),
                selected: if self.selected > 0 { self.selected - 1 } else { 0 },
                anchor: None,
            }
        } else {
            PlanView {
                steps: self.steps.insert(self.selected + 1, break_step()),
                selected: self.selected + 1,
                anchor: None,
            }
        }
    }

    /// The command of the selected step replaced, where that step is an `Exec`.
    pub open spec fn command_edited(self, c: Seq<char>) -> PlanView {
        if self.len() > 0 && self.steps[self.selected].action == Action::Exec {
            PlanView {
                steps: self.steps.update(self.selected, self.steps[self.selected].with_command(c)),
                ..self
            }
        } else {
            self
        }
    }
}

/// The plan: ordered steps, a selection and an optional visual-range anchor.
pub struct Plan {
    lines: Vec<Line>,
    selected_index: usize,
    visual_index_start: Option<usize>,
}

pub open spec fn line_views(lines: Seq<Line>) -> Seq<LineView> {
    lines.map_values(|l: Line| l@)
}

impl View for Plan {
    type V = PlanView;

    closed spec fn view(&self) -> PlanView {
        PlanView {
            steps: line_views(self.lines@),
            selected: self.selected_index as int,
            anchor: match self.visual_index_start {
                Some(a) => Some(a as int),
                None => None,
            },
        }
    }
}

impl Plan {
    /// A plan of `lines` with the first step selected and no range.
    pub fn new(lines: Vec<Line>) -> (r: Plan)
        requires
            forall|i: int| 0 <= i < lines@.len() ==> #[trigger] lines@[i]@.wf(),
        ensures
            r@.wf(),
            r@ == (PlanView { steps: line_views(lines@), selected: 0, anchor: None }),
    {
        let r = Plan { lines, selected_index: 0, visual_index_start: None };
        assert(r@.wf());
        r
    }

    pub fn len(&self) -> (r: usize)
        ensures
            r == self@.len(),
    {
        self.lines.len()
    }

    pub fn is_empty(&self) -> (r: bool)
        ensures
            r == (self@.len() == 0),
    {
        self.lines.len() == 0
    }

    pub fn get_lines(&self) -> (r: &Vec<Line>)
        ensures
            line_views(r@) == self@.steps,
    {
        &self.lines
    }

    pub fn get_selected_line_index(&self) -> (r: usize)
        ensures
            r == self@.selected,
    {
        self.selected_index
    }

    pub fn get_visual_start_index(&self) -> (r: Option<usize>)
        ensures
            match r {
                Some(a) => self@.anchor == Some(a as int),
                None => self@.anchor is None,
            },
    {
        self.visual_index_start
    }

    /// The selected step.
    pub fn get_selected_line(&self) -> (r: &Line)
        requires
            self@.wf(),
            self@.len() > 0,
        ensures
            r@ == self@.steps[self@.selected],
    {
        &self.lines[self.selected_index]
    }

    /// First index of the active range.
    pub fn range_start(&self) -> (r: usize)
        requires
            self@.wf(),
        ensures
            r == self@.range_start(),
    {
        match self.visual_index_start {
            Some(a) => if a < self.selected_index { a } else { self.selected_index },
            None => self.selected_index,
        }
    }

    /// Last index of the active range.
    pub fn range_end(&self) -> (r: usize)
        requires
            self@.wf(),
        ensures
            r == self@.range_end(),
    {
        match self.visual_index_start {
            Some(a) => if a > self.selected_index { a } else { self.selected_index },
            None => self.selected_index,
        }
    }

    pub fn move_cursor_up(&mut self, amount: usize)
        requires
            old(self)@.wf(),
        ensures
            final(self)@ == old(self)@.moved_up(amount as int),
            final(self)@.wf(),
    {
        self.selected_index = if amount >= self.selected_index {
            0
        } else {
            self.selected_index - amount
        };
    }

    pub fn move_cursor_down(&mut self, amount: usize)
        requires
            old(self)@.wf(),
        ensures
            final(self)@ == old(self)@.moved_down(amount as int),
            final(self)@.wf(),
    {
        let len = self.lines.len();
        if len == 0 {
            self.selected_index = 0;
        } else if amount >= len - 1 - self.selected_index {
            self.selected_index = len - 1;
        } else {
            self.selected_index = self.selected_index + amount;
        }
    }

    /// Anchors a visual range at the selection.
    pub fn start_visual_mode(&mut self)
        requires
            old(self)@.wf(),
            old(self)@.len() > 0,
        ensures
            final(self)@ == old(self)@.range_started(),
            final(self)@.wf(),
    {
        self.visual_index_start = Some(self.selected_index);
    }

    /// Drops the visual range.
    pub fn end_visual_mode(&mut self)
        requires
            old(self)@.wf(),
        ensures
            final(self)@ == old(self)@.range_cleared(),
            final(self)@.wf(),
    {
        self.visual_index_start = None;
    }

    /// Removes every step.
    pub fn clear(&mut self)
        ensures
            final(self)@ == (PlanView { steps: Seq::empty(), selected: 0, anchor: None }),
            final(self)@.wf(),
    {
        self.lines = Vec::new();
        self.selected_index = 0;
        self.visual_index_start = None;
        assert(self@.steps =~= Seq::empty());
    }

    /// Applies `action` to every step of the active range, as one change.
    pub fn set_range_action(&mut self, action: Action)
        requires
            old(self)@.wf(),
        ensures
            final(self)@ == old(self)@.with_range_action(action),
            final(self)@.wf(),
    {
        let ghost old_view = self@;
        if self.lines.len() == 0 {
            assert(self@.steps =~= old_view.with_range_action(action).steps);
            return;
        }
        let lo = self.range_start();
        let hi = self.range_end();
        let mut i: usize = lo;
        while i <= hi
            invariant
                old_view.wf(),
                old_view.len() > 0,
                lo == old_view.range_start(),
                hi == old_view.range_end(),
                lo <= i <= hi + 1,
                hi < self.lines.len(),
                self.lines@.len() == old_view.len(),
                self.selected_index == old_view.selected,
                self@.anchor == old_view.anchor,
                forall|j: int|
                    0 <= j < old_view.len() ==> #[trigger] self.lines@[j]@ == if lo <= j < i {
                        old_view.with_range_action(action).steps[j]
                    } else {
                        old_view.steps[j]
                    },
            decreases hi + 1 - i,
        {
            let mut line = self.lines.remove(i);
            line.set_action(action);
            self.lines.insert(i, line);
            i = i + 1;
        }
        assert(self@.steps =~= old_view.with_range_action(action).steps);
        assert forall|j: int| 0 <= j < self@.len() implies #[trigger] self@.steps[j].wf() by {
            assert(old_view.steps[j].wf());
        }
    }

    /// Moves the active range one step toward the end.
    pub fn swap_range_down(&mut self)
        requires
            old(self)@.wf(),
        ensures
            final(self)@ == old(self)@.swapped_down(),
            final(self)@.wf(),
    {
        let ghost old_view = self@;
        if self.lines.len() == 0 {
            return;
        }
        let lo = self.range_start();
        let hi = self.range_end();
        if hi + 1 < self.lines.len() {
            let moved = self.lines.remove(hi + 1);
            self.lines.insert(lo, moved);
            self.selected_index = self.selected_index + 1;
            self.visual_index_start = match self.visual_index_start {
                Some(a) => Some(a + 1),
                None => None,
            };
            let ghost want = old_view.swapped_down();
            assert(self@.steps =~= want.steps);
            assert forall|j: int| 0 <= j < self@.len() implies #[trigger] self@.steps[j].wf() by {
                if j < lo {
                    assert(old_view.steps[j].wf());
                } else if j == lo {
                    assert(old_view.steps[hi + 1].wf());
                } else if j <= hi + 1 {
                    assert(old_view.steps[j - 1].wf());
                } else {
                    assert(old_view.steps[j].wf());
                }
            }
        }
    }

    /// Moves the active range one step toward the start.
    pub fn swap_range_up(&mut self)
        requires
            old(self)@.wf(),
        ensures
            final(self)@ == old(self)@.swapped_up(),
            final(self)@.wf(),
    {
        let ghost old_view = self@;
        if self.lines.len() == 0 {
            return;
        }
        let lo = self.range_start();
        let hi = self.range_end();
        if lo > 0 {
            let moved = self.lines.remove(lo - 1);
            self.lines.insert(hi, moved);
            self.selected_index = self.selected_index - 1;
            self.visual_index_start = match self.visual_index_start {
                Some(a) => Some(a - 1),
                None => None,
            };
            let ghost want = old_view.swapped_up();
            assert(self@.steps =~= want.steps);
            assert forall|j: int| 0 <= j < self@.len() implies #[trigger] self@.steps[j].wf() by {
                if j < lo - 1 {
                    assert(old_view.steps[j].wf());
                } else if j < hi {
                    assert(old_view.steps[j + 1].wf());
                } else if j == hi {
                    assert(old_view.steps[lo - 1].wf());
                } else {
                    assert(old_view.steps[j].wf());
                }
            }
        }
    }

    /// Removes a selected `Break`, or inserts one after the selected step.
    pub fn toggle_break(&mut self)
        requires
            old(self)@.wf(),
        ensures
            final(self)@ == old(self)@.break_toggled(),
            final(self)@.wf(),
    {
        let ghost old_view = self@;
        if self.lines.len() == 0 {
            return;
        }
        let index = self.selected_index;
        if let Action::Break = self.lines[index].get_action() {
            self.lines.remove(index);
            if self.selected_index > 0 {
                self.selected_index = self.selected_index - 1;
            }
            self.visual_index_start = None;
            assert(self@.steps =~= old_view.steps.remove(index as int));
            assert forall|j: int| 0 <= j < self@.len() implies #[trigger] self@.steps[j].wf() by {
                if j < index {
                    assert(old_view.steps[j].wf());
                } else {
                    assert(old_view.steps[j + 1].wf());
                }
            }
        } else {
            self.lines.insert(index + 1, Line::new_break());
            self.selected_index = index + 1;
            self.visual_index_start = None;
            assert(self@.steps =~= old_view.steps.insert(index + 1, break_step()));
            assert forall|j: int| 0 <= j < self@.len() implies #[trigger] self@.steps[j].wf() by {
                if j <= index {
                    assert(old_view.steps[j].wf());
                } else if j > index + 1 {
                    assert(old_view.steps[j - 1].wf());
                }
            }
        }
    }

    /// Replaces the command of the selected step, where it is an `Exec`.
    pub fn edit_selected_line(&mut self, content: &str)
        requires
            old(self)@.wf(),
        ensures
            final(self)@ == old(self)@.command_edited(content@),
            final(self)@.wf(),
    {
        let ghost old_view = self@;
        if self.lines.len() == 0 {
            return;
        }
        let index = self.selected_index;
        let mut line = self.lines.remove(index);
        line.edit_content(content);
        self.lines.insert(index, line);
        assert(self@.steps =~= old_view.command_edited(content@).steps);
        assert forall|j: int| 0 <= j < self@.len() implies #[trigger] self@.steps[j].wf() by {
            assert(old_view.steps[j].wf());
        }
    }

    /// Replaces every step, as after the plan was loaded anew; the first step
    /// is selected and the range dropped.
    pub fn replace_lines(&mut self, lines: Vec<Line>)
        requires
            forall|i: int| 0 <= i < lines@.len() ==> #[trigger] lines@[i]@.wf(),
        ensures
            final(self)@ == (PlanView { steps: line_views(lines@), selected: 0, anchor: None }),
            final(self)@.wf(),
    {
        self.lines = lines;
        self.selected_index = 0;
        self.visual_index_start = None;
    }
}

/// The plan after a sequence of cursor moves: a positive entry moves toward
/// the end by that many steps, a negative one toward the start.
pub open spec fn after_moves(p: PlanView, moves: Seq<int>) -> PlanView
    decreases moves.len(),
{
    if moves.len() == 0 {
        p
    } else {
        let q = after_moves(p, moves.drop_last());
        let m = moves.last();
        if m >= 0 {
            q.moved_down(m)
        } else {
            q.moved_up(-m)
        }
    }
}

/// Whatever cursor moves are made, the plan stays well formed and the
/// selection stays on a step of a non-empty plan; the steps never change.
pub proof fn lemma_moves_keep_selection(p: PlanView, moves: Seq<int>)
    requires
        p.wf(),
    ensures
        after_moves(p, moves).wf(),
        after_moves(p, moves).steps == p.steps,
        p.len() > 0 ==> 0 <= after_moves(p, moves).selected <= p.len() - 1,
    decreases moves.len(),
{
    if moves.len() > 0 {
        lemma_moves_keep_selection(p, moves.drop_last());
    }
}

/// In a plan of one step, moving the step up or down changes nothing.
pub proof fn lemma_single_step_swaps_change_nothing(p: PlanView)
    requires
        p.wf(),
        p.len() == 1,
    ensures
        p.swapped_up() == p,
        p.swapped_down() == p,
{
}

/// Entering and leaving the visual range without a move in between gives
/// back the plan as it was.
pub proof fn lemma_range_toggle_round_trip(p: PlanView)
    requires
        p.wf(),
        p.anchor is None,
    ensures
        p.range_started().range_cleared() == p,
{
}

/// A line of a plan file that holds no step: an empty one or a comment.
pub open spec fn is_skipped(t: Seq<char>, comment_char: char) -> bool {
    t.len() == 0 || t[0] == comment_char
}

/// The steps that the lines of a plan file describe, comments and empty
/// lines left out; `None` if any other line names no step.
pub open spec fn parse_lines(ls: Seq<Seq<char>>, comment_char: char) -> Option<Seq<LineView>>
    decreases ls.len(),
{
    if ls.len() == 0 {
        Some(Seq::empty())
    } else {
        match parse_lines(ls.drop_last(), comment_char) {
            None => None,
            Some(steps) => if is_skipped(ls.last(), comment_char) {
                Some(steps)
            } else {
                match parse_line(ls.last()) {
                    None => None,
                    Some(l) => Some(steps.push(l)),
                }
            },
        }
    }
}

/// The text of a plan file: one line per step, each ended by a newline.
pub open spec fn plan_text(steps: Seq<LineView>) -> Seq<char>
    decreases steps.len(),
{
    if steps.len() == 0 {
        Seq::empty()
    } else {
        plan_text(steps.drop_last()) + line_text(steps.last()) + "\n"@
    }
}

/// Reads the steps of a plan file given as its lines; lines that are empty
/// or start with `comment_char` are left out.
pub fn read_lines(lines: &Vec<String>, comment_char: char) -> (r: Result<Vec<Line>, String>)
    ensures
        match r {
            Ok(v) => parse_lines(lines@.map_values(|s: String| s@), comment_char) == Some(
                line_views(v@),
            ),
            Err(_) => parse_lines(lines@.map_values(|s: String| s@), comment_char) is None,
        },
{
    let ghost ls = lines@.map_values(|s: String| s@);
    let mut r: Vec<Line> = Vec::new();
    let mut i: usize = 0;
    while i < lines.len()
        invariant
            i <= lines@.len(),
            ls == lines@.map_values(|s: String| s@),
            parse_lines(ls.take(i as int), comment_char) == Some(line_views(r@)),
        decreases lines@.len() - i,
    {
        assert(ls.take(i as int + 1).drop_last() =~= ls.take(i as int));
        let t = lines[i].as_str();
        let skipped = t.unicode_len() == 0 || t.get_char(0) == comment_char;
        if !skipped {
            match Line::new(t) {
                Ok(l) => {
                    let ghost before = r@;
                    r.push(l);
                    assert(line_views(r@) =~= line_views(before).push(l@));
                },
                Err(e) => {
                    proof {
                        lemma_parse_lines_fails(ls, comment_char, i as int + 1);
                    }
                    return Err(e);
                },
            }
        }
        i = i + 1;
    }
    assert(ls.take(i as int) =~= ls);
    Ok(r)
}

/// Once a prefix of the lines fails to read, the whole fails.
proof fn lemma_parse_lines_fails(ls: Seq<Seq<char>>, comment_char: char, k: int)
    requires
        0 <= k <= ls.len(),
        parse_lines(ls.take(k), comment_char) is None,
    ensures
        parse_lines(ls, comment_char) is None,
    decreases ls.len() - k,
{
    if k < ls.len() {
        assert(ls.take(k + 1).drop_last() =~= ls.take(k));
        lemma_parse_lines_fails(ls, comment_char, k + 1);
    } else {
        assert(ls.take(k) =~= ls);
    }
}

impl Plan {
    /// The text of the plan file for the steps.
    pub fn write_text(&self) -> (r: String)
        ensures
            r@ == plan_text(self@.steps),
    {
        let ghost steps = self@.steps;
        let mut r = String::new();
        let mut i: usize = 0;
        while i < self.lines.len()
            invariant
                i <= self.lines@.len(),
                steps == self@.steps,
                steps.len() == self.lines@.len(),
                r@ == plan_text(steps.take(i as int)),
            decreases self.lines@.len() - i,
        {
            assert(steps.take(i as int + 1).drop_last() =~= steps.take(i as int));
            let t = self.lines[i].to_text();
            r.append(t.as_str());
            r.append("\n");
            i = i + 1;
        }
        assert(steps.take(i as int) =~= steps);
        r
    }
}

/// Reading back the lines written for a plan gives its steps, in order,
/// when every hash is a single word and no line starts with the comment
/// character.
pub proof fn lemma_plan_round_trip(steps: Seq<LineView>, comment_char: char)
    requires
        forall|i: int| 0 <= i < steps.len() ==> #[trigger] steps[i].wf(),
        forall|i: int|
            0 <= i < steps.len() && is_commit_action(#[trigger] steps[i].action) ==> steps[i].hash.len()
                > 0 && has_no_space(steps[i].hash),
        forall|i: int| 0 <= i < steps.len() ==> #[trigger] line_text(steps[i])[0] != comment_char,
    ensures
        parse_lines(Seq::new(steps.len(), |i: int| line_text(steps[i])), comment_char) == Some(
            steps,
        ),
    decreases steps.len(),
{
    let ls = Seq::new(steps.len(), |i: int| line_text(steps[i]));
    if steps.len() > 0 {
        let init = steps.drop_last();
        assert forall|i: int| 0 <= i < init.len() implies #[trigger] init[i].wf() by {
            assert(steps[i].wf());
        }
        assert forall|i: int|
            0 <= i < init.len() && is_commit_action(#[trigger] init[i].action) implies init[i].hash.len()
                > 0 && has_no_space(init[i].hash) by {
            assert(steps[i] == init[i]);
        }
        assert forall|i: int| 0 <= i < init.len() implies #[trigger] line_text(init[i])[0]
            != comment_char by {
            assert(steps[i] == init[i]);
        }
        lemma_plan_round_trip(init, comment_char);
        assert(ls.drop_last() =~= Seq::new(init.len(), |i: int| line_text(init[i])));
        let last = steps.last();
        assert(last == steps[steps.len() - 1]);
        assert(last.wf());
        assert(line_text(last)[0] != comment_char);
        lemma_line_round_trip(last);
        reveal_strlit("exec ");
        reveal_strlit("break");
        assert(line_text(last).len() > 0);
        assert(init.push(last) =~= steps);
    } else {
        assert(ls =~= Seq::<Seq<char>>::empty());
    }
}

} // verus!
