use vstd::prelude::*;
use vstd::view::View as Viewable;

use crate::action::{action_abbreviation, action_name, is_commit_action, Action};
use crate::edit_buffer::{cluster_views, joined};
use crate::line::{Line, LineView};
use crate::plan::line_views;
use crate::scroll::{content_height, cursor_top, clamp_top, ScrollPosition};

verus! {

pub const TITLE: &'static str = "Git Interactive Rebase Tool";
pub const TITLE_LENGTH: usize = 27;
pub const TITLE_SHORT: &'static str = "Git Rebase";
pub const TITLE_SHORT_LENGTH: usize = 10;
pub const TITLE_HELP_INDICATOR: &'static str = "Help: ?";
pub const TITLE_HELP_INDICATOR_LENGTH: usize = 7;
pub const MINIMUM_WINDOW_HEIGHT: usize = 5;
pub const MINIMUM_COMPACT_WINDOW_WIDTH: usize = 20;
pub const MINIMUM_FULL_WINDOW_WIDTH: usize = 34;
pub const SHORT_ERROR_MESSAGE: &'static str = "Window too small";
pub const SHORT_ERROR_MESSAGE_WIDTH: usize = 16;
pub const HEIGHT_ERROR_MESSAGE: &'static str = "Window too small, increase height to continue\n";
pub const MINIMUM_WINDOW_HEIGHT_ERROR_WIDTH: usize = 45;
pub const VERTICAL_SPACE: &'static str = "~";
pub const CONFIRM_SUFFIX: &'static str = " (y/n)? ";
pub const HELP_HEADER: &'static str = " Key   Action";
pub const HELP_HEADER_WIDTH: usize = 13;
pub const HELP_FOOTER: &'static str = "Any key to close";
pub const EDIT_FOOTER: &'static str = "Enter to finish";
pub const TINY_ERROR_MESSAGE: &'static str = "Size!\n";
pub const CONTINUE_MESSAGE: &'static str = "Press any key to continue";
pub const EXITING_MESSAGE: &'static str = "Exiting...";
pub const LIST_FOOTER_FULL: &'static str = " up, down, q/Q, w/W, c, j, k, p, r, e, s, f, d, E, V, !, ?";
pub const LIST_FOOTER_FULL_WIDTH: usize = 58;
pub const LIST_FOOTER_COMPACT: &'static str = "up,dn,q/Q,w/W,c,j,k,p,r,e,s,f,d,E,V,!,?";
pub const LIST_FOOTER_COMPACT_WIDTH: usize = 39;
pub const LIST_FOOTER_MINIMAL: &'static str = "Help: ?";
pub const VISUAL_MODE_FOOTER_FULL: &'static str = "(VISUAL) up, down, j, k, p, r, e, s, f, d, ?";
pub const VISUAL_MODE_FOOTER_FULL_WIDTH: usize = 44;
pub const VISUAL_MODE_FOOTER_COMPACT: &'static str = "(VISUAL) up,dn,j,k,p,r,e,s,f,d,?";
pub const VISUAL_MODE_FOOTER_COMPACT_WIDTH: usize = 32;
pub const VISUAL_MODE_FOOTER_MINIMAL: &'static str = "(Visual) Help: ?";
/// Rows of the list screen that are not list: title and footer.
pub const MAIN_PADDING: usize = 2;
/// Rows of the help and commit screens that are not content.
pub const HELP_PADDING: usize = 3;

/// Colour classes of drawn text.
#[derive(Clone, Copy, Debug, PartialEq, Eq, Structural)]
pub enum WindowColor {
    ActionBreak,
    ActionDrop,
    ActionEdit,
    ActionExec,
    ActionFixup,
    ActionPick,
    ActionReword,
    ActionSquash,
    Foreground,
    IndicatorColor,
}

/// A run of text with the colour and style it is drawn in.
#[derive(Debug)]
pub struct Segment {
    pub text: String,
    pub color: WindowColor,
    pub dim: bool,
    pub underline: bool,
    pub reverse: bool,
}

/// A drawn run as plain values.
pub struct SegmentView {
    pub text: Seq<char>,
    pub color: WindowColor,
    pub dim: bool,
    pub underline: bool,
    pub reverse: bool,
}

impl Viewable for Segment {
    type V = SegmentView;

    open spec fn view(&self) -> SegmentView {
        SegmentView {
            text: self.text@,
            color: self.color,
            dim: self.dim,
            underline: self.underline,
            reverse: self.reverse,
        }
    }
}

pub open spec fn segment_views(s: Seq<Segment>) -> Seq<SegmentView> {
    s.map_values(|g: Segment| g@)
}

/// The text of a sequence of runs, in order.
pub open spec fn text_of(segs: Seq<SegmentView>) -> Seq<char>
    decreases segs.len(),
{
    if segs.len() == 0 {
        Seq::empty()
    } else {
        text_of(segs.drop_last()) + segs.last().text
    }
}

pub proof fn lemma_text_of_push(segs: Seq<SegmentView>, s: SegmentView)
    ensures
        text_of(segs.push(s)) == text_of(segs) + s.text,
{
    assert(segs.push(s).drop_last() =~= segs);
}

/// `n` spaces.
pub open spec fn blank(n: int) -> Seq<char> {
    Seq::new(if n > 0 { n as nat } else { 0 }, |i: int| ' ')
}

/// The title bar for a window `width` columns wide.
pub open spec fn title_text(width: int, show_help: bool) -> Seq<char> {
    if width >= TITLE_LENGTH {
        if width > TITLE_LENGTH + TITLE_HELP_INDICATOR_LENGTH {
            TITLE@ + blank(width - TITLE_LENGTH - TITLE_HELP_INDICATOR_LENGTH) + if show_help {
                TITLE_HELP_INDICATOR@
            } else {
                blank(TITLE_HELP_INDICATOR_LENGTH as int)
            }
        } else {
            TITLE@ + blank(width - TITLE_LENGTH)
        }
    } else {
        TITLE_SHORT@ + blank(width - TITLE_SHORT_LENGTH)
    }
}

/// What the window-size overlay says for a window of the given size.
pub open spec fn size_error_text(width: int, height: int) -> Seq<char> {
    if width <= MINIMUM_COMPACT_WINDOW_WIDTH {
        if width >= SHORT_ERROR_MESSAGE_WIDTH { SHORT_ERROR_MESSAGE@ } else { TINY_ERROR_MESSAGE@ }
    } else if height <= MINIMUM_WINDOW_HEIGHT {
        if width >= MINIMUM_WINDOW_HEIGHT_ERROR_WIDTH {
            HEIGHT_ERROR_MESSAGE@
        } else if width >= SHORT_ERROR_MESSAGE_WIDTH {
            SHORT_ERROR_MESSAGE@
        } else {
            TINY_ERROR_MESSAGE@
        }
    } else {
        Seq::empty()
    }
}

pub open spec fn list_footer_text(width: int) -> Seq<char> {
    if width >= LIST_FOOTER_FULL_WIDTH {
        LIST_FOOTER_FULL@
    } else if width >= LIST_FOOTER_COMPACT_WIDTH {
        LIST_FOOTER_COMPACT@
    } else {
        LIST_FOOTER_MINIMAL@
    }
}

pub open spec fn visual_mode_footer_text(width: int) -> Seq<char> {
    if width >= VISUAL_MODE_FOOTER_FULL_WIDTH {
        VISUAL_MODE_FOOTER_FULL@
    } else if width >= VISUAL_MODE_FOOTER_COMPACT_WIDTH {
        VISUAL_MODE_FOOTER_COMPACT@
    } else {
        VISUAL_MODE_FOOTER_MINIMAL@
    }
}

/// A window of the given size is large enough to work in.
pub open spec fn size_ok(width: int, height: int) -> bool {
    !(width <= MINIMUM_COMPACT_WINDOW_WIDTH || height <= MINIMUM_WINDOW_HEIGHT)
}

/// `t` cut or padded with spaces to exactly `w` characters.
pub open spec fn fit(t: Seq<char>, w: int) -> Seq<char> {
    if t.len() >= w { t.take(w) } else { t + blank(w - t.len()) }
}

/// `t` written `n` times.
pub open spec fn repeated(t: Seq<char>, n: int) -> Seq<char>
    decreases n,
{
    if n <= 0 { Seq::empty() } else { repeated(t, n - 1) + t }
}

/// One row of text as a view draws it: the row fitted to `w` columns, then
/// the scroll bar's cell if there is one.
pub open spec fn row_text(t: Seq<char>, w: int, bar: bool) -> Seq<char> {
    fit(t, w) + if bar { " "@ } else { Seq::empty() }
}

/// The rows `top .. top + k` of `rows`, as drawn.
pub open spec fn rows_text(rows: Seq<Seq<char>>, top: int, k: int, w: int, bar: bool) -> Seq<char>
    decreases k,
{
    if k <= 0 { Seq::empty() } else { rows_text(rows, top, k - 1, w, bar) + row_text(rows[top + k - 1], w, bar) }
}

/// How many rows a view of `height` rows from `top` shows of `length` rows.
pub open spec fn visible_rows(length: int, top: int, height: int) -> int {
    if top >= length { 0 } else if length - top < height { length - top } else { height }
}

/// The text of a view of `height` rows from `top` over `rows`, in a window
/// `width` columns wide: the visible rows, each with a scroll bar cell when
/// the rows do not all fit, then a mark for each row left empty.
pub open spec fn body_text(rows: Seq<Seq<char>>, top: int, height: int, width: int) -> Seq<char> {
    let bar = height < rows.len();
    rows_text(
        rows,
        top,
        visible_rows(rows.len() as int, top, height),
        if bar && width > 0 { width - 1 } else { width },
        bar,
    ) + repeated(
        spacer_row(width),
        if height > rows.len() { height - visible_rows(rows.len() as int, top, height) } else { 0 },
    )
}

/// The texts of a list of rows.
pub open spec fn row_texts(lines: Seq<ViewLine>) -> Seq<Seq<char>> {
    Seq::new(lines.len(), |i: int| lines[i].text())
}

/// The colour an action is drawn in.
pub open spec fn action_color(a: Action) -> WindowColor {
    match a {
        Action::Break => WindowColor::ActionBreak,
        Action::Drop => WindowColor::ActionDrop,
        Action::Edit => WindowColor::ActionEdit,
        Action::Exec => WindowColor::ActionExec,
        Action::Fixup => WindowColor::ActionFixup,
        Action::Pick => WindowColor::ActionPick,
        Action::Reword => WindowColor::ActionReword,
        Action::Squash => WindowColor::ActionSquash,
    }
}

pub open spec fn plain(text: Seq<char>, color: WindowColor) -> SegmentView {
    SegmentView { text, color, dim: false, underline: false, reverse: false }
}

/// The runs of one step of the list. `full` is a window wide enough for the
/// long layout; `is_cursor_line` marks the selected step and `selected` a
/// step of the visual range.
pub open spec fn todo_segments(l: LineView, full: bool, is_cursor_line: bool, selected: bool) -> Seq<
    SegmentView,
> {
    let on = is_cursor_line || selected;
    let mark = SegmentView {
        text: if full {
            if on { " > "@ } else { "   "@ }
        } else {
            if on { ">"@ } else { " "@ }
        },
        color: WindowColor::Foreground,
        dim: !is_cursor_line && selected,
        underline: false,
        reverse: false,
    };
    let act = plain(
        if full { fit(action_name(l.action), 6) + " "@ } else { action_abbreviation(l.action) + " "@ },
        action_color(l.action),
    );
    let detail = plain(
        if l.action == Action::Exec {
            l.command
        } else if l.action == Action::Break {
            blank(if full { 9 } else { 4 })
        } else {
            fit(l.hash, if full { 8 } else { 3 }) + " "@
        },
        WindowColor::Foreground,
    );
    if is_commit_action(l.action) {
        seq![mark, act, detail, plain(l.comment, WindowColor::Foreground)]
    } else {
        seq![mark, act, detail]
    }
}

/// Whether row `index` lies in the visual range from `start` to `selected`.
pub open spec fn in_visual_range(start: Option<usize>, selected: int, index: int) -> bool {
    match start {
        Some(v) => (v <= selected && v <= index <= selected) || (v > selected && selected <= index <= v),
        None => false,
    }
}

/// The texts of the list's rows.
pub open spec fn todo_rows(lines: Seq<LineView>, width: int, selected: int, start: Option<usize>) -> Seq<
    Seq<char>,
> {
    Seq::new(
        lines.len(),
        |i: int|
            text_of(
                todo_segments(
                    lines[i],
                    width >= MINIMUM_FULL_WINDOW_WIDTH,
                    selected == i,
                    in_visual_range(start, selected, i),
                ),
            ),
    )
}

/// The texts of the help rows.
pub open spec fn help_rows(lines: Seq<(&'static str, &'static str)>) -> Seq<Seq<char>> {
    Seq::new(lines.len(), |i: int| " "@ + fit(lines[i].0@, 4) + " "@ + lines[i].1@)
}

/// A run of `text` in the given colour and style.
pub open spec fn styled(text: Seq<char>, color: WindowColor, dim: bool, underline: bool, reverse: bool) -> SegmentView {
    SegmentView { text, color, dim, underline, reverse }
}

/// A run of `text` in the foreground colour, unstyled.
pub open spec fn normal(text: Seq<char>) -> SegmentView {
    styled(text, WindowColor::Foreground, false, false, false)
}

/// The runs of the title bar, all in the foreground colour, underlined and
/// reversed; their text is `title_text(width, show_help)`.
pub open spec fn title_segs(width: int, show_help: bool) -> Seq<SegmentView> {
    let t = |x: Seq<char>| styled(x, WindowColor::Foreground, false, true, true);
    if width >= TITLE_LENGTH {
        if width > TITLE_LENGTH + TITLE_HELP_INDICATOR_LENGTH {
            seq![
                t(TITLE@),
                t(blank(width - TITLE_LENGTH - TITLE_HELP_INDICATOR_LENGTH)),
                t(if show_help { TITLE_HELP_INDICATOR@ } else { blank(TITLE_HELP_INDICATOR_LENGTH as int) }),
            ]
        } else {
            seq![t(TITLE@), t(blank(width - TITLE_LENGTH))]
        }
    } else {
        seq![t(TITLE_SHORT@), t(blank(width - TITLE_SHORT_LENGTH))]
    }
}

/// A run cut to at most `room` characters.
pub open spec fn truncated(s: SegmentView, room: int) -> SegmentView {
    SegmentView { text: s.text.take(if s.text.len() <= room { s.text.len() as int } else { room }), ..s }
}

/// Columns the first `k` runs of `segs` fill in a row of `w` columns.
pub open spec fn used_columns(segs: Seq<SegmentView>, k: int, w: int) -> int {
    if text_of(segs.take(k)).len() >= w { w } else { text_of(segs.take(k)).len() as int }
}

/// The first `k` runs of `segs` as drawn into a row of `w` columns: each
/// cut to the room left, none once the row is full.
pub open spec fn cut_prefix(segs: Seq<SegmentView>, k: int, w: int) -> Seq<SegmentView>
    decreases k,
{
    if k <= 0 {
        Seq::empty()
    } else {
        let used = used_columns(segs, k - 1, w);
        if used < w {
            cut_prefix(segs, k - 1, w).push(truncated(segs[k - 1], w - used))
        } else {
            cut_prefix(segs, k - 1, w)
        }
    }
}

/// A row of runs as drawn into `w` columns: cut runs, then unstyled padding
/// when they fall short.
pub open spec fn line_segs(segs: Seq<SegmentView>, w: int) -> Seq<SegmentView> {
    let used = used_columns(segs, segs.len() as int, w);
    cut_prefix(segs, segs.len() as int, w) + if used < w {
        seq![normal(blank(w - used))]
    } else {
        Seq::empty()
    }
}

/// The scroll bar's cell: reversed, and dim unless it is the thumb.
pub open spec fn bar_cell(is_thumb: bool) -> SegmentView {
    styled(" "@, WindowColor::Foreground, !is_thumb, false, true)
}

/// The rows `top .. top + k` of `rows`, as drawn, with a bar cell after each
/// when `bar`; the thumb sits on row `thumb` of the view.
pub open spec fn rows_segs(rows: Seq<Seq<SegmentView>>, top: int, k: int, w: int, bar: bool, thumb: int) -> Seq<
    SegmentView,
>
    decreases k,
{
    if k <= 0 {
        Seq::empty()
    } else {
        rows_segs(rows, top, k - 1, w, bar, thumb) + line_segs(rows[top + k - 1], w) + if bar {
            seq![bar_cell(k - 1 == thumb)]
        } else {
            Seq::empty()
        }
    }
}

/// `n` empty-row marks, unstyled, in a window `width` columns wide.
pub open spec fn spacer_segs(n: int, width: int) -> Seq<SegmentView>
    decreases n,
{
    if n <= 0 {
        Seq::empty()
    } else {
        spacer_segs(n - 1, width) + seq![normal(VERTICAL_SPACE@), normal(blank(width - 1))]
    }
}

/// The runs of a view of `height` rows from `top` over `rows`.
pub open spec fn body_segs(rows: Seq<Seq<SegmentView>>, top: int, height: int, width: int) -> Seq<SegmentView> {
    let bar = height < rows.len();
    let shown = visible_rows(rows.len() as int, top, height);
    rows_segs(
        rows,
        top,
        shown,
        if bar && width > 0 { width - 1 } else { width },
        bar,
        crate::scroll::thumb_row(top, rows.len() as int, height),
    ) + if height > rows.len() { spacer_segs(height - shown, width) } else { Seq::empty() }
}

/// The runs of each of a list of rows.
pub open spec fn row_segs(lines: Seq<ViewLine>) -> Seq<Seq<SegmentView>> {
    Seq::new(lines.len(), |i: int| segment_views(lines[i].segments@))
}

/// The runs of the list's rows.
pub open spec fn todo_seg_rows(lines: Seq<LineView>, width: int, selected: int, start: Option<usize>) -> Seq<
    Seq<SegmentView>,
> {
    Seq::new(
        lines.len(),
        |i: int|
            todo_segments(
                lines[i],
                width >= MINIMUM_FULL_WINDOW_WIDTH,
                selected == i,
                in_visual_range(start, selected, i),
            ),
    )
}

/// The runs of the help rows: the key in the indicator colour, then what it does.
pub open spec fn help_seg_rows(lines: Seq<(&'static str, &'static str)>) -> Seq<Seq<SegmentView>> {
    Seq::new(
        lines.len(),
        |i: int|
            seq![
                plain(" "@ + fit(lines[i].0@, 4) + " "@, WindowColor::IndicatorColor),
                plain(lines[i].1@, WindowColor::Foreground),
            ],
    )
}

/// The runs of plain rows of text.
pub open spec fn text_seg_rows(lines: Seq<Seq<char>>) -> Seq<Seq<SegmentView>> {
    Seq::new(lines.len(), |i: int| seq![normal(lines[i])])
}

/// The first `k` clusters of text under edit, the one at `pointer` underlined.
pub open spec fn edit_segs(parts: Seq<Seq<char>>, k: int, pointer: int) -> Seq<SegmentView>
    decreases k,
{
    if k <= 0 {
        Seq::empty()
    } else {
        edit_segs(parts, k - 1, pointer).push(
            styled(parts[k - 1], WindowColor::Foreground, false, k - 1 == pointer, false),
        )
    }
}

/// The mark of one empty row in a window `width` columns wide.
pub open spec fn spacer_row(width: int) -> Seq<char> {
    VERTICAL_SPACE@ + blank(width - 1)
}

/// `n` spaces.
pub fn spaces(n: usize) -> (r: String)
    ensures
        r@ == blank(n as int),
{
    let mut r = String::new();
    let mut i: usize = 0;
    while i < n
        invariant
            i <= n,
            r@ == blank(i as int),
        decreases n - i,
    {
        proof {
            reveal_strlit(" ");
        }
        r.append(" ");
        i = i + 1;
        assert(r@ =~= blank(i as int));
    }
    r
}

/// `s` cut or padded with spaces to exactly `n` characters.
pub fn fitted(s: &str, n: usize) -> (r: String)
    ensures
        r@ == fit(s@, n as int),
{
    let len = s.unicode_len();
    if len >= n {
        let r = String::from_str(s.substring_char(0, n));
        assert(r@ =~= fit(s@, n as int));
        r
    } else {
        let mut r = String::from_str(s);
        let padding = spaces(n - len);
        r.append(padding.as_str());
        r
    }
}

/// A run of `text` in `color`, unstyled.
pub fn plain_segment(text: &str, color: WindowColor) -> (r: Segment)
    ensures
        r@ == plain(text@, color),
{
    Segment { text: String::from_str(text), color, dim: false, underline: false, reverse: false }
}

/// One row of runs.
pub struct ViewLine {
    pub segments: Vec<Segment>,
}

impl ViewLine {
    /// The text of the row.
    pub open spec fn text(&self) -> Seq<char> {
        text_of(segment_views(self.segments@))
    }
}

/// A frame under construction: the runs drawn since the last clear, the pen
/// they are drawn with, the window size, and the scroll positions of the
/// list, help and commit views.
pub struct View {
    width: usize,
    height: usize,
    color: WindowColor,
    dim: bool,
    underline: bool,
    reverse: bool,
    frame: Vec<Segment>,
    main_top: ScrollPosition,
    help_top: ScrollPosition,
    commit_top: ScrollPosition,
}

impl View {
    pub closed spec fn width_spec(&self) -> int {
        self.width as int
    }

    pub closed spec fn height_spec(&self) -> int {
        self.height as int
    }

    pub closed spec fn frame_spec(&self) -> Seq<SegmentView> {
        segment_views(self.frame@)
    }

    /// Colour and style that the next run is drawn with.
    pub closed spec fn pen(&self) -> (WindowColor, bool, bool, bool) {
        (self.color, self.dim, self.underline, self.reverse)
    }

    pub closed spec fn main_top_spec(&self) -> int {
        self.main_top.top_spec()
    }

    pub closed spec fn help_top_spec(&self) -> int {
        self.help_top.top_spec()
    }

    pub closed spec fn commit_top_spec(&self) -> int {
        self.commit_top.top_spec()
    }

    pub closed spec fn wf(&self) -> bool {
        &&& self.main_top.padding_spec() == MAIN_PADDING
        &&& self.help_top.padding_spec() == HELP_PADDING
        &&& self.commit_top.padding_spec() == HELP_PADDING
    }

    /// The text drawn since the last clear.
    pub open spec fn text(&self) -> Seq<char> {
        text_of(self.frame_spec())
    }

    /// Size and scroll positions agree.
    pub open spec fn same_layout(&self, other: &View) -> bool {
        &&& self.width_spec() == other.width_spec()
        &&& self.height_spec() == other.height_spec()
        &&& self.main_top_spec() == other.main_top_spec()
        &&& self.help_top_spec() == other.help_top_spec()
        &&& self.commit_top_spec() == other.commit_top_spec()
        &&& self.wf() == other.wf()
    }

    /// Nothing but the pen and the runs after the first `n` changed.
    pub open spec fn draws_after(&self, before: &View) -> bool {
        &&& self.same_layout(before)
        &&& self.frame_spec().len() >= before.frame_spec().len()
        &&& self.frame_spec().subrange(0, before.frame_spec().len() as int)
            == before.frame_spec()
    }

    /// An empty frame for a window `width` columns wide and `height` rows high.
    pub fn new(width: usize, height: usize) -> (r: View)
        ensures
            r.wf(),
            r.width_spec() == width,
            r.height_spec() == height,
            r.frame_spec().len() == 0,
            r.pen() == (WindowColor::Foreground, false, false, false),
            r.main_top_spec() == 0,
            r.help_top_spec() == 0,
            r.commit_top_spec() == 0,
    {
        View {
            width,
            height,
            color: WindowColor::Foreground,
            dim: false,
            underline: false,
            reverse: false,
            frame: Vec::new(),
            main_top: ScrollPosition::new(MAIN_PADDING),
            help_top: ScrollPosition::new(HELP_PADDING),
            commit_top: ScrollPosition::new(HELP_PADDING),
        }
    }

    /// Takes the size the window now has.
    pub fn resize(&mut self, width: usize, height: usize)
        ensures
            final(self).width_spec() == width,
            final(self).height_spec() == height,
            final(self).frame_spec() == old(self).frame_spec(),
            final(self).pen() == old(self).pen(),
            final(self).main_top_spec() == old(self).main_top_spec(),
            final(self).help_top_spec() == old(self).help_top_spec(),
            final(self).commit_top_spec() == old(self).commit_top_spec(),
            final(self).wf() == old(self).wf(),
    {
        self.width = width;
        self.height = height;
    }

    /// Appends `s` in the current pen.
    pub fn draw_str(&mut self, s: &str)
        ensures
            final(self).frame_spec() == old(self).frame_spec().push(
                SegmentView {
                    text: s@,
                    color: old(self).pen().0,
                    dim: old(self).pen().1,
                    underline: old(self).pen().2,
                    reverse: old(self).pen().3,
                },
            ),
            final(self).text() == old(self).text() + s@,
            final(self).pen() == old(self).pen(),
            final(self).draws_after(old(self)),
    {
        let ghost before = self.frame_spec();
        let seg = Segment {
            text: String::from_str(s),
            color: self.color,
            dim: self.dim,
            underline: self.underline,
            reverse: self.reverse,
        };
        self.frame.push(seg);
        assert(self.frame_spec() =~= before.push(seg@));
        assert(self.frame_spec().subrange(0, before.len() as int) =~= before);
        proof {
            lemma_text_of_push(before, seg@);
        }
    }

    pub fn set_color(&mut self, color: WindowColor)
        ensures
            final(self).pen() == (color, old(self).pen().1, old(self).pen().2, old(self).pen().3),
            final(self).frame_spec() == old(self).frame_spec(),
            final(self).same_layout(old(self)),
    {
        self.color = color;
    }

    pub fn set_style(&mut self, dim: bool, underline: bool, reverse: bool)
        ensures
            final(self).pen() == (old(self).pen().0, dim, underline, reverse),
            final(self).frame_spec() == old(self).frame_spec(),
            final(self).same_layout(old(self)),
    {
        self.dim = dim;
        self.underline = underline;
        self.reverse = reverse;
    }

    /// Whether the window is large enough to work in.
    pub fn check_window_size(&self) -> (r: bool)
        ensures
            r == size_ok(self.width_spec(), self.height_spec()),
    {
        !(self.width <= MINIMUM_COMPACT_WINDOW_WIDTH || self.height <= MINIMUM_WINDOW_HEIGHT)
    }

    /// Drops everything drawn.
    pub fn clear(&mut self)
        ensures
            final(self).frame_spec().len() == 0,
            final(self).text() == Seq::<char>::empty(),
            final(self).pen() == old(self).pen(),
            final(self).same_layout(old(self)),
    {
        self.frame = Vec::new();
        assert(self.frame_spec() =~= Seq::<SegmentView>::empty());
    }

    /// Width and height of the window.
    pub fn get_view_size(&self) -> (r: (usize, usize))
        ensures
            r.0 == self.width_spec(),
            r.1 == self.height_spec(),
    {
        (self.width, self.height)
    }

    /// Hands over the finished frame and starts an empty one.
    pub fn refresh(&mut self) -> (r: Vec<Segment>)
        ensures
            segment_views(r@) == old(self).frame_spec(),
            final(self).frame_spec().len() == 0,
            final(self).pen() == old(self).pen(),
            final(self).same_layout(old(self)),
    {
        let r = self.frame.split_off(0);
        assert(self.frame_spec() =~= Seq::<SegmentView>::empty());
        r
    }

    /// Draws the title bar, with the help hint where `show_help` asks for it
    /// and there is room.
    pub fn draw_title(&mut self, show_help: bool)
        ensures
            final(self).text() == old(self).text() + title_text(old(self).width_spec(), show_help),
            final(self).frame_spec() == old(self).frame_spec() + title_segs(
                old(self).width_spec(),
                show_help,
            ),
            final(self).pen() == (WindowColor::Foreground, false, true, true),
            final(self).same_layout(old(self)),
    {
        self.set_color(WindowColor::Foreground);
        self.set_style(false, true, true);
        let width = self.width;
        if width >= TITLE_LENGTH {
            self.draw_str(TITLE);
            if width > TITLE_LENGTH + TITLE_HELP_INDICATOR_LENGTH {
                let padding = spaces(width - TITLE_LENGTH - TITLE_HELP_INDICATOR_LENGTH);
                self.draw_str(padding.as_str());
                if show_help {
                    self.draw_str(TITLE_HELP_INDICATOR);
                } else {
                    let padding = spaces(TITLE_HELP_INDICATOR_LENGTH);
                    self.draw_str(padding.as_str());
                }
            } else {
                let padding = spaces(width - TITLE_LENGTH);
                self.draw_str(padding.as_str());
            }
        } else {
            self.draw_str(TITLE_SHORT);
            let n: usize = if width > TITLE_SHORT_LENGTH { width - TITLE_SHORT_LENGTH } else { 0 };
            let padding = spaces(n);
            self.draw_str(padding.as_str());
        }
        assert(self.frame_spec() =~= old(self).frame_spec() + title_segs(width as int, show_help));
    }

    /// Draws `message` under the title, with a hint to press a key.
    pub fn draw_error(&mut self, message: &str)
        ensures
            final(self).text() == old(self).text() + title_text(old(self).width_spec(), false)
                + message@ + "\n"@ + CONTINUE_MESSAGE@,
            final(self).same_layout(old(self)),
    {
        self.draw_title(false);
        self.set_color(WindowColor::Foreground);
        self.set_style(false, false, false);
        self.draw_str(message);
        self.draw_str("\n");
        self.set_color(WindowColor::IndicatorColor);
        self.draw_str(CONTINUE_MESSAGE);
    }

    /// Says that the window is too small, as far as its width lets it.
    pub fn draw_window_size_error(&mut self)
        ensures
            final(self).text() == old(self).text() + size_error_text(
                old(self).width_spec(),
                old(self).height_spec(),
            ),
            final(self).same_layout(old(self)),
    {
        let width = self.width;
        let height = self.height;
        self.set_color(WindowColor::Foreground);
        if width <= MINIMUM_COMPACT_WINDOW_WIDTH {
            if width >= SHORT_ERROR_MESSAGE_WIDTH {
                self.draw_str(SHORT_ERROR_MESSAGE);
            } else {
                self.draw_str(TINY_ERROR_MESSAGE);
            }
        } else if height <= MINIMUM_WINDOW_HEIGHT {
            if width >= MINIMUM_WINDOW_HEIGHT_ERROR_WIDTH {
                self.draw_str(HEIGHT_ERROR_MESSAGE);
            } else if width >= SHORT_ERROR_MESSAGE_WIDTH {
                self.draw_str(SHORT_ERROR_MESSAGE);
            } else {
                self.draw_str(TINY_ERROR_MESSAGE);
            }
        } else {
            assert(self.text() =~= old(self).text() + Seq::<char>::empty());
        }
    }

    /// Draws `message` under the title.
    pub fn draw_prompt(&mut self, message: &str)
        ensures
            final(self).text() == old(self).text() + title_text(old(self).width_spec(), false)
                + "\n"@ + message@ + " "@,
            final(self).pen() == (WindowColor::Foreground, false, false, false),
            final(self).same_layout(old(self)),
    {
        self.draw_title(false);
        self.set_style(false, false, false);
        self.draw_str("\n");
        self.draw_str(message);
        self.draw_str(" ");
    }

    /// Asks the yes-or-no question `message`.
    pub fn draw_confirm(&mut self, message: &str)
        ensures
            final(self).text() == old(self).text() + title_text(old(self).width_spec(), false)
                + "\n"@ + message@ + CONFIRM_SUFFIX@ + " "@,
            final(self).pen() == (WindowColor::Foreground, false, false, false),
            final(self).same_layout(old(self)),
    {
        let mut question = String::from_str(message);
        question.append(CONFIRM_SUFFIX);
        self.draw_prompt(question.as_str());
    }

    pub fn draw_exiting(&mut self)
        ensures
            final(self).text() == old(self).text() + EXITING_MESSAGE@,
            final(self).same_layout(old(self)),
    {
        self.draw_str(EXITING_MESSAGE);
    }

    /// Fills `repeat` rows with the mark of an empty row.
    pub fn draw_vertical_spacer(&mut self, repeat: usize)
        ensures
            final(self).text() == old(self).text() + repeated(
                spacer_row(old(self).width_spec()),
                repeat as int,
            ),
            final(self).frame_spec() == old(self).frame_spec() + spacer_segs(
                repeat as int,
                old(self).width_spec(),
            ),
            final(self).same_layout(old(self)),
    {
        self.set_color(WindowColor::Foreground);
        self.set_style(false, false, false);
        let n: usize = if self.width > 0 { self.width - 1 } else { 0 };
        let padding = spaces(n);
        let mut i: usize = 0;
        while i < repeat
            invariant
                i <= repeat,
                self.same_layout(old(self)),
                padding@ == blank(old(self).width_spec() - 1),
                self.text() == old(self).text() + repeated(
                    spacer_row(old(self).width_spec()),
                    i as int,
                ),
                self.frame_spec() == old(self).frame_spec() + spacer_segs(
                    i as int,
                    old(self).width_spec(),
                ),
                self.pen() == (WindowColor::Foreground, false, false, false),
            decreases repeat - i,
        {
            self.draw_str(VERTICAL_SPACE);
            self.draw_str(padding.as_str());
            i = i + 1;
            assert(self.frame_spec() =~= old(self).frame_spec() + spacer_segs(
                i as int,
                old(self).width_spec(),
            ));
            assert(self.text() =~= old(self).text() + repeated(
                spacer_row(old(self).width_spec()),
                i as int,
            ));
        }
    }

    pub fn draw_visual_mode_footer(&mut self)
        ensures
            final(self).text() == old(self).text() + visual_mode_footer_text(old(self).width_spec()),
            final(self).frame_spec() == old(self).frame_spec().push(
                styled(visual_mode_footer_text(old(self).width_spec()), WindowColor::Foreground, true, false, false),
            ),
            final(self).pen() == (WindowColor::Foreground, false, false, false),
            final(self).same_layout(old(self)),
    {
        self.set_color(WindowColor::Foreground);
        self.set_style(true, false, false);
        if self.width >= VISUAL_MODE_FOOTER_FULL_WIDTH {
            self.draw_str(VISUAL_MODE_FOOTER_FULL);
        } else if self.width >= VISUAL_MODE_FOOTER_COMPACT_WIDTH {
            self.draw_str(VISUAL_MODE_FOOTER_COMPACT);
        } else {
            self.draw_str(VISUAL_MODE_FOOTER_MINIMAL);
        }
        self.set_style(false, false, false);
    }

    pub fn draw_list_footer(&mut self)
        ensures
            final(self).text() == old(self).text() + list_footer_text(old(self).width_spec()),
            final(self).frame_spec() == old(self).frame_spec().push(
                styled(list_footer_text(old(self).width_spec()), WindowColor::Foreground, true, false, false),
            ),
            final(self).pen() == (WindowColor::Foreground, false, false, false),
            final(self).same_layout(old(self)),
    {
        self.set_color(WindowColor::Foreground);
        self.set_style(true, false, false);
        if self.width >= LIST_FOOTER_FULL_WIDTH {
            self.draw_str(LIST_FOOTER_FULL);
        } else if self.width >= LIST_FOOTER_COMPACT_WIDTH {
            self.draw_str(LIST_FOOTER_COMPACT);
        } else {
            self.draw_str(LIST_FOOTER_MINIMAL);
        }
        self.set_style(false, false, false);
    }

    /// Scrolls the list so that `selected_index` is visible.
    pub fn update_main_top(&mut self, number_of_lines: usize, selected_index: usize)
        requires
            old(self).wf(),
            number_of_lines == 0 ==> selected_index == 0,
            number_of_lines > 0 ==> selected_index < number_of_lines,
        ensures
            final(self).main_top_spec() == cursor_top(
                old(self).main_top_spec(),
                selected_index as int,
                content_height(old(self).height_spec(), MAIN_PADDING as int),
                number_of_lines as int,
            ),
            0 <= final(self).main_top_spec(),
            final(self).main_top_spec() <= selected_index < final(self).main_top_spec()
                + content_height(old(self).height_spec(), MAIN_PADDING as int),
            final(self).wf(),
            final(self).width_spec() == old(self).width_spec(),
            final(self).height_spec() == old(self).height_spec(),
            final(self).help_top_spec() == old(self).help_top_spec(),
            final(self).commit_top_spec() == old(self).commit_top_spec(),
            final(self).frame_spec() == old(self).frame_spec(),
    {
        self.main_top.ensure_cursor_visible(selected_index, self.height, number_of_lines);
    }

    /// Scrolls the help view of `length` rows: back to its start on `reset`,
    /// else one row up or down.
    pub fn update_help_top(&mut self, scroll_up: bool, reset: bool, length: usize)
        requires
            old(self).wf(),
        ensures
            final(self).help_top_spec() == if reset {
                0
            } else {
                clamp_top(
                    old(self).help_top_spec() + if scroll_up { -1int } else { 1int },
                    length as int,
                    content_height(old(self).height_spec(), HELP_PADDING as int),
                )
            },
            final(self).wf(),
            final(self).width_spec() == old(self).width_spec(),
            final(self).height_spec() == old(self).height_spec(),
            final(self).main_top_spec() == old(self).main_top_spec(),
            final(self).commit_top_spec() == old(self).commit_top_spec(),
            final(self).frame_spec() == old(self).frame_spec(),
    {
        if reset {
            self.help_top.reset();
        } else if scroll_up {
            self.help_top.scroll_up(self.height, length);
        } else {
            self.help_top.scroll_down(self.height, length);
        }
    }

    /// Scrolls the commit view of `length` rows: back to its start on `reset`,
    /// else one row up or down.
    pub fn update_commit_top(&mut self, scroll_up: bool, reset: bool, length: usize)
        requires
            old(self).wf(),
        ensures
            final(self).commit_top_spec() == if reset {
                0
            } else {
                clamp_top(
                    old(self).commit_top_spec() + if scroll_up { -1int } else { 1int },
                    length as int,
                    content_height(old(self).height_spec(), HELP_PADDING as int),
                )
            },
            final(self).wf(),
            final(self).width_spec() == old(self).width_spec(),
            final(self).height_spec() == old(self).height_spec(),
            final(self).main_top_spec() == old(self).main_top_spec(),
            final(self).help_top_spec() == old(self).help_top_spec(),
            final(self).frame_spec() == old(self).frame_spec(),
    {
        if reset {
            self.commit_top.reset();
        } else if scroll_up {
            self.commit_top.scroll_up(self.height, length);
        } else {
            self.commit_top.scroll_down(self.height, length);
        }
    }

    /// Draws a row of runs fitted to the window's width, less the scroll
    /// bar's column when there is one: runs past the edge are cut, a short row
    /// is padded with spaces.
    pub fn draw_view_line(&mut self, line: &ViewLine, scrollbar: bool)
        ensures
            final(self).text() == old(self).text() + fit(
                line.text(),
                if scrollbar && old(self).width_spec() > 0 {
                    old(self).width_spec() - 1
                } else {
                    old(self).width_spec()
                },
            ),
            final(self).frame_spec() == old(self).frame_spec() + line_segs(
                segment_views(line.segments@),
                if scrollbar && old(self).width_spec() > 0 {
                    old(self).width_spec() - 1
                } else {
                    old(self).width_spec()
                },
            ),
            final(self).same_layout(old(self)),
    {
        let width: usize = if scrollbar && self.width > 0 { self.width - 1 } else { self.width };
        let ghost segs = segment_views(line.segments@);
        let mut start: usize = 0;
        let mut k: usize = 0;
        while k < line.segments.len()
            invariant
                k <= line.segments@.len(),
                segs == segment_views(line.segments@),
                self.same_layout(old(self)),
                start <= width,
                start == if text_of(segs.take(k as int)).len() >= width {
                    width as int
                } else {
                    text_of(segs.take(k as int)).len() as int
                },
                self.text() == old(self).text() + text_of(segs.take(k as int)).take(start as int),
                start == used_columns(segs, k as int, width as int),
                self.frame_spec() == old(self).frame_spec() + cut_prefix(segs, k as int, width as int),
            decreases line.segments@.len() - k,
        {
            let ghost prefix = text_of(segs.take(k as int));
            let segment = &line.segments[k];
            assert(segs.take(k as int + 1) =~= segs.take(k as int).push(segs[k as int]));
            proof {
                lemma_text_of_push(segs.take(k as int), segs[k as int]);
            }
            if start < width {
                let len = segment.text.as_str().unicode_len();
                let n: usize = if len <= width - start { len } else { width - start };
                let part = segment.text.as_str().substring_char(0, n);
                self.set_color(segment.color);
                self.set_style(segment.dim, segment.underline, segment.reverse);
                self.draw_str(part);
                assert(part@ =~= truncated(segs[k as int], width - start).text);
                assert(self.frame_spec() =~= old(self).frame_spec() + cut_prefix(
                    segs,
                    k as int + 1,
                    width as int,
                ));
                start = start + n;
                assert(self.text() =~= old(self).text() + text_of(segs.take(k as int + 1)).take(
                    start as int,
                ));
            } else {
                assert(text_of(segs.take(k as int + 1)).take(start as int) =~= prefix.take(
                    start as int,
                ));
            }
            k = k + 1;
        }
        assert(segs.take(k as int) =~= segs);
        if start < width {
            let padding = spaces(width - start);
            self.set_color(WindowColor::Foreground);
            self.set_style(false, false, false);
            self.draw_str(padding.as_str());
        }
        assert(self.frame_spec() =~= old(self).frame_spec() + line_segs(segs, width as int));
        assert(self.text() =~= old(self).text() + fit(line.text(), width as int));
    }

    /// One row fitted to the window, then the scroll bar's cell when there is
    /// a bar; `thumb` marks the cell of the thumb.
    fn draw_view_row(&mut self, line: &ViewLine, scrollbar: bool, thumb: bool)
        ensures
            final(self).text() == old(self).text() + row_text(
                line.text(),
                if scrollbar && old(self).width_spec() > 0 {
                    old(self).width_spec() - 1
                } else {
                    old(self).width_spec()
                },
                scrollbar,
            ),
            final(self).frame_spec() == old(self).frame_spec() + line_segs(
                segment_views(line.segments@),
                if scrollbar && old(self).width_spec() > 0 {
                    old(self).width_spec() - 1
                } else {
                    old(self).width_spec()
                },
            ) + if scrollbar {
                seq![bar_cell(thumb)]
            } else {
                Seq::empty()
            },
            final(self).same_layout(old(self)),
    {
        self.draw_view_line(line, scrollbar);
        let ghost mid = self.frame_spec();
        if scrollbar {
            self.set_color(WindowColor::Foreground);
            self.set_style(!thumb, false, true);
            self.draw_str(" ");
            assert(self.frame_spec() =~= mid + seq![bar_cell(thumb)]);
        } else {
            assert(self.frame_spec() =~= mid + Seq::<SegmentView>::empty());
            assert(self.text() =~= self.text() + Seq::<char>::empty());
        }
    }

    /// Draws `height` rows of `lines` from row `top`, with a scroll bar where
    /// they do not all fit, then marks the rows left empty.
    pub fn draw_view_lines(&mut self, lines: &Vec<ViewLine>, top: usize, height: usize)
        ensures
            final(self).text() == old(self).text() + body_text(
                row_texts(lines@),
                top as int,
                height as int,
                old(self).width_spec(),
            ),
            final(self).frame_spec() == old(self).frame_spec() + body_segs(
                row_segs(lines@),
                top as int,
                height as int,
                old(self).width_spec(),
            ),
            final(self).same_layout(old(self)),
    {
        let number_of_lines = lines.len();
        let ghost srows = row_segs(lines@);
        let ghost thumb = crate::scroll::thumb_row(top as int, lines@.len() as int, height as int);
        let ghost rows = row_texts(lines@);
        let scroll_indicator_index: usize = if height > 0 {
            crate::scroll::get_scroll_position(top, number_of_lines, height)
        } else {
            0
        };
        let show_scroll_bar = height < number_of_lines;
        let ghost w: int = if show_scroll_bar && self.width_spec() > 0 {
            self.width_spec() - 1
        } else {
            self.width_spec()
        };
        let count: usize = if top >= number_of_lines {
            0
        } else if number_of_lines - top < height {
            number_of_lines - top
        } else {
            height
        };
        let mut index: usize = 0;
        while index < count
            invariant
                index <= count,
                count == visible_rows(lines@.len() as int, top as int, height as int),
                number_of_lines == lines@.len(),
                show_scroll_bar == (height < lines@.len()),
                w == if show_scroll_bar && old(self).width_spec() > 0 {
                    old(self).width_spec() - 1
                } else {
                    old(self).width_spec()
                },
                rows == row_texts(lines@),
                self.same_layout(old(self)),
                self.text() == old(self).text() + rows_text(rows, top as int, index as int, w, show_scroll_bar),
                srows == row_segs(lines@),
                thumb == crate::scroll::thumb_row(top as int, lines@.len() as int, height as int),
                height > 0 ==> scroll_indicator_index == thumb,
                count <= height,
                self.frame_spec() == old(self).frame_spec() + rows_segs(
                    srows,
                    top as int,
                    index as int,
                    w,
                    show_scroll_bar,
                    thumb,
                ),
            decreases count - index,
        {
            let ghost before = self.text();
            let ghost before_frame = self.frame_spec();
            let ghost srow = srows[top + index];
            let ghost row = rows[top + index];
            assert(lines@[top + index].text() == row);
            assert(segment_views(lines@[top + index].segments@) == srow);
            self.draw_view_row(&lines[top + index], show_scroll_bar, scroll_indicator_index == index);
            index = index + 1;
            assert(self.frame_spec() =~= old(self).frame_spec() + rows_segs(
                srows,
                top as int,
                index as int,
                w,
                show_scroll_bar,
                thumb,
            ));
            assert(rows_text(rows, top as int, index as int, w, show_scroll_bar) == rows_text(
                rows,
                top as int,
                index - 1,
                w,
                show_scroll_bar,
            ) + row_text(row, w, show_scroll_bar));
            assert(self.text() =~= old(self).text() + rows_text(rows, top as int, index as int, w, show_scroll_bar));
        }
        if height > number_of_lines {
            self.draw_vertical_spacer(height - index);
            assert(self.frame_spec() =~= old(self).frame_spec() + body_segs(
                srows,
                top as int,
                height as int,
                old(self).width_spec(),
            ));
        } else {
            assert(self.frame_spec() =~= old(self).frame_spec() + body_segs(
                srows,
                top as int,
                height as int,
                old(self).width_spec(),
            ));
            assert(self.text() =~= self.text() + repeated(spacer_row(old(self).width_spec()), 0));
        }
    }

    pub fn get_action_color(&self, action: Action) -> (r: WindowColor)
        ensures
            r == action_color(action),
    {
        match action {
            Action::Break => WindowColor::ActionBreak,
            Action::Drop => WindowColor::ActionDrop,
            Action::Edit => WindowColor::ActionEdit,
            Action::Exec => WindowColor::ActionExec,
            Action::Fixup => WindowColor::ActionFixup,
            Action::Pick => WindowColor::ActionPick,
            Action::Reword => WindowColor::ActionReword,
            Action::Squash => WindowColor::ActionSquash,
        }
    }

    /// The runs of one step of the list, in the long layout when the window
    /// is wide enough and the short one otherwise.
    pub fn get_todo_line_segments(&self, line: &Line, is_cursor_line: bool, selected: bool) -> (r: Vec<
        Segment,
    >)
        ensures
            segment_views(r@) == todo_segments(
                line@,
                self.width_spec() >= MINIMUM_FULL_WINDOW_WIDTH,
                is_cursor_line,
                selected,
            ),
    {
        let full = self.width >= MINIMUM_FULL_WINDOW_WIDTH;
        let action = line.get_action();
        let on = is_cursor_line || selected;
        let mark_text: &str = if full {
            if on { " > " } else { "   " }
        } else {
            if on { ">" } else { " " }
        };
        let mark = Segment {
            text: String::from_str(mark_text),
            color: WindowColor::Foreground,
            dim: !is_cursor_line && selected,
            underline: false,
            reverse: false,
        };
        let mut action_text = if full {
            fitted(action.as_string(), 6)
        } else {
            String::from_str(action.to_abbreviation())
        };
        action_text.append(" ");
        let act = plain_segment(action_text.as_str(), self.get_action_color(action));
        let detail_text = match action {
            Action::Exec => line.get_command().clone(),
            Action::Break => spaces(if full { 9 } else { 4 }),
            _ => {
                let mut t = fitted(line.get_hash().as_str(), if full { 8 } else { 3 });
                t.append(" ");
                t
            },
        };
        let detail = plain_segment(detail_text.as_str(), WindowColor::Foreground);
        let mut segments: Vec<Segment> = Vec::new();
        segments.push(mark);
        segments.push(act);
        segments.push(detail);
        if action.has_commit() {
            segments.push(plain_segment(line.get_comment().as_str(), WindowColor::Foreground));
        }
        assert(segment_views(segments@) =~= todo_segments(line@, full, is_cursor_line, selected));
        segments
    }

    /// Draws the list screen: title, the visible steps with the selection and
    /// the visual range marked, and the footer of the mode.
    pub fn draw_main(&mut self, lines: &Vec<Line>, selected_index: usize, visual_index_start: Option<usize>)
        requires
            old(self).wf(),
        ensures
            final(self).text() == title_text(old(self).width_spec(), true) + body_text(
                todo_rows(
                    line_views(lines@),
                    old(self).width_spec(),
                    selected_index as int,
                    visual_index_start,
                ),
                old(self).main_top_spec(),
                content_height(old(self).height_spec(), MAIN_PADDING as int),
                old(self).width_spec(),
            ) + if visual_index_start is Some {
                visual_mode_footer_text(old(self).width_spec())
            } else {
                list_footer_text(old(self).width_spec())
            },
            final(self).frame_spec() == title_segs(old(self).width_spec(), true) + body_segs(
                todo_seg_rows(
                    line_views(lines@),
                    old(self).width_spec(),
                    selected_index as int,
                    visual_index_start,
                ),
                old(self).main_top_spec(),
                content_height(old(self).height_spec(), MAIN_PADDING as int),
                old(self).width_spec(),
            ) + seq![
                styled(
                    if visual_index_start is Some {
                        visual_mode_footer_text(old(self).width_spec())
                    } else {
                        list_footer_text(old(self).width_spec())
                    },
                    WindowColor::Foreground,
                    true,
                    false,
                    false,
                ),
            ],
            final(self).same_layout(old(self)),
    {
        let ghost want = todo_rows(
            line_views(lines@),
            self.width_spec(),
            selected_index as int,
            visual_index_start,
        );
        let ghost want_segs = todo_seg_rows(
            line_views(lines@),
            self.width_spec(),
            selected_index as int,
            visual_index_start,
        );
        let mut view_lines: Vec<ViewLine> = Vec::new();
        let mut index: usize = 0;
        while index < lines.len()
            invariant
                index <= lines@.len(),
                view_lines@.len() == index,
                want == todo_rows(
                    line_views(lines@),
                    self.width_spec(),
                    selected_index as int,
                    visual_index_start,
                ),
                forall|j: int| 0 <= j < index ==> #[trigger] view_lines@[j].text() == want[j],
                want_segs == todo_seg_rows(
                    line_views(lines@),
                    self.width_spec(),
                    selected_index as int,
                    visual_index_start,
                ),
                forall|j: int|
                    0 <= j < index ==> #[trigger] segment_views(view_lines@[j].segments@)
                        == want_segs[j],
            decreases lines@.len() - index,
        {
            let is_cursor_line = match visual_index_start {
                Some(visual_index) => (visual_index <= selected_index && index >= visual_index
                    && index <= selected_index) || (visual_index > selected_index && index
                    >= selected_index && index <= visual_index),
                None => false,
            };
            let segments = self.get_todo_line_segments(
                &lines[index],
                selected_index == index,
                is_cursor_line,
            );
            view_lines.push(ViewLine { segments });
            index = index + 1;
        }
        assert(row_texts(view_lines@) =~= want);
        assert(row_segs(view_lines@) =~= want_segs);
        let view_height = self.main_top.view_height(self.height);
        let top = self.main_top.get_position();
        self.clear();
        self.draw_title(true);
        self.draw_view_lines(&view_lines, top, view_height);
        if visual_index_start.is_some() {
            self.draw_visual_mode_footer();
        } else {
            self.draw_list_footer();
        }
    }

    /// Draws the help screen over `help_lines`, pairs of a key and what it does.
    pub fn draw_help(&mut self, help_lines: &Vec<(&'static str, &'static str)>)
        requires
            old(self).wf(),
        ensures
            final(self).text() == title_text(old(self).width_spec(), false) + HELP_HEADER@ + blank(
                old(self).width_spec() - HELP_HEADER_WIDTH,
            ) + body_text(
                help_rows(help_lines@),
                old(self).help_top_spec(),
                content_height(old(self).height_spec(), HELP_PADDING as int),
                old(self).width_spec(),
            ) + HELP_FOOTER@,
            final(self).frame_spec() == title_segs(old(self).width_spec(), false) + seq![
                styled(HELP_HEADER@, WindowColor::Foreground, false, true, false),
                styled(
                    blank(old(self).width_spec() - HELP_HEADER_WIDTH),
                    WindowColor::Foreground,
                    false,
                    true,
                    false,
                ),
            ] + body_segs(
                help_seg_rows(help_lines@),
                old(self).help_top_spec(),
                content_height(old(self).height_spec(), HELP_PADDING as int),
                old(self).width_spec(),
            ) + seq![plain(HELP_FOOTER@, WindowColor::IndicatorColor)],
            final(self).same_layout(old(self)),
    {
        let ghost want = help_rows(help_lines@);
        let ghost want_segs = help_seg_rows(help_lines@);
        let mut view_lines: Vec<ViewLine> = Vec::new();
        let mut index: usize = 0;
        while index < help_lines.len()
            invariant
                index <= help_lines@.len(),
                view_lines@.len() == index,
                want == help_rows(help_lines@),
                forall|j: int| 0 <= j < index ==> #[trigger] view_lines@[j].text() == want[j],
                want_segs == help_seg_rows(help_lines@),
                forall|j: int|
                    0 <= j < index ==> #[trigger] segment_views(view_lines@[j].segments@)
                        == want_segs[j],
            decreases help_lines@.len() - index,
        {
            let (key, description) = help_lines[index];
            let mut key_text = String::from_str(" ");
            let fitted_key = fitted(key, 4);
            key_text.append(fitted_key.as_str());
            key_text.append(" ");
            let mut segments: Vec<Segment> = Vec::new();
            segments.push(plain_segment(key_text.as_str(), WindowColor::IndicatorColor));
            segments.push(plain_segment(description, WindowColor::Foreground));
            let ghost sv = segment_views(segments@);
            assert(sv =~= seq![sv[0]].push(sv[1]));
            assert(seq![sv[0]] =~= Seq::<SegmentView>::empty().push(sv[0]));
            proof {
                lemma_text_of_push(Seq::empty(), sv[0]);
                lemma_text_of_push(seq![sv[0]], sv[1]);
            }
            assert(sv =~= want_segs[index as int]);
            view_lines.push(ViewLine { segments });
            assert(view_lines@[index as int].text() =~= want[index as int]);
            index = index + 1;
        }
        assert(row_texts(view_lines@) =~= want);
        assert(row_segs(view_lines@) =~= want_segs);
        let view_height = self.help_top.view_height(self.height);
        let top = self.help_top.get_position();
        self.set_style(false, false, false);
        self.clear();
        self.draw_title(false);
        self.set_color(WindowColor::Foreground);
        self.set_style(false, true, false);
        self.draw_str(HELP_HEADER);
        let n: usize = if self.width > HELP_HEADER_WIDTH { self.width - HELP_HEADER_WIDTH } else { 0 };
        let padding = spaces(n);
        self.draw_str(padding.as_str());
        self.draw_view_lines(&view_lines, top, view_height);
        self.set_color(WindowColor::IndicatorColor);
        self.set_style(false, false, false);
        self.draw_str(HELP_FOOTER);
    }

    /// Draws the text under edit, one cluster after another, with the cluster
    /// at `pointer` underlined, or an underlined space after the text when the
    /// cursor is at its end.
    pub fn draw_edit(&mut self, graphemes: &Vec<String>, pointer: usize)
        ensures
            final(self).text() == old(self).text() + title_text(old(self).width_spec(), false)
                + joined(cluster_views(graphemes@)) + (if pointer >= graphemes@.len() {
                " "@
            } else {
                Seq::empty()
            }) + "\n\n"@ + EDIT_FOOTER@,
            final(self).frame_spec() == old(self).frame_spec() + title_segs(
                old(self).width_spec(),
                false,
            ) + edit_segs(
                cluster_views(graphemes@),
                graphemes@.len() as int,
                pointer as int,
            ) + (if pointer >= graphemes@.len() {
                seq![styled(" "@, WindowColor::Foreground, false, true, false)]
            } else {
                Seq::empty()
            }) + seq![normal("\n\n"@), plain(EDIT_FOOTER@, WindowColor::IndicatorColor)],
            final(self).same_layout(old(self)),
    {
        let ghost parts = cluster_views(graphemes@);
        self.draw_title(false);
        self.set_color(WindowColor::Foreground);
        self.set_style(false, false, false);
        let ghost base = self.text();
        let ghost base_frame = self.frame_spec();
        let mut i: usize = 0;
        while i < graphemes.len()
            invariant
                i <= graphemes@.len(),
                parts == cluster_views(graphemes@),
                self.same_layout(old(self)),
                self.text() == base + joined(parts.take(i as int)),
                self.frame_spec() == base_frame + edit_segs(parts, i as int, pointer as int),
                self.pen() == (WindowColor::Foreground, false, false, false),
            decreases graphemes@.len() - i,
        {
            assert(parts.take(i as int + 1).drop_last() =~= parts.take(i as int));
            if i == pointer {
                self.set_style(false, true, false);
                self.draw_str(graphemes[i].as_str());
                self.set_style(false, false, false);
            } else {
                self.draw_str(graphemes[i].as_str());
            }
            i = i + 1;
            assert(self.frame_spec() =~= base_frame + edit_segs(parts, i as int, pointer as int));
        }
        assert(parts.take(i as int) =~= parts);
        if pointer >= graphemes.len() {
            self.set_style(false, true, false);
            self.draw_str(" ");
            self.set_style(false, false, false);
        } else {
            assert(self.text() =~= self.text() + Seq::<char>::empty());
        }
        self.draw_str("\n\n");
        self.set_color(WindowColor::IndicatorColor);
        self.draw_str(EDIT_FOOTER);
        assert(self.frame_spec() =~= old(self).frame_spec() + title_segs(old(self).width_spec(), false)
            + edit_segs(parts, graphemes@.len() as int, pointer as int) + (if pointer
            >= graphemes@.len() {
            seq![styled(" "@, WindowColor::Foreground, false, true, false)]
        } else {
            Seq::empty()
        }) + seq![normal("\n\n"@), plain(EDIT_FOOTER@, WindowColor::IndicatorColor)]);
    }

    /// Draws the commit view over `lines`, the statistics of one commit.
    pub fn draw_show_commit(&mut self, lines: &Vec<String>)
        requires
            old(self).wf(),
        ensures
            final(self).text() == title_text(old(self).width_spec(), false) + body_text(
                lines@.map_values(|l: String| l@),
                old(self).commit_top_spec(),
                content_height(old(self).height_spec(), HELP_PADDING as int),
                old(self).width_spec(),
            ) + HELP_FOOTER@,
            final(self).frame_spec() == title_segs(old(self).width_spec(), false) + body_segs(
                text_seg_rows(lines@.map_values(|l: String| l@)),
                old(self).commit_top_spec(),
                content_height(old(self).height_spec(), HELP_PADDING as int),
                old(self).width_spec(),
            ) + seq![plain(HELP_FOOTER@, WindowColor::IndicatorColor)],
            final(self).same_layout(old(self)),
    {
        let ghost want = lines@.map_values(|l: String| l@);
        let ghost want_segs = text_seg_rows(lines@.map_values(|l: String| l@));
        let mut view_lines: Vec<ViewLine> = Vec::new();
        let mut index: usize = 0;
        while index < lines.len()
            invariant
                index <= lines@.len(),
                view_lines@.len() == index,
                want == lines@.map_values(|l: String| l@),
                forall|j: int| 0 <= j < index ==> #[trigger] view_lines@[j].text() == want[j],
                want_segs == text_seg_rows(lines@.map_values(|l: String| l@)),
                forall|j: int|
                    0 <= j < index ==> #[trigger] segment_views(view_lines@[j].segments@)
                        == want_segs[j],
            decreases lines@.len() - index,
        {
            let mut segments: Vec<Segment> = Vec::new();
            segments.push(plain_segment(lines[index].as_str(), WindowColor::Foreground));
            let ghost sv = segment_views(segments@);
            assert(sv =~= Seq::<SegmentView>::empty().push(sv[0]));
            proof {
                lemma_text_of_push(Seq::empty(), sv[0]);
            }
            assert(sv =~= want_segs[index as int]);
            view_lines.push(ViewLine { segments });
            assert(view_lines@[index as int].text() =~= want[index as int]);
            index = index + 1;
        }
        assert(row_texts(view_lines@) =~= want);
        assert(row_segs(view_lines@) =~= want_segs);
        let view_height = self.commit_top.view_height(self.height);
        let top = self.commit_top.get_position();
        self.clear();
        self.draw_title(false);
        self.draw_view_lines(&view_lines, top, view_height);
        self.set_color(WindowColor::IndicatorColor);
        self.set_style(false, false, false);
        self.draw_str(HELP_FOOTER);
    }
}

} // verus!
