use vstd::prelude::*;

verus! {

/// Rows left for content in a window of `window_height` rows once `padding`
/// rows of chrome are taken; at least one.
pub open spec fn content_height(window_height: int, padding: int) -> int {
    if window_height > padding { window_height - padding } else { 1 }
}

/// The largest first row that still fills a view of `height` rows over
/// `length` rows.
pub open spec fn max_top(length: int, height: int) -> int {
    if length > height { length - height } else { 0 }
}

/// `top` kept inside `[0, max_top(length, height)]`.
pub open spec fn clamp_top(top: int, length: int, height: int) -> int {
    if top < 0 { 0 } else if top > max_top(length, height) { max_top(length, height) } else { top }
}

/// The first visible row after the least change that shows `cursor` in a
/// view of `height` rows starting at `top`, kept within the scrollable range.
pub open spec fn cursor_top(top: int, cursor: int, height: int, length: int) -> int {
    let t = if cursor < top {
        cursor
    } else if cursor >= top + height {
        cursor - height + 1
    } else {
        top
    };
    if t > max_top(length, height) { max_top(length, height) } else { t }
}

/// Row of the scroll bar's thumb in a view of `height` rows at `top` over
/// `length` rows.
pub open spec fn thumb_row(top: int, length: int, height: int) -> int {
    let span = if length - height > 1 { length - height } else { 1 };
    let row = (top * (height - 1)) / span;
    if row > height - 1 { height - 1 } else { row }
}

/// The first visible row of a scrollable view, and the rows of chrome its
/// window keeps for other use.
pub struct ScrollPosition {
    top: usize,
    padding: usize,
}

impl ScrollPosition {
    pub closed spec fn top_spec(&self) -> int {
        self.top as int
    }

    pub closed spec fn padding_spec(&self) -> int {
        self.padding as int
    }

    /// A view at its first row, leaving `padding` rows of the window to chrome.
    pub fn new(padding: usize) -> (r: ScrollPosition)
        ensures
            r.top_spec() == 0,
            r.padding_spec() == padding,
    {
        ScrollPosition { top: 0, padding }
    }

    pub fn get_position(&self) -> (r: usize)
        ensures
            r == self.top_spec(),
    {
        self.top
    }

    /// Rows of content in a window of `window_height` rows.
    pub fn view_height(&self, window_height: usize) -> (r: usize)
        ensures
            r == content_height(window_height as int, self.padding_spec()),
            r >= 1,
    {
        if window_height > self.padding {
            window_height - self.padding
        } else {
            1
        }
    }

    /// Back to the first row.
    pub fn reset(&mut self)
        ensures
            final(self).top_spec() == 0,
            final(self).padding_spec() == old(self).padding_spec(),
    {
        self.top = 0;
    }

    /// One row up, kept within the scrollable range.
    pub fn scroll_up(&mut self, window_height: usize, length: usize)
        ensures
            final(self).top_spec() == clamp_top(
                old(self).top_spec() - 1,
                length as int,
                content_height(window_height as int, old(self).padding_spec()),
            ),
            final(self).padding_spec() == old(self).padding_spec(),
    {
        let height = self.view_height(window_height);
        let top: usize = if self.top > 0 { self.top - 1 } else { 0 };
        self.top = self.clamped(top, length, height);
    }

    /// One row down, kept within the scrollable range.
    pub fn scroll_down(&mut self, window_height: usize, length: usize)
        ensures
            final(self).top_spec() == clamp_top(
                old(self).top_spec() + 1,
                length as int,
                content_height(window_height as int, old(self).padding_spec()),
            ),
            final(self).padding_spec() == old(self).padding_spec(),
    {
        let height = self.view_height(window_height);
        let highest: usize = if length > height { length - height } else { 0 };
        let top: usize = if self.top >= highest { highest } else { self.top + 1 };
        self.top = top;
    }

    fn clamped(&self, top: usize, length: usize, height: usize) -> (r: usize)
        ensures
            r == clamp_top(top as int, length as int, height as int),
    {
        let highest: usize = if length > height { length - height } else { 0 };
        if top > highest { highest } else { top }
    }

    /// Scrolls the least amount that shows `cursor`.
    pub fn ensure_cursor_visible(&mut self, cursor: usize, window_height: usize, length: usize)
        requires
            length == 0 ==> cursor == 0,
            length > 0 ==> cursor < length,
        ensures
            final(self).top_spec() == cursor_top(
                old(self).top_spec(),
                cursor as int,
                content_height(window_height as int, old(self).padding_spec()),
                length as int,
            ),
            final(self).padding_spec() == old(self).padding_spec(),
            final(self).top_spec() <= cursor < final(self).top_spec() + content_height(
                window_height as int,
                old(self).padding_spec(),
            ),
            0 <= final(self).top_spec() <= max_top(
                length as int,
                content_height(window_height as int, old(self).padding_spec()),
            ),
    {
        let height = self.view_height(window_height);
        let t: usize = if cursor < self.top {
            cursor
        } else if cursor - self.top >= height {
            cursor - height + 1
        } else {
            self.top
        };
        let highest: usize = if length > height { length - height } else { 0 };
        self.top = if t > highest { highest } else { t };
    }
}

/// Row of the scroll bar's thumb, for a view of `height` rows starting at
/// `top` over `length` rows.
pub fn get_scroll_position(top: usize, length: usize, height: usize) -> (r: usize)
    requires
        height >= 1,
    ensures
        r == thumb_row(top as int, length as int, height as int),
        r < height,
{
    let span: usize = if length > height && length - height > 1 { length - height } else { 1 };
    let a = top as u128;
    let b = (height - 1) as u128;
    assert(a * b <= 0xffff_ffff_ffff_ffffu128 * 0xffff_ffff_ffff_ffffu128) by (nonlinear_arith)
        requires
            a <= 0xffff_ffff_ffff_ffffu128,
            b <= 0xffff_ffff_ffff_ffffu128,
    ;
    let row = a * b / (span as u128);
    if row > b {
        height - 1
    } else {
        row as usize
    }
}

} // verus!
