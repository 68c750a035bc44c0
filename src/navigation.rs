//! The scrolling viewport and the cursor that moves over it.
use vstd::prelude::*;
use crate::key::Key;

verus! {

/// The visible window: keys `[start, start + height)` of `total` display
/// lines.
pub struct Window {
    pub start: int,
    pub height: int,
    pub total: int,
}

impl Window {
    /// `start` is at least 1, and the window reaches past the last line only
    /// when it starts at the first.
    pub open spec fn valid(self) -> bool {
        &&& self.height >= 1
        &&& self.start >= 1
        &&& (self.start == 1 || self.start + self.height <= self.total + 1)
    }

    /// The largest start that scrolling down can reach.
    pub open spec fn max_start(self) -> int {
        if self.total >= self.height {
            self.total - self.height + 1
        } else {
            1
        }
    }

    pub open spec fn scrolled_up(self) -> Window {
        if self.start > 1 {
            Window { start: self.start - 1, ..self }
        } else {
            self
        }
    }

    pub open spec fn scrolled_down(self) -> Window {
        if self.start + self.height <= self.total {
            Window { start: self.start + 1, ..self }
        } else {
            self
        }
    }
}

/// Scrolling keeps the window valid and never past its bounds: up at the
/// first line and down at the largest start change nothing.
pub proof fn lemma_scroll_bounds(w: Window)
    requires
        w.valid(),
    ensures
        w.scrolled_up().valid(),
        w.scrolled_down().valid(),
        1 <= w.start <= w.max_start(),
        w.start == 1 ==> w.scrolled_up() == w,
        w.start == w.max_start() ==> w.scrolled_down() == w,
{
}

/// The window's state in executable form.
pub struct Viewport {
    start: usize,
    height: usize,
    total: usize,
}

impl View for Viewport {
    type V = Window;

    closed spec fn view(&self) -> Window {
        Window { start: self.start as int, height: self.height as int, total: self.total as int }
    }
}

impl Viewport {
    /// A window of `height` rows over `total` lines, starting at key 1.
    pub fn new(height: usize, total: usize) -> (r: Viewport)
        requires
            height >= 1,
        ensures
            r@ == (Window { start: 1, height: height as int, total: total as int }),
            r@.valid(),
    {
        Viewport { start: 1, height, total }
    }

    pub fn start(&self) -> (r: usize)
        ensures
            r == self@.start,
    {
        self.start
    }

    pub fn height(&self) -> (r: usize)
        ensures
            r == self@.height,
    {
        self.height
    }

    pub fn total(&self) -> (r: usize)
        ensures
            r == self@.total,
    {
        self.total
    }

    /// Moves the window one line up, unless it starts at key 1.
    pub fn scroll_up(&mut self) -> (moved: bool)
        requires
            old(self)@.valid(),
        ensures
            final(self)@ == old(self)@.scrolled_up(),
            moved == (old(self)@.start > 1),
            final(self)@.valid(),
    {
        if self.start > 1 {
            self.start = self.start - 1;
            true
        } else {
            false
        }
    }

    /// Moves the window one line down, while `start + height <= total`.
    pub fn scroll_down(&mut self) -> (moved: bool)
        requires
            old(self)@.valid(),
        ensures
            final(self)@ == old(self)@.scrolled_down(),
            moved == (old(self)@.start + old(self)@.height <= old(self)@.total),
            final(self)@.valid(),
    {
        if self.total >= self.height && self.start <= self.total - self.height {
            self.start = self.start + 1;
            true
        } else {
            false
        }
    }
}

/// The navigation state: the on-screen cursor `(x, y)`, the line counter
/// shown in the status bar, the terminal width and the window.
pub struct NavState {
    pub x: int,
    pub y: int,
    pub line: int,
    pub width: int,
    pub win: Window,
}

impl NavState {
    pub open spec fn valid(self) -> bool {
        &&& self.win.valid()
        &&& 0 <= self.x < self.width
        &&& 0 <= self.y < self.win.height
        &&& 1 <= self.line
        &&& (self.line == 1 || self.line <= self.win.total)
    }

    /// The key of the display line under the cursor.
    pub open spec fn row(self) -> int {
        self.win.start + self.y
    }
}

/// What a key does in navigation mode.
#[derive(Clone, Copy, Debug, PartialEq, Eq, Structural)]
pub enum NavAction {
    /// Nothing changed.
    Ignored,
    /// The cursor or the line counter changed; the window did not.
    Moved,
    /// The window scrolled: every row is drawn again.
    Scrolled,
    /// Editing of the line under the cursor begins.
    StartEdit,
    /// The editor ends.
    Quit,
}

pub open spec fn nav_next(st: NavState, key: Key) -> NavState {
    match key {
        Key::Up => NavState {
            y: if st.y > 0 { st.y - 1 } else { st.y },
            win: if st.y > 0 { st.win } else { st.win.scrolled_up() },
            line: if st.line > 1 { st.line - 1 } else { st.line },
            ..st
        },
        Key::Down => NavState {
            y: if st.y < st.win.height - 1 { st.y + 1 } else { st.y },
            win: if st.y < st.win.height - 1 { st.win } else { st.win.scrolled_down() },
            line: if st.line < st.win.total { st.line + 1 } else { st.line },
            ..st
        },
        Key::Left => NavState { x: if st.x > 0 { st.x - 1 } else { st.x }, ..st },
        Key::Right => NavState { x: if st.x < st.width - 1 { st.x + 1 } else { st.x }, ..st },
        _ => st,
    }
}

pub open spec fn nav_action(st: NavState, key: Key) -> NavAction {
    match key {
        Key::Stop => NavAction::Quit,
        Key::Char(c) => if c == 'i' { NavAction::StartEdit } else { NavAction::Ignored },
        Key::Up => if nav_next(st, key).win != st.win { NavAction::Scrolled } else { NavAction::Moved },
        Key::Down => if nav_next(st, key).win != st.win { NavAction::Scrolled } else { NavAction::Moved },
        Key::Left => NavAction::Moved,
        Key::Right => NavAction::Moved,
        _ => NavAction::Ignored,
    }
}

/// Every navigation key keeps the state valid: the window starts at key 1
/// or later and reaches past the last line only from key 1, the cursor stays
/// on screen and the line counter within `[1, total]`. UP on the top row of
/// a window at key 1, and DOWN on the bottom row of a window at its largest
/// start, move neither the window nor the cursor.
pub proof fn lemma_navigation_bounds(nav: NavState, key: Key)
    requires
        nav.valid(),
    ensures
        nav_next(nav, key).valid(),
        (nav.y == 0 && nav.win.start == 1) ==> {
            &&& nav_next(nav, Key::Up).win == nav.win
            &&& nav_next(nav, Key::Up).y == 0
            &&& nav_action(nav, Key::Up) == NavAction::Moved
        },
        (nav.y == nav.win.height - 1 && nav.win.start == nav.win.max_start()) ==> {
            &&& nav_next(nav, Key::Down).win == nav.win
            &&& nav_next(nav, Key::Down).y == nav.y
            &&& nav_action(nav, Key::Down) == NavAction::Moved
        },
{
    lemma_scroll_bounds(nav.win);
}

/// The cursor, the line counter and the window.
pub struct Navigator {
    x: usize,
    y: usize,
    line: usize,
    width: usize,
    view: Viewport,
}

impl View for Navigator {
    type V = NavState;

    closed spec fn view(&self) -> NavState {
        NavState {
            x: self.x as int,
            y: self.y as int,
            line: self.line as int,
            width: self.width as int,
            win: self.view@,
        }
    }
}

impl Navigator {
    /// Cursor at `(0, 0)`, line counter 1, window from key 1.
    pub fn new(width: usize, height: usize, total: usize) -> (r: Navigator)
        requires
            width >= 1,
            height >= 1,
        ensures
            r@ == (NavState {
                x: 0,
                y: 0,
                line: 1,
                width: width as int,
                win: Window { start: 1, height: height as int, total: total as int },
            }),
            r@.valid(),
    {
        Navigator { x: 0, y: 0, line: 1, width, view: Viewport::new(height, total) }
    }

    pub fn x(&self) -> (r: usize)
        ensures
            r == self@.x,
    {
        self.x
    }

    pub fn y(&self) -> (r: usize)
        ensures
            r == self@.y,
    {
        self.y
    }

    pub fn width(&self) -> (r: usize)
        ensures
            r == self@.width,
    {
        self.width
    }

    /// The line counter shown in the status bar.
    pub fn line(&self) -> (r: usize)
        ensures
            r == self@.line,
    {
        self.line
    }

    pub fn viewport(&self) -> (r: &Viewport)
        ensures
            r@ == self@.win,
    {
        &self.view
    }

    /// The key of the display line under the cursor.
    pub fn row(&self) -> (r: usize)
        requires
            self@.valid(),
        ensures
            r == self@.row(),
    {
        let start = self.view.start();
        let h = self.view.height();
        assert(self.y < h);
        if start == 1 {
            1 + self.y
        } else {
            start + self.y
        }
    }

    /// Applies one key of navigation mode.
    pub fn handle(&mut self, key: Key) -> (r: NavAction)
        requires
            old(self)@.valid(),
        ensures
            final(self)@ == nav_next(old(self)@, key),
            r == nav_action(old(self)@, key),
            final(self)@.valid(),
    {
        match key {
            Key::Stop => NavAction::Quit,
            Key::Char(c) => if c == 'i' { NavAction::StartEdit } else { NavAction::Ignored },
            Key::Up => {
                let mut scrolled = false;
                if self.y > 0 {
                    self.y = self.y - 1;
                } else {
                    scrolled = self.view.scroll_up();
                }
                if self.line > 1 {
                    self.line = self.line - 1;
                }
                if scrolled { NavAction::Scrolled } else { NavAction::Moved }
            },
            Key::Down => {
                let mut scrolled = false;
                if self.y < self.view.height() - 1 {
                    self.y = self.y + 1;
                } else {
                    scrolled = self.view.scroll_down();
                }
                if self.line < self.view.total() {
                    self.line = self.line + 1;
                }
                if scrolled { NavAction::Scrolled } else { NavAction::Moved }
            },
            Key::Left => {
                if self.x > 0 {
                    self.x = self.x - 1;
                }
                NavAction::Moved
            },
            Key::Right => {
                if self.x < self.width - 1 {
                    self.x = self.x + 1;
                }
                NavAction::Moved
            },
            _ => NavAction::Ignored,
        }
    }
}

} // verus!
