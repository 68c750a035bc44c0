//! The whole editor as one state machine: navigation mode over the buffer,
//! and an editing session over one display line after `i`.
use vstd::prelude::*;
use crate::buffer::{row_text, Buffer};
use crate::key::Key;
use crate::line_edit::{next_state, reply_to, EditState, LineEditor, Reply, StopPolicy};
use crate::navigation::{nav_action, nav_next, NavAction, NavState, Navigator};
use crate::wrap::texts;

verus! {

/// The rows after a session on row `key` ends with `text`: the row is
/// overwritten only where the text is shorter than the window's height and
/// the row exists.
pub open spec fn committed_rows(rows: Seq<Seq<char>>, key: int, text: Seq<char>, height: int) -> Seq<
    Seq<char>,
> {
    if text.len() < height && 1 <= key <= rows.len() {
        rows.update(key - 1, text)
    } else {
        rows
    }
}

/// The session that `i` opens: the text of the row under the cursor, with
/// the cursor at the screen column, or at the end of a shorter text.
pub open spec fn session_start(rows: Seq<Seq<char>>, nav: NavState) -> EditState {
    let t = row_text(rows, nav.row());
    EditState { content: t, cursor: if nav.x <= t.len() { nav.x } else { t.len() as int } }
}

/// What one key press did.
#[derive(Clone, Copy, Debug, PartialEq, Eq, Structural)]
pub enum Outcome {
    /// Handled in navigation mode.
    Normal(NavAction),
    /// Handled by the running editing session.
    Editing(Reply),
    /// The editing session ended and its text went back to the buffer.
    Committed,
}

/// What the status bar shows.
#[derive(Clone, Copy, Debug, PartialEq, Eq, Structural)]
pub enum Status {
    /// `Line: n`, the line counter of navigation mode.
    Line(usize),
    /// An editing session runs.
    Insert,
    /// An editing session has just ended.
    Normal,
}

/// The status bar after a key press: UP, DOWN and RIGHT refresh the line
/// counter, `i` shows insert mode, the end of a session normal mode.
pub open spec fn next_status(st: Status, key: Key, r: Outcome, line: int) -> Status {
    match r {
        Outcome::Normal(NavAction::StartEdit) => Status::Insert,
        Outcome::Committed => Status::Normal,
        Outcome::Normal(_) => if key == Key::Up || key == Key::Down || key == Key::Right {
            Status::Line(line as usize)
        } else {
            st
        },
        Outcome::Editing(_) => st,
    }
}

/// What one key press does to the mode, the cursor and the rows: in
/// navigation mode the key moves the cursor, and `i` opens a session on the
/// row under it; in a session the key edits, and ENTER, ESCAPE or a text
/// wider than the screen ends the session and writes the text back.
pub open spec fn step_post(pre: Editor, post: Editor, key: Key, r: Outcome) -> bool {
    &&& pre.editing() is None ==> {
        let nav = pre.nav_state();
        let act = nav_action(nav, key);
        let s = session_start(pre.rows(), nav);
        &&& post.nav_state() == nav_next(nav, key)
        &&& act != NavAction::StartEdit ==> {
            &&& r == Outcome::Normal(act)
            &&& post.rows() == pre.rows()
            &&& post.editing() is None
        }
        &&& (act == NavAction::StartEdit && s.content.len() > nav.width) ==> {
            &&& r == Outcome::Committed
            &&& post.rows() == committed_rows(
                pre.rows(),
                nav.row(),
                s.content,
                nav.win.height,
            )
            &&& post.editing() is None
        }
        &&& (act == NavAction::StartEdit && s.content.len() <= nav.width) ==> {
            &&& r == Outcome::Normal(NavAction::StartEdit)
            &&& post.rows() == pre.rows()
            &&& post.editing() == Some(s)
            &&& post.session_row() == nav.row()
        }
    }
    &&& pre.editing() is Some ==> {
        let nav = pre.nav_state();
        let s = pre.editing()->0;
        let n = next_state(s, key);
        let rp = reply_to(s, key, pre.policy_spec());
        &&& post.nav_state() == nav
        &&& if rp == Reply::Commit || (rp != Reply::Quit && n.content.len() > nav.width) {
            &&& r == Outcome::Committed
            &&& post.rows() == committed_rows(
                pre.rows(),
                pre.session_row(),
                n.content,
                nav.win.height,
            )
            &&& post.editing() is None
        } else {
            &&& r == Outcome::Editing(rp)
            &&& post.rows() == pre.rows()
            &&& post.editing() == Some(n)
            &&& post.session_row() == pre.session_row()
        }
    }
}

/// The editor: the buffer, the navigation state, the editing session if
/// one runs, and the status bar.
pub struct Editor {
    buffer: Buffer,
    nav: Navigator,
    session: Option<LineEditor>,
    session_row: usize,
    policy: StopPolicy,
    status: Status,
}

impl Editor {
    /// The display lines, key `k` at index `k - 1`.
    pub closed spec fn rows(&self) -> Seq<Seq<char>> {
        self.buffer@
    }

    pub closed spec fn nav_state(&self) -> NavState {
        self.nav@
    }

    pub closed spec fn editing(&self) -> Option<EditState> {
        match self.session {
            Some(e) => Some(e@),
            None => None,
        }
    }

    /// The key of the row that the running session edits.
    pub closed spec fn session_row(&self) -> int {
        self.session_row as int
    }

    pub closed spec fn policy_spec(&self) -> StopPolicy {
        self.policy
    }

    pub closed spec fn status_spec(&self) -> Status {
        self.status
    }

    /// The editor's invariant: the navigation state is valid over exactly
    /// the buffer's lines, and a running session's cursor lies within its
    /// text.
    pub open spec fn wf(&self) -> bool {
        &&& self.nav_state().valid()
        &&& self.nav_state().win.total == self.rows().len()
        &&& (self.editing() is Some ==> self.editing()->0.valid())
        &&& self.session_follows_policy()
    }

    /// A running session handles STOP as the editor was told to.
    pub closed spec fn session_follows_policy(&self) -> bool {
        match self.session {
            Some(e) => e.policy_spec() == self.policy,
            None => true,
        }
    }

    /// An editor over `buffer` on a screen of `width` columns with `height`
    /// rows for text.
    pub fn new(buffer: Buffer, width: usize, height: usize, policy: StopPolicy) -> (r: Editor)
        requires
            width >= 1,
            height >= 1,
        ensures
            r.wf(),
            r.rows() == buffer@,
            r.nav_state() == (NavState {
                x: 0,
                y: 0,
                line: 1,
                width: width as int,
                win: crate::navigation::Window {
                    start: 1,
                    height: height as int,
                    total: buffer@.len() as int,
                },
            }),
            r.editing() is None,
            r.policy_spec() == policy,
            r.status_spec() == Status::Line(1),
    {
        let total = buffer.total();
        Editor {
            buffer,
            nav: Navigator::new(width, height, total),
            session: None,
            session_row: 0,
            policy,
            status: Status::Line(1),
        }
    }

    /// What the status bar shows.
    pub fn status(&self) -> (r: Status)
        ensures
            r == self.status_spec(),
    {
        self.status
    }

    pub fn buffer(&self) -> (r: &Buffer)
        ensures
            r@ == self.rows(),
    {
        &self.buffer
    }

    pub fn navigator(&self) -> (r: &Navigator)
        ensures
            r@ == self.nav_state(),
    {
        &self.nav
    }

    /// The running editing session, if any.
    pub fn session(&self) -> (r: Option<&LineEditor>)
        ensures
            match r {
                Some(e) => self.editing() == Some(e@),
                None => self.editing() is None,
            },
    {
        match &self.session {
            Some(e) => Some(e),
            None => None,
        }
    }

    /// The rows of the window, top to bottom, blank past the last line.
    pub fn visible_rows(&self) -> (r: Vec<Vec<char>>)
        requires
            self.wf(),
        ensures
            r@.len() == self.nav_state().win.height,
            forall|k: int|
                0 <= k < self.nav_state().win.height ==> #[trigger] texts(r@)[k] == row_text(
                    self.rows(),
                    self.nav_state().win.start + k,
                ),
    {
        let v = self.nav.viewport();
        self.buffer.window(v.start(), v.height())
    }

    /// Ends the session on row `key` with `text`.
    fn commit(&mut self, key: usize, text: Vec<char>)
        requires
            old(self).wf(),
        ensures
            final(self).wf(),
            final(self).rows() == committed_rows(
                old(self).rows(),
                key as int,
                text@,
                old(self).nav_state().win.height,
            ),
            final(self).nav_state() == old(self).nav_state(),
            final(self).editing() is None,
            final(self).policy_spec() == old(self).policy_spec(),
            final(self).status_spec() == old(self).status_spec(),
    {
        let height = self.nav.viewport().height();
        if text.len() < height {
            self.buffer.replace(key, text);
        }
        self.session = None;
    }

    /// Handles one key press and updates the status bar.
    pub fn press(&mut self, key: Key) -> (r: Outcome)
        requires
            old(self).wf(),
        ensures
            final(self).wf(),
            final(self).status_spec() == next_status(
                old(self).status_spec(),
                key,
                r,
                final(self).nav_state().line,
            ),
            final(self).policy_spec() == old(self).policy_spec(),
            step_post(*old(self), *final(self), key, r),
    {
        let r = self.dispatch(key);
        self.status = match r {
            Outcome::Normal(NavAction::StartEdit) => Status::Insert,
            Outcome::Committed => Status::Normal,
            Outcome::Normal(_) => if key == Key::Up || key == Key::Down || key == Key::Right {
                Status::Line(self.nav.line())
            } else {
                self.status
            },
            Outcome::Editing(_) => self.status,
        };
        r
    }

    /// Handles one key press.
    fn dispatch(&mut self, key: Key) -> (r: Outcome)
        requires
            old(self).wf(),
        ensures
            final(self).wf(),
            final(self).status_spec() == old(self).status_spec(),
            final(self).policy_spec() == old(self).policy_spec(),
            step_post(*old(self), *final(self), key, r),
    {
        let session = self.session.take();
        match session {
            None => {
                let act = self.nav.handle(key);
                if act == NavAction::StartEdit {
                    let row = self.nav.row();
                    let text = self.buffer.line(row);
                    let ed = LineEditor::new(text, self.nav.x(), self.policy);
                    if ed.overflows(self.nav.width()) {
                        self.commit(row, ed.into_text());
                        Outcome::Committed
                    } else {
                        self.session = Some(ed);
                        self.session_row = row;
                        Outcome::Normal(act)
                    }
                } else {
                    Outcome::Normal(act)
                }
            },
            Some(mut ed) => {
                let rp = ed.apply(key);
                if rp == Reply::Commit || (rp != Reply::Quit && ed.overflows(self.nav.width())) {
                    let row = self.session_row;
                    self.commit(row, ed.into_text());
                    Outcome::Committed
                } else {
                    self.session = Some(ed);
                    Outcome::Editing(rp)
                }
            },
        }
    }
}

} // verus!
