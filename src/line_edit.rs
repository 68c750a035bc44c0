//! The single-line editor: a character buffer with a cursor, driven one key
//! at a time until ENTER or ESCAPE commits the text.
use vstd::prelude::*;
use crate::key::Key;
use crate::text::{is_whitespace, whitespace};

verus! {

/// The abstract state of an editing session: the characters and the cursor
/// index, which lies in `[0, content.len()]`.
pub struct EditState {
    pub content: Seq<char>,
    pub cursor: int,
}

impl EditState {
    pub open spec fn valid(self) -> bool {
        0 <= self.cursor <= self.content.len()
    }
}

/// What the editor does with STOP.
#[derive(Clone, Copy, Debug, PartialEq, Eq, Structural)]
pub enum StopPolicy {
    /// STOP on an empty line ends the whole program; otherwise it is ignored.
    QuitWhenEmpty,
    /// STOP is always ignored inside an editing session.
    Ignore,
}

/// What a key press asks of the surrounding program.
#[derive(Clone, Copy, Debug, PartialEq, Eq, Structural)]
pub enum Reply {
    /// The state may have changed: redraw and read the next key.
    Redraw,
    /// The key was refused at a boundary: sound the alert.
    Bell,
    /// The session is over; its text is the editor's content.
    Commit,
    /// The whole program should end.
    Quit,
}

/// For each character of `s`, whether it is whitespace.
pub open spec fn whitespace_mask(s: Seq<char>) -> Seq<bool> {
    Seq::new(s.len(), |k: int| whitespace(s[k]))
}

/// Start of the run of non-whitespace positions that ends just before `i`,
/// where `ws[k]` says whether position `k` holds whitespace.
pub open spec fn run_start(ws: Seq<bool>, i: int) -> int
    decreases i,
{
    if i <= 0 {
        0
    } else if ws[i - 1] {
        i
    } else {
        run_start(ws, i - 1)
    }
}

/// End of the run of non-whitespace positions that begins at `i`.
pub open spec fn run_end(ws: Seq<bool>, i: int) -> int
    decreases ws.len() - i,
{
    if i >= ws.len() {
        ws.len() as int
    } else if ws[i] {
        i
    } else {
        run_end(ws, i + 1)
    }
}

/// Where CTRL+LEFT moves the cursor: at least one step back, then on until
/// index 0 or an index whose preceding position is whitespace.
pub open spec fn word_left(ws: Seq<bool>, i: int) -> int {
    if i <= 0 {
        0
    } else {
        run_start(ws, i - 1)
    }
}

/// Where CTRL+RIGHT moves the cursor: at least one step forward, then on
/// until the end or an index whose position is whitespace.
pub open spec fn word_right(ws: Seq<bool>, i: int) -> int {
    if i >= ws.len() {
        ws.len() as int
    } else {
        run_end(ws, i + 1)
    }
}

/// First index removed by CTRL+BACKSPACE at cursor `i`: the run of
/// non-whitespace before `i`, and the whitespace that bounds it, if any.
pub open spec fn word_back_cut(ws: Seq<bool>, i: int) -> int {
    let a = run_start(ws, i);
    if a > 0 {
        a - 1
    } else {
        0
    }
}

/// The state after one key, for keys that keep the session open, and for
/// ENTER and ESCAPE the state whose content is committed.
pub open spec fn next_state(st: EditState, key: Key) -> EditState {
    let s = st.content;
    let i = st.cursor;
    let ws = whitespace_mask(s);
    match key {
        Key::Left => if i > 0 { EditState { cursor: i - 1, ..st } } else { st },
        Key::Right => if i < s.len() { EditState { cursor: i + 1, ..st } } else { st },
        Key::CtrlLeft => EditState { cursor: word_left(ws, i), ..st },
        Key::CtrlRight => EditState { cursor: word_right(ws, i), ..st },
        Key::Home => EditState { cursor: 0, ..st },
        Key::End => EditState { cursor: s.len() as int, ..st },
        Key::Backspace => if i > 0 {
            EditState { content: s.remove(i - 1), cursor: i - 1 }
        } else {
            st
        },
        Key::CtrlBackspace => {
            let cut = word_back_cut(ws, i);
            EditState { content: s.take(cut) + s.skip(i), cursor: cut }
        },
        Key::Del => if i < s.len() { EditState { content: s.remove(i), ..st } } else { st },
        Key::CtrlDel => EditState { content: s.take(i) + s.skip(run_end(ws, i)), ..st },
        Key::Enter => EditState { content: s.push('\n'), ..st },
        Key::Char(c) => EditState { content: s.insert(i, c), cursor: i + 1 },
        _ => st,
    }
}

/// The reply to one key.
pub open spec fn reply_to(st: EditState, key: Key, policy: StopPolicy) -> Reply {
    let s = st.content;
    let i = st.cursor;
    match key {
        Key::Stop => if policy == StopPolicy::QuitWhenEmpty && s.len() == 0 {
            Reply::Quit
        } else {
            Reply::Redraw
        },
        Key::Left => if i > 0 { Reply::Redraw } else { Reply::Bell },
        Key::Right => if i < s.len() { Reply::Redraw } else { Reply::Bell },
        Key::Backspace => if i > 0 { Reply::Redraw } else { Reply::Bell },
        Key::Del => if i < s.len() { Reply::Redraw } else { Reply::Bell },
        Key::Enter => Reply::Commit,
        Key::Escape => Reply::Commit,
        Key::Up | Key::Down | Key::Unknown => Reply::Bell,
        _ => Reply::Redraw,
    }
}

/// The state after a sequence of keys, each applied as by `next_state`.
pub open spec fn run_keys(st: EditState, keys: Seq<Key>) -> EditState
    decreases keys.len(),
{
    if keys.len() == 0 {
        st
    } else {
        run_keys(next_state(st, keys[0]), keys.drop_first())
    }
}

/// An editing session over one line of text.
pub struct LineEditor {
    content: Vec<char>,
    cursor: usize,
    policy: StopPolicy,
}

impl View for LineEditor {
    type V = EditState;

    closed spec fn view(&self) -> EditState {
        EditState { content: self.content@, cursor: self.cursor as int }
    }
}

impl LineEditor {
    pub closed spec fn policy_spec(&self) -> StopPolicy {
        self.policy
    }

    /// Starts a session on `text` with the cursor at `column`, or at the end
    /// of the text where `column` lies beyond it.
    pub fn new(text: Vec<char>, column: usize, policy: StopPolicy) -> (r: LineEditor)
        ensures
            r@.content == text@,
            r@.cursor == if column <= text@.len() { column as int } else { text@.len() as int },
            r.policy_spec() == policy,
            r@.valid(),
    {
        let n = text.len();
        let cursor = if column <= n { column } else { n };
        LineEditor { content: text, cursor, policy }
    }

    pub fn content(&self) -> (r: &Vec<char>)
        ensures
            r@ == self@.content,
    {
        &self.content
    }

    pub fn cursor(&self) -> (r: usize)
        ensures
            r == self@.cursor,
    {
        self.cursor
    }

    /// Ends the session and hands back its text.
    pub fn into_text(self) -> (r: Vec<char>)
        ensures
            r@ == self@.content,
    {
        self.content
    }

    /// Whether the text has grown wider than `width`, at which point the
    /// session ends with the text as it stands.
    pub fn overflows(&self, width: usize) -> (r: bool)
        ensures
            r == (self@.content.len() > width),
    {
        self.content.len() > width
    }

    /// LEFT: one step back, unless at index 0.
    pub fn move_left(&mut self) -> (moved: bool)
        requires
            old(self)@.valid(),
        ensures
            final(self)@ == next_state(old(self)@, Key::Left),
            final(self)@.valid(),
            moved == (old(self)@.cursor > 0),
            final(self).policy_spec() == old(self).policy_spec(),
    {
        if self.cursor > 0 {
            self.cursor = self.cursor - 1;
            true
        } else {
            false
        }
    }

    /// RIGHT: one step forward, unless at the end.
    pub fn move_right(&mut self) -> (moved: bool)
        requires
            old(self)@.valid(),
        ensures
            final(self)@ == next_state(old(self)@, Key::Right),
            final(self)@.valid(),
            moved == (old(self)@.cursor < old(self)@.content.len()),
            final(self).policy_spec() == old(self).policy_spec(),
    {
        if self.cursor < self.content.len() {
            self.cursor = self.cursor + 1;
            true
        } else {
            false
        }
    }

    /// CTRL+LEFT: back to the start of the previous word.
    pub fn word_left(&mut self)
        requires
            old(self)@.valid(),
        ensures
            final(self)@ == next_state(old(self)@, Key::CtrlLeft),
            final(self)@.valid(),
            final(self).policy_spec() == old(self).policy_spec(),
    {
        if self.cursor > 0 {
            let ws = mask_of(&self.content);
            self.cursor = run_start_in(&ws, self.cursor - 1);
        }
    }

    /// CTRL+RIGHT: forward to the next whitespace or the end.
    pub fn word_right(&mut self)
        requires
            old(self)@.valid(),
        ensures
            final(self)@ == next_state(old(self)@, Key::CtrlRight),
            final(self)@.valid(),
            final(self).policy_spec() == old(self).policy_spec(),
    {
        if self.cursor < self.content.len() {
            let ws = mask_of(&self.content);
            self.cursor = run_end_in(&ws, self.cursor + 1);
        }
    }

    /// HOME: to index 0.
    pub fn home(&mut self)
        requires
            old(self)@.valid(),
        ensures
            final(self)@ == next_state(old(self)@, Key::Home),
            final(self)@.valid(),
            final(self).policy_spec() == old(self).policy_spec(),
    {
        self.cursor = 0;
    }

    /// END: to the end of the text.
    pub fn end(&mut self)
        requires
            old(self)@.valid(),
        ensures
            final(self)@ == next_state(old(self)@, Key::End),
            final(self)@.valid(),
            final(self).policy_spec() == old(self).policy_spec(),
    {
        self.cursor = self.content.len();
    }

    /// BACKSPACE: removes the character before the cursor, unless at index 0.
    pub fn backspace(&mut self) -> (removed: bool)
        requires
            old(self)@.valid(),
        ensures
            final(self)@ == next_state(old(self)@, Key::Backspace),
            final(self)@.valid(),
            removed == (old(self)@.cursor > 0),
            final(self).policy_spec() == old(self).policy_spec(),
    {
        if self.cursor > 0 {
            self.content.remove(self.cursor - 1);
            self.cursor = self.cursor - 1;
            true
        } else {
            false
        }
    }

    /// CTRL+BACKSPACE: removes the word before the cursor and the one
    /// whitespace character that bounds it, if there is one.
    pub fn delete_word_back(&mut self)
        requires
            old(self)@.valid(),
        ensures
            final(self)@ == next_state(old(self)@, Key::CtrlBackspace),
            final(self)@.valid(),
            final(self).policy_spec() == old(self).policy_spec(),
    {
        let ws = mask_of(&self.content);
        let a = run_start_in(&ws, self.cursor);
        let cut = if a > 0 { a - 1 } else { 0 };
        cut_out(&mut self.content, cut, self.cursor);
        self.cursor = cut;
    }

    /// DEL: removes the character at the cursor, unless at the end.
    pub fn delete(&mut self) -> (removed: bool)
        requires
            old(self)@.valid(),
        ensures
            final(self)@ == next_state(old(self)@, Key::Del),
            final(self)@.valid(),
            removed == (old(self)@.cursor < old(self)@.content.len()),
            final(self).policy_spec() == old(self).policy_spec(),
    {
        if self.cursor < self.content.len() {
            self.content.remove(self.cursor);
            true
        } else {
            false
        }
    }

    /// CTRL+DEL: removes the word that starts at the cursor.
    pub fn delete_word_forward(&mut self)
        requires
            old(self)@.valid(),
        ensures
            final(self)@ == next_state(old(self)@, Key::CtrlDel),
            final(self)@.valid(),
            final(self).policy_spec() == old(self).policy_spec(),
    {
        let ws = mask_of(&self.content);
        let e = run_end_in(&ws, self.cursor);
        cut_out(&mut self.content, self.cursor, e);
    }

    /// A typed character: inserted at the cursor, which moves past it.
    pub fn insert(&mut self, c: char)
        requires
            old(self)@.valid(),
        ensures
            final(self)@ == next_state(old(self)@, Key::Char(c)),
            final(self)@.valid(),
            final(self).policy_spec() == old(self).policy_spec(),
    {
        self.content.insert(self.cursor, c);
        let n = self.content.len();
        assert(self.cursor < n);
        self.cursor = self.cursor + 1;
    }

    /// Applies one key. ENTER appends a newline and commits; ESCAPE commits
    /// the text as it is; refused moves, keys that do not edit a line (UP,
    /// DOWN) and unknown keys ring the bell.
    pub fn apply(&mut self, key: Key) -> (r: Reply)
        requires
            old(self)@.valid(),
        ensures
            final(self)@ == next_state(old(self)@, key),
            r == reply_to(old(self)@, key, old(self).policy_spec()),
            final(self)@.valid(),
            final(self).policy_spec() == old(self).policy_spec(),
    {
        proof {
            lemma_next_state_valid(self@, key);
        }
        match key {
            Key::Stop => {
                if self.policy == StopPolicy::QuitWhenEmpty && self.content.len() == 0 {
                    Reply::Quit
                } else {
                    Reply::Redraw
                }
            },
            Key::Left => if self.move_left() { Reply::Redraw } else { Reply::Bell },
            Key::Right => if self.move_right() { Reply::Redraw } else { Reply::Bell },
            Key::CtrlLeft => {
                self.word_left();
                Reply::Redraw
            },
            Key::CtrlRight => {
                self.word_right();
                Reply::Redraw
            },
            Key::Home => {
                self.home();
                Reply::Redraw
            },
            Key::End => {
                self.end();
                Reply::Redraw
            },
            Key::Backspace => if self.backspace() { Reply::Redraw } else { Reply::Bell },
            Key::CtrlBackspace => {
                self.delete_word_back();
                Reply::Redraw
            },
            Key::Del => if self.delete() { Reply::Redraw } else { Reply::Bell },
            Key::CtrlDel => {
                self.delete_word_forward();
                Reply::Redraw
            },
            Key::Enter => {
                self.content.push('\n');
                Reply::Commit
            },
            Key::Escape => Reply::Commit,
            Key::Char(c) => {
                self.insert(c);
                Reply::Redraw
            },
            Key::Up | Key::Down | Key::Unknown => Reply::Bell,
        }
    }
}

/// Tells for each character whether it is whitespace.
fn mask_of(s: &Vec<char>) -> (r: Vec<bool>)
    ensures
        r@ == whitespace_mask(s@),
{
    let mut r: Vec<bool> = Vec::new();
    let mut k: usize = 0;
    while k < s.len()
        invariant
            k <= s@.len(),
            r@ == whitespace_mask(s@).take(k as int),
        decreases s@.len() - k,
    {
        r.push(is_whitespace(s[k]));
        k = k + 1;
        assert(r@ =~= whitespace_mask(s@).take(k as int));
    }
    assert(r@ =~= whitespace_mask(s@));
    r
}

/// Scans back from `i` over positions that `ws` marks as non-whitespace and
/// returns where the run starts.
pub fn run_start_in(ws: &Vec<bool>, i: usize) -> (r: usize)
    requires
        i <= ws@.len(),
    ensures
        r == run_start(ws@, i as int),
        r <= i,
{
    proof {
        lemma_run_start_bounds(ws@, i as int);
    }
    let mut j: usize = i;
    while j > 0 && !ws[j - 1]
        invariant
            j <= i <= ws@.len(),
            run_start(ws@, j as int) == run_start(ws@, i as int),
        decreases j,
    {
        j = j - 1;
    }
    j
}

/// Scans forward from `i` over positions that `ws` marks as non-whitespace
/// and returns where the run ends.
pub fn run_end_in(ws: &Vec<bool>, i: usize) -> (r: usize)
    requires
        i <= ws@.len(),
    ensures
        r == run_end(ws@, i as int),
        i <= r <= ws@.len(),
{
    proof {
        lemma_run_end_bounds(ws@, i as int);
    }
    let mut j: usize = i;
    while j < ws.len() && !ws[j]
        invariant
            i <= j <= ws@.len(),
            run_end(ws@, j as int) == run_end(ws@, i as int),
        decreases ws@.len() - j,
    {
        j = j + 1;
    }
    j
}

/// Removes the characters at indices `[lo, hi)`.
fn cut_out(v: &mut Vec<char>, lo: usize, hi: usize)
    requires
        lo <= hi <= old(v)@.len(),
    ensures
        final(v)@ == old(v)@.take(lo as int) + old(v)@.skip(hi as int),
{
    let mut k: usize = lo;
    while k < hi
        invariant
            lo <= k <= hi <= old(v)@.len(),
            v@ == old(v)@.take(lo as int) + old(v)@.skip(k as int),
        decreases hi - k,
    {
        v.remove(lo);
        k = k + 1;
        assert(v@ =~= old(v)@.take(lo as int) + old(v)@.skip(k as int));
    }
    assert(v@ =~= old(v)@.take(lo as int) + old(v)@.skip(hi as int));
}

proof fn lemma_run_start_bounds(ws: Seq<bool>, i: int)
    requires
        0 <= i <= ws.len(),
    ensures
        0 <= run_start(ws, i) <= i,
    decreases i,
{
    if i > 0 && !ws[i - 1] {
        lemma_run_start_bounds(ws, i - 1);
    }
}

proof fn lemma_run_end_bounds(ws: Seq<bool>, i: int)
    requires
        0 <= i <= ws.len(),
    ensures
        i <= run_end(ws, i) <= ws.len(),
    decreases ws.len() - i,
{
    if i < ws.len() && !ws[i] {
        lemma_run_end_bounds(ws, i + 1);
    }
}

/// Every key keeps the cursor within `[0, content.len()]`.
pub proof fn lemma_next_state_valid(st: EditState, key: Key)
    requires
        st.valid(),
    ensures
        next_state(st, key).valid(),
{
    let ws = whitespace_mask(st.content);
    let i = st.cursor;
    match key {
        Key::CtrlLeft => {
            if i > 0 {
                lemma_run_start_bounds(ws, i - 1);
            }
        },
        Key::CtrlRight => {
            if i < ws.len() {
                lemma_run_end_bounds(ws, i + 1);
            }
        },
        Key::CtrlBackspace => {
            lemma_run_start_bounds(ws, i);
        },
        Key::CtrlDel => {
            lemma_run_end_bounds(ws, i);
        },
        _ => {},
    }
}

/// Whatever keys are pressed, LEFT and RIGHT among them, the cursor never
/// leaves `[0, content.len()]`.
pub proof fn lemma_cursor_stays_in_bounds(st: EditState, keys: Seq<Key>)
    requires
        st.valid(),
    ensures
        run_keys(st, keys).valid(),
    decreases keys.len(),
{
    if keys.len() > 0 {
        lemma_next_state_valid(st, keys[0]);
        lemma_cursor_stays_in_bounds(next_state(st, keys[0]), keys.drop_first());
    }
}

/// Typing a character and then pressing BACKSPACE restores the content and
/// the cursor exactly.
pub proof fn lemma_insert_then_backspace(st: EditState, c: char)
    requires
        st.valid(),
    ensures
        next_state(next_state(st, Key::Char(c)), Key::Backspace) == st,
{
    let t = next_state(st, Key::Char(c));
    assert(t.content.remove(st.cursor) =~= st.content);
}

/// CTRL+LEFT lands on index 0 or just after a whitespace character, and
/// CTRL+RIGHT on the end or on a whitespace character.
pub proof fn lemma_word_moves_land_on_boundaries(st: EditState)
    requires
        st.valid(),
    ensures
        ({
            let l = next_state(st, Key::CtrlLeft).cursor;
            l == 0 || whitespace(st.content[l - 1])
        }),
        ({
            let r = next_state(st, Key::CtrlRight).cursor;
            r == st.content.len() || whitespace(st.content[r])
        }),
{
    let ws = whitespace_mask(st.content);
    if st.cursor > 0 {
        lemma_run_start_lands(ws, st.cursor - 1);
        lemma_run_start_bounds(ws, st.cursor - 1);
    }
    if st.cursor < ws.len() {
        lemma_run_end_lands(ws, st.cursor + 1);
        lemma_run_end_bounds(ws, st.cursor + 1);
    }
}

proof fn lemma_run_start_lands(ws: Seq<bool>, i: int)
    requires
        i <= ws.len(),
    ensures
        run_start(ws, i) == 0 || ws[run_start(ws, i) - 1],
    decreases i,
{
    if i > 0 && !ws[i - 1] {
        lemma_run_start_lands(ws, i - 1);
    }
}

proof fn lemma_run_end_lands(ws: Seq<bool>, i: int)
    requires
        0 <= i,
    ensures
        run_end(ws, i) == ws.len() || ws[run_end(ws, i)],
    decreases ws.len() - i,
{
    if i < ws.len() && !ws[i] {
        lemma_run_end_lands(ws, i + 1);
    }
}

/// ENTER commits the content with one newline appended after it; ESCAPE
/// commits it unchanged.
pub proof fn lemma_commit_newline(st: EditState, policy: StopPolicy)
    ensures
        reply_to(st, Key::Enter, policy) == Reply::Commit,
        next_state(st, Key::Enter).content == st.content.push('\n'),
        next_state(st, Key::Enter).content.last() == '\n',
        next_state(st, Key::Enter).content.drop_last() == st.content,
        reply_to(st, Key::Escape, policy) == Reply::Commit,
        next_state(st, Key::Escape).content == st.content,
{
    assert(st.content.push('\n').drop_last() =~= st.content);
}

/// Typing two characters and then pressing ESCAPE commits the text with
/// the two characters inserted at the cursor, and no newline.
pub proof fn lemma_type_then_escape(st: EditState, a: char, b: char, policy: StopPolicy)
    requires
        st.valid(),
    ensures
        ({
            let s1 = next_state(st, Key::Char(a));
            let s2 = next_state(s1, Key::Char(b));
            &&& reply_to(st, Key::Char(a), policy) == Reply::Redraw
            &&& reply_to(s1, Key::Char(b), policy) == Reply::Redraw
            &&& reply_to(s2, Key::Escape, policy) == Reply::Commit
            &&& next_state(s2, Key::Escape).content == st.content.take(st.cursor) + seq![a, b]
                + st.content.skip(st.cursor)
        }),
{
    let s1 = next_state(st, Key::Char(a));
    let s2 = next_state(s1, Key::Char(b));
    assert(s2.content =~= st.content.take(st.cursor) + seq![a, b] + st.content.skip(st.cursor));
}

} // verus!
