//! The buffer of display lines, keyed `1..=total`, built once from a file's
//! text by splitting it into lines and wrapping each at the terminal width.
use vstd::prelude::*;
use crate::wrap::{texts, wrap, wrapped};

verus! {

/// The text split at every `'\n'`: always at least one piece.
pub open spec fn pieces(t: Seq<char>) -> Seq<Seq<char>>
    decreases t.len(),
{
    if t.len() == 0 {
        seq![Seq::empty()]
    } else {
        let p = pieces(t.drop_last());
        if t.last() == '\n' {
            p.push(Seq::empty())
        } else {
            p.update(p.len() - 1, p.last().push(t.last()))
        }
    }
}

/// A line that ended in `"\r\n"` loses its `'\r'`.
pub open spec fn strip_cr(l: Seq<char>) -> Seq<char> {
    if l.len() > 0 && l.last() == '\r' {
        l.drop_last()
    } else {
        l
    }
}

/// The logical lines of a text: split at `'\n'` or `"\r\n"`; a final line
/// ending adds no empty line after it, and an empty text has no lines.
pub open spec fn lines_of(t: Seq<char>) -> Seq<Seq<char>> {
    let p = pieces(t);
    let body = p.drop_last().map_values(|l: Seq<char>| strip_cr(l));
    if p.last().len() == 0 {
        body
    } else {
        body.push(p.last())
    }
}

/// All display lines of a sequence of logical lines, in order.
pub open spec fn wrap_all(lines: Seq<Seq<char>>, width: nat) -> Seq<Seq<char>>
    decreases lines.len(),
{
    if lines.len() == 0 {
        Seq::empty()
    } else {
        wrap_all(lines.drop_last(), width) + wrapped(lines.last(), width)
    }
}

/// The text of the display line with key `key` (keys start at 1); a key
/// with no line reads as a blank row.
pub open spec fn row_text(rows: Seq<Seq<char>>, key: int) -> Seq<char> {
    if 1 <= key <= rows.len() {
        rows[key - 1]
    } else {
        Seq::empty()
    }
}

fn strip_cr_in_place(l: &mut Vec<char>)
    ensures
        final(l)@ == strip_cr(old(l)@),
{
    let n = l.len();
    if n > 0 && l[n - 1] == '\r' {
        l.pop();
    }
}

/// Splits a text into its logical lines.
pub fn split_lines(text: &Vec<char>) -> (r: Vec<Vec<char>>)
    ensures
        texts(r@) == lines_of(text@),
{
    let mut out: Vec<Vec<char>> = Vec::new();
    let mut cur: Vec<char> = Vec::new();
    let mut i: usize = 0;
    assert(text@.take(0) =~= Seq::<char>::empty());
    while i < text.len()
        invariant
            i <= text@.len(),
            pieces(text@.take(i as int)).len() >= 1,
            texts(out@) == pieces(text@.take(i as int)).drop_last().map_values(
                |l: Seq<char>| strip_cr(l),
            ),
            cur@ == pieces(text@.take(i as int)).last(),
        decreases text@.len() - i,
    {
        let ghost t0 = text@.take(i as int);
        let ghost p = pieces(t0);
        let ghost t1 = text@.take(i + 1);
        assert(t1.drop_last() =~= t0);
        assert(t1.last() == text@[i as int]);
        let c = text[i];
        if c == '\n' {
            let mut done = cur;
            strip_cr_in_place(&mut done);
            let ghost before = texts(out@);
            out.push(done);
            cur = Vec::new();
            assert(pieces(t1) == p.push(Seq::empty()));
            assert(texts(out@) =~= before.push(strip_cr(p.last())));
            assert(pieces(t1).drop_last() =~= p);
            assert(p.map_values(|l: Seq<char>| strip_cr(l)) =~= p.drop_last().map_values(
                |l: Seq<char>| strip_cr(l),
            ).push(strip_cr(p.last())));
        } else {
            cur.push(c);
            assert(pieces(t1) == p.update(p.len() - 1, p.last().push(c)));
            assert(pieces(t1).drop_last() =~= p.drop_last());
        }
        i = i + 1;
    }
    assert(text@.take(i as int) =~= text@);
    if cur.len() > 0 {
        let ghost before = texts(out@);
        out.push(cur);
        assert(texts(out@) =~= before.push(pieces(text@).last()));
    }
    out
}

/// The display lines of a file, keyed `1..=total`.
pub struct Buffer {
    lines: Vec<Vec<char>>,
}

impl View for Buffer {
    type V = Seq<Seq<char>>;

    closed spec fn view(&self) -> Seq<Seq<char>> {
        texts(self.lines@)
    }
}

impl Buffer {
    /// Wraps each logical line at `width` and numbers the display lines in
    /// order from 1.
    pub fn from_lines(lines: &Vec<Vec<char>>, width: usize) -> (r: Buffer)
        requires
            width > 0,
        ensures
            r@ == wrap_all(texts(lines@), width as nat),
    {
        let mut out: Vec<Vec<char>> = Vec::new();
        let mut i: usize = 0;
        assert(texts(lines@).take(0) =~= Seq::<Seq<char>>::empty());
        while i < lines.len()
            invariant
                width > 0,
                i <= lines@.len(),
                texts(out@) == wrap_all(texts(lines@).take(i as int), width as nat),
            decreases lines@.len() - i,
        {
            let chunks = wrap(&lines[i], width);
            let ghost before = texts(out@);
            let mut k: usize = 0;
            while k < chunks.len()
                invariant
                    k <= chunks@.len(),
                    texts(out@) == before + texts(chunks@).take(k as int),
                decreases chunks@.len() - k,
            {
                let c = chunks[k].clone();
                assert(c@ =~= chunks@[k as int]@);
                let ghost prev = texts(out@);
                out.push(c);
                assert(texts(out@) =~= prev.push(c@));
                assert(texts(chunks@).take(k + 1) =~= texts(chunks@).take(k as int).push(c@));
                k = k + 1;
                assert(texts(out@) =~= before + texts(chunks@).take(k as int));
            }
            let ghost ls = texts(lines@);
            assert(ls.take(i + 1).drop_last() =~= ls.take(i as int));
            assert(texts(chunks@).take(k as int) =~= texts(chunks@));
            i = i + 1;
        }
        assert(texts(lines@).take(i as int) =~= texts(lines@));
        Buffer { lines: out }
    }

    /// Splits `text` into logical lines and wraps each at `width`.
    pub fn load(text: &Vec<char>, width: usize) -> (r: Buffer)
        requires
            width > 0,
        ensures
            r@ == wrap_all(lines_of(text@), width as nat),
    {
        let lines = split_lines(text);
        Buffer::from_lines(&lines, width)
    }

    /// The number of display lines.
    pub fn total(&self) -> (r: usize)
        ensures
            r == self@.len(),
    {
        self.lines.len()
    }

    /// The text of the display line `key`, blank where there is none.
    pub fn line(&self, key: usize) -> (r: Vec<char>)
        ensures
            r@ == row_text(self@, key as int),
    {
        if key >= 1 && key <= self.lines.len() {
            let r = self.lines[key - 1].clone();
            assert(r@ =~= self.lines@[key - 1]@);
            r
        } else {
            Vec::new()
        }
    }

    /// Overwrites the text of display line `key`, if there is such a line.
    pub fn replace(&mut self, key: usize, text: Vec<char>) -> (done: bool)
        ensures
            done == (1 <= key <= old(self)@.len()),
            final(self)@ == if done {
                old(self)@.update(key - 1, text@)
            } else {
                old(self)@
            },
    {
        if key >= 1 && key <= self.lines.len() {
            self.lines.set(key - 1, text);
            assert(texts(self.lines@) =~= texts(old(self).lines@).update(key - 1, text@));
            true
        } else {
            false
        }
    }

    /// The `height` rows of the window that starts at key `start`, top to
    /// bottom, blank where a key has no line.
    pub fn window(&self, start: usize, height: usize) -> (r: Vec<Vec<char>>)
        ensures
            r@.len() == height,
            forall|k: int|
                0 <= k < height ==> #[trigger] texts(r@)[k] == row_text(self@, start + k),
    {
        let mut out: Vec<Vec<char>> = Vec::new();
        let mut k: usize = 0;
        while k < height
            invariant
                k <= height,
                out@.len() == k,
                forall|j: int|
                    0 <= j < k ==> #[trigger] texts(out@)[j] == row_text(self@, start + j),
            decreases height - k,
        {
            let n = self.lines.len();
            assert(self@.len() == n);
            let row = if k <= usize::MAX - start {
                self.line(start + k)
            } else {
                Vec::new()
            };
            assert(row@ == row_text(self@, start + k));
            let ghost before = texts(out@);
            out.push(row);
            assert(texts(out@) =~= before.push(row@));
            k = k + 1;
        }
        out
    }
}

} // verus!
