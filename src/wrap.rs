//! Splitting one logical line into display lines no wider than the terminal.
use vstd::prelude::*;
use vstd::arithmetic::div_mod::lemma_fundamental_div_mod_converse;

verus! {

/// The display lines of `line` at `width`: chunks of `width` characters,
/// the last one possibly shorter. An empty line gives one empty chunk.
pub open spec fn wrapped(line: Seq<char>, width: nat) -> Seq<Seq<char>>
    decreases line.len(),
{
    if width == 0 || line.len() <= width {
        seq![line]
    } else {
        seq![line.take(width as int)] + wrapped(line.skip(width as int), width)
    }
}

/// The characters of each line in `v`.
pub open spec fn texts(v: Seq<Vec<char>>) -> Seq<Seq<char>> {
    v.map_values(|l: Vec<char>| l@)
}

/// The number of display lines that a line of `len` characters takes.
pub open spec fn chunk_count(len: nat, width: nat) -> nat {
    if len == 0 {
        1
    } else {
        ((len + width - 1) as nat) / width
    }
}

/// Copies the characters at indices `[lo, hi)`.
pub(crate) fn copy_range(s: &Vec<char>, lo: usize, hi: usize) -> (r: Vec<char>)
    requires
        lo <= hi <= s@.len(),
    ensures
        r@ == s@.subrange(lo as int, hi as int),
{
    let mut r: Vec<char> = Vec::new();
    let mut k: usize = lo;
    while k < hi
        invariant
            lo <= k <= hi <= s@.len(),
            r@ == s@.subrange(lo as int, k as int),
        decreases hi - k,
    {
        r.push(s[k]);
        k = k + 1;
        assert(r@ =~= s@.subrange(lo as int, k as int));
    }
    r
}

/// Splits `line` into chunks of at most `width` characters, on character
/// boundaries, keeping their order.
pub fn wrap(line: &Vec<char>, width: usize) -> (r: Vec<Vec<char>>)
    requires
        width > 0,
    ensures
        texts(r@) == wrapped(line@, width as nat),
{
    let ghost w = width as nat;
    let mut out: Vec<Vec<char>> = Vec::new();
    let mut pos: usize = 0;
    assert(line@.skip(0) =~= line@);
    while line.len() - pos > width
        invariant
            width > 0,
            w == width as nat,
            pos <= line@.len(),
            texts(out@) + wrapped(line@.skip(pos as int), w) == wrapped(line@, w),
        decreases line@.len() - pos,
    {
        let chunk = copy_range(line, pos, pos + width);
        let ghost rest = line@.skip(pos as int);
        let ghost before = texts(out@);
        assert(rest.take(width as int) =~= chunk@);
        assert(rest.skip(width as int) =~= line@.skip(pos + width));
        out.push(chunk);
        assert(texts(out@) =~= before.push(chunk@));
        assert(before + wrapped(rest, w) =~= texts(out@) + wrapped(
            line@.skip(pos + width),
            w,
        ));
        pos = pos + width;
    }
    let last = copy_range(line, pos, line.len());
    let ghost before = texts(out@);
    assert(line@.skip(pos as int) =~= last@);
    out.push(last);
    assert(texts(out@) =~= before.push(last@));
    assert(before + seq![last@] =~= texts(out@));
    out
}

proof fn lemma_wrapped_flatten(line: Seq<char>, width: nat)
    requires
        width > 0,
    ensures
        wrapped(line, width).flatten() == line,
    decreases line.len(),
{
    let r = wrapped(line, width);
    if line.len() <= width {
        assert(r.drop_first() =~= Seq::<Seq<char>>::empty());
        assert(r.drop_first().flatten() == Seq::<char>::empty());
        assert(r.flatten() =~= line);
    } else {
        let rest = wrapped(line.skip(width as int), width);
        lemma_wrapped_flatten(line.skip(width as int), width);
        assert(r.drop_first() =~= rest);
        assert(line.take(width as int) + line.skip(width as int) =~= line);
    }
}

proof fn lemma_wrapped_shape(line: Seq<char>, width: nat)
    requires
        width > 0,
    ensures
        wrapped(line, width).len() >= 1,
        forall|k: int|
            0 <= k < wrapped(line, width).len() ==> #[trigger] wrapped(line, width)[k].len()
                <= width,
        forall|k: int|
            0 <= k < wrapped(line, width).len() - 1 ==> #[trigger] wrapped(line, width)[k].len()
                == width,
        line.len() > 0 ==> (wrapped(line, width).len() - 1) * width < line.len()
            <= wrapped(line, width).len() * width,
    decreases line.len(),
{
    let r = wrapped(line, width);
    if line.len() > width {
        let tail = line.skip(width as int);
        lemma_wrapped_shape(tail, width);
        let c = wrapped(tail, width).len();
        assert forall|k: int| 0 <= k < r.len() implies #[trigger] r[k].len() <= width by {
            if k > 0 {
                assert(r[k] == wrapped(tail, width)[k - 1]);
            }
        }
        assert forall|k: int| 0 <= k < r.len() - 1 implies #[trigger] r[k].len() == width by {
            if k > 0 {
                assert(r[k] == wrapped(tail, width)[k - 1]);
            }
        }
        let l = line.len() as int;
        let t = tail.len() as int;
        assert(t == l - width);
        assert((c - 1) * width < t <= c * width);
        assert(c * width < l <= (c + 1) * width) by (nonlinear_arith)
            requires
                (c - 1) * width < t <= c * width,
                t == l - width,
        ;
    }
}

/// Wrapping loses nothing and adds nothing: the chunks concatenate back to
/// the line, every chunk holds at most `width` characters, all but the last
/// exactly `width`, and there are `ceil(len / width)` of them (one for an
/// empty line).
pub proof fn lemma_wrap_laws(line: Seq<char>, width: nat)
    requires
        width > 0,
    ensures
        wrapped(line, width).flatten() == line,
        forall|k: int|
            0 <= k < wrapped(line, width).len() ==> #[trigger] wrapped(line, width)[k].len()
                <= width,
        forall|k: int|
            0 <= k < wrapped(line, width).len() - 1 ==> #[trigger] wrapped(line, width)[k].len()
                == width,
        wrapped(line, width).len() == chunk_count(line.len(), width),
{
    lemma_wrapped_flatten(line, width);
    lemma_wrapped_shape(line, width);
    let c = wrapped(line, width).len() as int;
    let l = line.len() as int;
    let w = width as int;
    if l > 0 {
        let rem = l + w - 1 - c * w;
        assert(0 <= rem < w) by (nonlinear_arith)
            requires
                (c - 1) * w < l <= c * w,
                rem == l + w - 1 - c * w,
        ;
        lemma_fundamental_div_mod_converse(l + w - 1, w, c, rem);
    } else {
        assert(wrapped(line, width).len() == 1);
    }
}

} // verus!
