//! The paint history as a mathematical model: the drawn entries in draw order,
//! and the undone entries waiting to be redone, the most recent last.
use vstd::prelude::*;

use crate::pixel::Pixel;

verus! {

/// Drawing appends the entry and discards whatever was waiting to be redone.
pub open spec fn after_draw(pixels: Seq<Pixel>, redo: Seq<Pixel>, p: Pixel) -> (Seq<Pixel>, Seq<Pixel>) {
    (pixels.push(p), Seq::empty())
}

/// Undoing moves the last drawn entry onto the redo list; with nothing drawn,
/// nothing changes.
pub open spec fn after_undo(pixels: Seq<Pixel>, redo: Seq<Pixel>) -> (Seq<Pixel>, Seq<Pixel>) {
    if pixels.len() == 0 {
        (pixels, redo)
    } else {
        (pixels.drop_last(), redo.push(pixels.last()))
    }
}

/// Redoing moves the last undone entry back onto the history; with nothing
/// undone, nothing changes.
pub open spec fn after_redo(pixels: Seq<Pixel>, redo: Seq<Pixel>) -> (Seq<Pixel>, Seq<Pixel>) {
    if redo.len() == 0 {
        (pixels, redo)
    } else {
        (pixels.push(redo.last()), redo.drop_last())
    }
}

/// Clearing empties the history and leaves the redo list as it is.
pub open spec fn after_clear(pixels: Seq<Pixel>, redo: Seq<Pixel>) -> (Seq<Pixel>, Seq<Pixel>) {
    (Seq::empty(), redo)
}

/// `n` undos in a row.
pub open spec fn undo_times(pixels: Seq<Pixel>, redo: Seq<Pixel>, n: nat) -> (Seq<Pixel>, Seq<Pixel>)
    decreases n,
{
    if n == 0 {
        (pixels, redo)
    } else {
        let (p, r) = after_undo(pixels, redo);
        undo_times(p, r, (n - 1) as nat)
    }
}

/// Drawing each entry of `ps` in turn.
pub open spec fn draw_all(pixels: Seq<Pixel>, redo: Seq<Pixel>, ps: Seq<Pixel>) -> (Seq<Pixel>, Seq<Pixel>)
    decreases ps.len(),
{
    if ps.len() == 0 {
        (pixels, redo)
    } else {
        let (p, r) = draw_all(pixels, redo, ps.drop_last());
        after_draw(p, r, ps.last())
    }
}

/// An undo followed at once by a redo gives back the history, entries and
/// order, and the redo list as they were, whenever there was something to undo.
pub proof fn lemma_undo_then_redo(pixels: Seq<Pixel>, redo: Seq<Pixel>)
    requires
        pixels.len() > 0,
    ensures
        after_redo(after_undo(pixels, redo).0, after_undo(pixels, redo).1) == (pixels, redo),
{
    assert(pixels.drop_last().push(pixels.last()) =~= pixels);
    assert(redo.push(pixels.last()).drop_last() =~= redo);
}

/// Undoing as many times as there are entries empties the history and appends
/// its entries to the redo list in reverse order.
pub proof fn lemma_undo_all(pixels: Seq<Pixel>, redo: Seq<Pixel>)
    ensures
        undo_times(pixels, redo, pixels.len()) == (Seq::<Pixel>::empty(), redo + pixels.reverse()),
    decreases pixels.len(),
{
    if pixels.len() == 0 {
        assert(redo + pixels.reverse() =~= redo);
    } else {
        let rest = pixels.drop_last();
        let moved = redo.push(pixels.last());
        lemma_undo_all(rest, moved);
        assert(undo_times(pixels, redo, pixels.len()) == undo_times(rest, moved, rest.len()));
        assert(moved + rest.reverse() =~= redo + pixels.reverse());
    }
}

/// Drawing an entry and then undoing once per entry of the history empties the
/// history and leaves on the redo list exactly its entries, in reverse order.
pub proof fn lemma_draw_then_undo_all(pixels: Seq<Pixel>, redo: Seq<Pixel>, p: Pixel)
    ensures
        ({
            let (h, r) = after_draw(pixels, redo, p);
            undo_times(h, r, h.len()) == (Seq::<Pixel>::empty(), h.reverse())
        }),
{
    let (h, r) = after_draw(pixels, redo, p);
    lemma_undo_all(h, r);
    assert(r + h.reverse() =~= h.reverse());
}

/// After a clear, the history holds exactly the entries drawn since, in the
/// order they were drawn.
pub proof fn lemma_clear_then_draw(pixels: Seq<Pixel>, redo: Seq<Pixel>, ps: Seq<Pixel>)
    ensures
        after_clear(pixels, redo).0.len() == 0,
        draw_all(after_clear(pixels, redo).0, after_clear(pixels, redo).1, ps).0 == ps,
    decreases ps.len(),
{
    if ps.len() > 0 {
        lemma_clear_then_draw(pixels, redo, ps.drop_last());
        assert(ps.drop_last().push(ps.last()) =~= ps);
    }
}

} // verus!
