//! What follows from the rules of a window for whole runs of characters:
//! how far a line fills, when the screen begins to scroll, where a tab and a
//! backspace leave the cursor.

use crate::chars::CellView;
use crate::error::TextuiError;
use crate::window::{cell_of, is_printable, VlineView, WindowView};
use vstd::arithmetic::div_mod::{
    lemma_add_mod_noop, lemma_div_plus_one, lemma_fundamental_div_mod,
    lemma_fundamental_div_mod_converse, lemma_mod_add_multiples_vanish, lemma_mod_pos_bound,
    lemma_mod_twice, lemma_small_mod,
};
use vstd::prelude::*;

verus! {

/// Going on by one in a ring of `n` places: from the place `j % n` the next
/// place is `(j + 1) % n`.
pub proof fn lemma_ring_step(j: int, n: int)
    requires
        0 <= j,
        1 <= n,
    ensures
        0 <= j % n < n,
        (if j % n + 1 < n {
            j % n + 1
        } else {
            0
        }) == (j + 1) % n,
{
    lemma_fundamental_div_mod(j, n);
    lemma_mod_pos_bound(j, n);
    if j % n + 1 < n {
        assert(j + 1 == (j / n) * n + (j % n + 1)) by (nonlinear_arith)
            requires
                j == n * (j / n) + (j % n),
        ;
        lemma_fundamental_div_mod_converse(j + 1, n, j / n, j % n + 1);
    } else {
        assert(j + 1 == (j / n + 1) * n + 0) by (nonlinear_arith)
            requires
                j == n * (j / n) + (j % n),
                j % n == n - 1,
        ;
        lemma_fundamental_div_mod_converse(j + 1, n, j / n + 1, 0);
    }
}

/// A character that takes a cell, written to a window of colour while
/// writing is switched on, is stored at the cursor; where that was the last
/// column, a new line is begun behind it.
pub proof fn lemma_put_visible(
    w: WindowView,
    character: char,
    frcolor: u32,
    bkcolor: u32,
    actual_line_sum: int,
)
    requires
        w.wf(),
        w.chromatic,
        is_printable(character),
        w.column() < w.chars_per_line,
    ensures
        w.put_char_result(character, true) == Ok::<(), TextuiError>(()),
        w.column() < w.chars_per_line - 1 ==> w.put_char(
            character,
            frcolor,
            bkcolor,
            true,
            actual_line_sum,
        ) == w.store(cell_of(character, frcolor, bkcolor)),
        w.column() == w.chars_per_line - 1 ==> w.put_char(
            character,
            frcolor,
            bkcolor,
            true,
            actual_line_sum,
        ) == w.store(cell_of(character, frcolor, bkcolor)).new_line(actual_line_sum),
{
}

/// A cell written before the last column of its line is stored at the
/// cursor, which moves one column on. No new line is begun, and nothing else
/// in the window changes.
pub proof fn lemma_write_in_line(w: WindowView, cell: CellView, actual_line_sum: int)
    requires
        w.wf(),
        w.column() < w.chars_per_line - 1,
    ensures
        ({
            let after = w.put_printable(cell, actual_line_sum);
            &&& after.wf()
            &&& after.vline_operating == w.vline_operating
            &&& after.top_vline == w.top_vline
            &&& after.vlines_used == w.vlines_used
            &&& after.column() == w.column() + 1
            &&& after.vlines[w.vline_operating].chars[w.column()] == cell
            &&& after.vlines.len() == w.vlines.len()
            &&& forall|j: int|
                0 <= j < w.chars_per_line && j != w.column()
                    ==> #[trigger] after.vlines[w.vline_operating].chars[j]
                    == w.vlines[w.vline_operating].chars[j]
            &&& forall|l: int|
                0 <= l < w.vlines.len() && l != w.vline_operating ==> #[trigger] after.vlines[l]
                    == w.vlines[l]
        }),
{
    assert(w.vlines[w.vline_operating].wf(w.chars_per_line));
    w.lemma_store_wf(cell);
}

/// A cell written in the last column of its line is stored there, and a new
/// line is begun behind it: the cursor moves to the start of the next line
/// of the ring, which is blank. The cells before the last column stay, and
/// so does every line but these two.
pub proof fn lemma_write_last_column(w: WindowView, cell: CellView, actual_line_sum: int)
    requires
        w.wf(),
        w.column() == w.chars_per_line - 1,
        w.vlines_used < i32::MAX || w.vlines_used == actual_line_sum,
    ensures
        ({
            let after = w.put_printable(cell, actual_line_sum);
            let next = (w.vline_operating + 1) % w.vline_sum;
            &&& after == w.store(cell).new_line(actual_line_sum)
            &&& after.wf()
            &&& after.vline_operating == next
            &&& after.column() == 0
            &&& after.vlines[next] == VlineView::cleared(w.chars_per_line)
            &&& after.vlines.len() == w.vlines.len()
            &&& w.vline_sum > 1 ==> after.vlines[w.vline_operating].chars[w.chars_per_line - 1]
                == cell && after.vlines[w.vline_operating].index == w.chars_per_line
            &&& w.vline_sum > 1 ==> forall|j: int|
                0 <= j < w.chars_per_line - 1
                    ==> #[trigger] after.vlines[w.vline_operating].chars[j]
                    == w.vlines[w.vline_operating].chars[j]
            &&& forall|l: int|
                0 <= l < w.vlines.len() && l != w.vline_operating && l != next
                    ==> #[trigger] after.vlines[l] == w.vlines[l]
            &&& after.vlines_used == (if w.vlines_used == actual_line_sum {
                w.vlines_used
            } else {
                w.vlines_used + 1
            })
            &&& after.top_vline == (if w.vlines_used == actual_line_sum {
                (w.top_vline + 1) % w.vline_sum
            } else {
                w.top_vline
            })
        }),
{
    assert(w.vlines[w.vline_operating].wf(w.chars_per_line));
    w.lemma_store_wf(cell);
    w.store(cell).lemma_new_line_wf(actual_line_sum);
    lemma_small_mod(w.vline_operating as nat, w.vline_sum as nat);
    lemma_ring_step(w.vline_operating, w.vline_sum);
    lemma_small_mod(w.top_vline as nat, w.vline_sum as nat);
    lemma_ring_step(w.top_vline, w.vline_sum);
}

/// Writing characters that take a cell each fills the line of the cursor
/// from the cursor on, as long as the last column is not reached: the cursor
/// stays in its line and moves on by the number of characters, no new line
/// is begun, the top and the number of lines in use stay, each character
/// stands in its cell in the given colours, and every other cell of the
/// window is as before. So a line of `chars_per_line` cells takes
/// `chars_per_line - 1` characters from its start and leaves the cursor in
/// its last column.
pub proof fn lemma_fill_line(
    w: WindowView,
    text: Seq<char>,
    from: int,
    frcolor: u32,
    bkcolor: u32,
    actual_line_sum: int,
)
    requires
        w.wf(),
        w.chromatic,
        0 <= from <= text.len(),
        forall|i: int| from <= i < text.len() ==> is_printable(#[trigger] text[i]),
        w.column() + (text.len() - from) <= w.chars_per_line - 1,
    ensures
        w.put_text_result(text, from, frcolor, bkcolor, true, actual_line_sum) == Ok::<
            (),
            TextuiError,
        >(()),
        ({
            let after = w.put_text(text, from, frcolor, bkcolor, true, actual_line_sum);
            &&& after.wf()
            &&& after.vline_operating == w.vline_operating
            &&& after.top_vline == w.top_vline
            &&& after.vlines_used == w.vlines_used
            &&& after.vline_sum == w.vline_sum
            &&& after.chars_per_line == w.chars_per_line
            &&& after.column() == w.column() + (text.len() - from)
            &&& after.vlines.len() == w.vlines.len()
            &&& forall|l: int|
                0 <= l < w.vlines.len() && l != w.vline_operating ==> #[trigger] after.vlines[l]
                    == w.vlines[l]
            &&& forall|i: int|
                0 <= i < text.len() - from ==> #[trigger] after.vlines[w.vline_operating].chars[w.column()
                    + i] == cell_of(text[from + i], frcolor, bkcolor)
            &&& forall|j: int|
                0 <= j < w.chars_per_line && !(w.column() <= j < w.column() + (text.len() - from))
                    ==> #[trigger] after.vlines[w.vline_operating].chars[j]
                    == w.vlines[w.vline_operating].chars[j]
        }),
    decreases text.len() - from,
{
    let after = w.put_text(text, from, frcolor, bkcolor, true, actual_line_sum);
    assert(w.vlines[w.vline_operating].wf(w.chars_per_line));
    if from < text.len() {
        let cell = cell_of(text[from], frcolor, bkcolor);
        lemma_put_visible(w, text[from], frcolor, bkcolor, actual_line_sum);
        w.lemma_store_wf(cell);
        let next = w.store(cell);
        assert(next == w.put_char(text[from], frcolor, bkcolor, true, actual_line_sum));
        lemma_fill_line(next, text, from + 1, frcolor, bkcolor, actual_line_sum);
        assert(after == next.put_text(text, from + 1, frcolor, bkcolor, true, actual_line_sum));
        assert forall|i: int| 0 <= i < text.len() - from implies #[trigger] after.vlines[w.vline_operating].chars[w.column()
            + i] == cell_of(text[from + i], frcolor, bkcolor) by {
            if i == 0 {
                assert(after.vlines[w.vline_operating].chars[w.column()]
                    == next.vlines[w.vline_operating].chars[w.column()]);
            } else {
                assert(after.vlines[w.vline_operating].chars[next.column() + (i - 1)] == cell_of(
                    text[from + 1 + (i - 1)],
                    frcolor,
                    bkcolor,
                ));
            }
        }
    }
}

/// The text of `count` newlines.
pub open spec fn newlines(count: nat) -> Seq<char> {
    Seq::new(count, |i: int| '\n')
}

/// Whether a window stands as a new window stands after `count` new lines on
/// a screen of `actual_line_sum` rows: one line more is in use with every
/// new line until the screen is full; from then on the top moves on by one
/// line with every new line; the cursor has moved on by `count` lines in
/// the ring.
pub open spec fn stands_after_newlines(w: WindowView, count: int, actual_line_sum: int) -> bool {
    &&& w.vlines_used == (if 1 + count < actual_line_sum {
        1 + count
    } else {
        actual_line_sum
    })
    &&& w.top_vline == (if count < actual_line_sum {
        0
    } else {
        (count - (actual_line_sum - 1)) % w.vline_sum
    })
    &&& w.vline_operating == count % w.vline_sum
    &&& w.column() == 0
}

/// One more newline takes a window from where it stands after `count`
/// newlines to where it stands after `count + 1`.
proof fn lemma_newlines_step(
    w: WindowView,
    text: Seq<char>,
    from: int,
    frcolor: u32,
    bkcolor: u32,
    actual_line_sum: int,
)
    requires
        w.wf(),
        w.chromatic,
        1 <= actual_line_sum <= w.vline_sum,
        0 <= from <= text.len(),
        text == newlines(text.len()),
        stands_after_newlines(w, from, actual_line_sum),
    ensures
        stands_after_newlines(
            w.put_text(text, from, frcolor, bkcolor, true, actual_line_sum),
            text.len() as int,
            actual_line_sum,
        ),
        w.put_text(text, from, frcolor, bkcolor, true, actual_line_sum).wf(),
        w.put_text(text, from, frcolor, bkcolor, true, actual_line_sum).vline_sum == w.vline_sum,
        w.put_text_result(text, from, frcolor, bkcolor, true, actual_line_sum) == Ok::<
            (),
            TextuiError,
        >(()),
    decreases text.len() - from,
{
    if from < text.len() {
        assert(text[from] == '\n');
        let next = w.new_line(actual_line_sum);
        assert(next == w.put_char(text[from], frcolor, bkcolor, true, actual_line_sum));
        w.lemma_new_line_wf(actual_line_sum);
        lemma_ring_step(from, w.vline_sum);
        if from >= actual_line_sum {
            lemma_ring_step(from - (actual_line_sum - 1), w.vline_sum);
        } else {
            lemma_ring_step(0, w.vline_sum);
            lemma_small_mod(0, w.vline_sum as nat);
        }
        assert(stands_after_newlines(next, from + 1, actual_line_sum));
        lemma_newlines_step(next, text, from + 1, frcolor, bkcolor, actual_line_sum);
    }
}

/// Newlines on a new window: with each newline one more line is in use,
/// until as many are in use as the screen has rows; from then on each
/// newline moves the top on by one line of the ring, and the number of lines
/// in use stays. After as many newlines as the screen has rows the top has
/// moved by exactly one line, and after one more by two.
pub proof fn lemma_newlines_scroll(
    id: u32,
    vline_sum: int,
    chars_per_line: int,
    actual_line_sum: int,
    count: nat,
    frcolor: u32,
    bkcolor: u32,
)
    requires
        1 <= actual_line_sum <= vline_sum <= i32::MAX,
        1 <= chars_per_line <= i32::MAX,
    ensures
        WindowView::fresh(id, true, vline_sum, chars_per_line).wf(),
        WindowView::fresh(id, true, vline_sum, chars_per_line).put_text_result(
            newlines(count),
            0,
            frcolor,
            bkcolor,
            true,
            actual_line_sum,
        ) == Ok::<(), TextuiError>(()),
        stands_after_newlines(
            WindowView::fresh(id, true, vline_sum, chars_per_line).put_text(
                newlines(count),
                0,
                frcolor,
                bkcolor,
                true,
                actual_line_sum,
            ),
            count as int,
            actual_line_sum,
        ),
        count == actual_line_sum ==> WindowView::fresh(
            id,
            true,
            vline_sum,
            chars_per_line,
        ).put_text(newlines(count), 0, frcolor, bkcolor, true, actual_line_sum).top_vline == 1int
            % vline_sum,
        count == actual_line_sum + 1 ==> WindowView::fresh(
            id,
            true,
            vline_sum,
            chars_per_line,
        ).put_text(newlines(count), 0, frcolor, bkcolor, true, actual_line_sum).top_vline == 2int
            % vline_sum,
{
    let w = WindowView::fresh(id, true, vline_sum, chars_per_line);
    let text = newlines(count);
    assert(text =~= newlines(text.len()));
    lemma_small_mod(0, vline_sum as nat);
    lemma_newlines_step(w, text, 0, frcolor, bkcolor, actual_line_sum);
    assert(w.put_text(text, 0, frcolor, bkcolor, true, actual_line_sum).vline_sum == vline_sum);
}

/// A backspace in the first column gives up the line of the cursor: that
/// line is cleared, the cursor moves to the line before it, from line 0 to
/// the last line of the ring, and one line less is in use. No other line
/// changes.
pub proof fn lemma_backspace_first_column(
    w: WindowView,
    frcolor: u32,
    bkcolor: u32,
    actual_line_sum: int,
)
    requires
        w.wf(),
        w.chromatic,
        w.column() == 0,
    ensures
        w.put_char_result('\x08', true) == Ok::<(), TextuiError>(()),
        ({
            let after = w.put_char('\x08', frcolor, bkcolor, true, actual_line_sum);
            &&& after.vline_operating == (if w.vline_operating > 0 {
                w.vline_operating - 1
            } else {
                w.vline_sum - 1
            })
            &&& after.vlines[w.vline_operating] == VlineView::cleared(w.chars_per_line)
            &&& after.vlines[w.vline_operating].index == 0
            &&& after.vlines_used == w.vlines_used - 1
            &&& w.vlines_used <= actual_line_sum ==> after.top_vline == w.top_vline
            &&& after.vlines.len() == w.vlines.len()
            &&& forall|l: int|
                0 <= l < w.vlines.len() && l != w.vline_operating ==> #[trigger] after.vlines[l]
                    == w.vlines[l]
        }),
{
}

/// A backspace behind the first column moves the cursor one column back in
/// its line and takes the character out of the cell there, which keeps its
/// colours. Nothing else in the window changes.
pub proof fn lemma_backspace_in_line(
    w: WindowView,
    frcolor: u32,
    bkcolor: u32,
    actual_line_sum: int,
)
    requires
        w.wf(),
        w.chromatic,
        w.column() >= 1,
    ensures
        w.put_char_result('\x08', true) == Ok::<(), TextuiError>(()),
        ({
            let after = w.put_char('\x08', frcolor, bkcolor, true, actual_line_sum);
            let erased = w.column() - 1;
            &&& after.wf()
            &&& after.vline_operating == w.vline_operating
            &&& after.top_vline == w.top_vline
            &&& after.vlines_used == w.vlines_used
            &&& after.column() == erased
            &&& after.vlines[w.vline_operating].chars[erased] == (CellView {
                c: None,
                ..w.vlines[w.vline_operating].chars[erased]
            })
            &&& after.vlines.len() == w.vlines.len()
            &&& forall|j: int|
                0 <= j < w.chars_per_line && j != erased
                    ==> #[trigger] after.vlines[w.vline_operating].chars[j]
                    == w.vlines[w.vline_operating].chars[j]
            &&& forall|l: int|
                0 <= l < w.vlines.len() && l != w.vline_operating ==> #[trigger] after.vlines[l]
                    == w.vlines[l]
        }),
{
    assert(w.vlines[w.vline_operating].wf(w.chars_per_line));
    let after = w.put_char('\x08', frcolor, bkcolor, true, actual_line_sum);
    assert forall|i: int| 0 <= i < after.vlines.len() implies (#[trigger] after.vlines[i]).wf(
        after.chars_per_line,
    ) by {
        assert(w.vlines[i].wf(w.chars_per_line));
    }
}

/// Spaces that end before or in the last column fill the line of the cursor
/// from the cursor on: each of their cells holds a space in the given
/// colours, the cursor stands behind the last of them, no new line is begun,
/// and nothing else in the window changes.
pub proof fn lemma_spaces_in_line(
    w: WindowView,
    count: int,
    frcolor: u32,
    bkcolor: u32,
    actual_line_sum: int,
)
    requires
        w.wf(),
        0 <= count,
        w.column() + count <= w.chars_per_line - 1,
    ensures
        ({
            let after = w.put_spaces(count, frcolor, bkcolor, actual_line_sum);
            &&& after.wf()
            &&& after.vline_operating == w.vline_operating
            &&& after.top_vline == w.top_vline
            &&& after.vlines_used == w.vlines_used
            &&& after.vline_sum == w.vline_sum
            &&& after.chars_per_line == w.chars_per_line
            &&& after.column() == w.column() + count
            &&& after.vlines.len() == w.vlines.len()
            &&& forall|j: int|
                w.column() <= j < w.column() + count
                    ==> #[trigger] after.vlines[w.vline_operating].chars[j] == cell_of(
                    ' ',
                    frcolor,
                    bkcolor,
                )
            &&& forall|j: int|
                0 <= j < w.chars_per_line && !(w.column() <= j < w.column() + count)
                    ==> #[trigger] after.vlines[w.vline_operating].chars[j]
                    == w.vlines[w.vline_operating].chars[j]
            &&& forall|l: int|
                0 <= l < w.vlines.len() && l != w.vline_operating ==> #[trigger] after.vlines[l]
                    == w.vlines[l]
        }),
    decreases count,
{
    assert(w.vlines[w.vline_operating].wf(w.chars_per_line));
    if count > 0 {
        let cell = cell_of(' ', frcolor, bkcolor);
        lemma_write_in_line(w, cell, actual_line_sum);
        let next = w.put_printable(cell, actual_line_sum);
        lemma_spaces_in_line(next, count - 1, frcolor, bkcolor, actual_line_sum);
        let after = w.put_spaces(count, frcolor, bkcolor, actual_line_sum);
        assert(after == next.put_spaces(count - 1, frcolor, bkcolor, actual_line_sum));
        assert forall|j: int| w.column() <= j < w.column() + count implies #[trigger] after.vlines[w.vline_operating].chars[j]
            == cell_of(' ', frcolor, bkcolor) by {
            if j == w.column() {
                assert(after.vlines[w.vline_operating].chars[j]
                    == next.vlines[w.vline_operating].chars[j]);
            }
        }
    }
}

/// A tab whose spaces end before or in the last column: the cursor stands
/// at the next column that is a multiple of 8, the cells that it passed hold
/// spaces in the given colours, and nothing else in the window changes.
pub proof fn lemma_tab_in_line(w: WindowView, frcolor: u32, bkcolor: u32, actual_line_sum: int)
    requires
        w.wf(),
        w.chromatic,
        w.column() + (8 - w.column() % 8) <= w.chars_per_line - 1,
    ensures
        w.put_char_result('\t', true) == Ok::<(), TextuiError>(()),
        ({
            let after = w.put_char('\t', frcolor, bkcolor, true, actual_line_sum);
            let target = w.column() + (8 - w.column() % 8);
            &&& after.wf()
            &&& target % 8 == 0
            &&& after.vline_operating == w.vline_operating
            &&& after.top_vline == w.top_vline
            &&& after.vlines_used == w.vlines_used
            &&& after.column() == target
            &&& after.vlines.len() == w.vlines.len()
            &&& forall|j: int|
                w.column() <= j < target ==> #[trigger] after.vlines[w.vline_operating].chars[j]
                    == cell_of(' ', frcolor, bkcolor)
            &&& forall|j: int|
                0 <= j < w.chars_per_line && !(w.column() <= j < target)
                    ==> #[trigger] after.vlines[w.vline_operating].chars[j]
                    == w.vlines[w.vline_operating].chars[j]
            &&& forall|l: int|
                0 <= l < w.vlines.len() && l != w.vline_operating ==> #[trigger] after.vlines[l]
                    == w.vlines[l]
        }),
{
    assert(w.vlines[w.vline_operating].wf(w.chars_per_line));
    lemma_spaces_in_line(w, 8 - w.column() % 8, frcolor, bkcolor, actual_line_sum);
}

/// The window after `count` new lines were begun one after the other.
pub open spec fn after_new_lines(w: WindowView, count: nat, actual_line_sum: int) -> WindowView
    decreases count,
{
    if count == 0 {
        w
    } else {
        after_new_lines(w, (count - 1) as nat, actual_line_sum).new_line(actual_line_sum)
    }
}

/// New lines begun on a new window: with each one more line is in use,
/// until as many are in use as the screen has rows; from then on each moves
/// the top on by one line of the ring, and the number of lines in use stays
/// at the number of rows.
pub proof fn lemma_new_lines(
    id: u32,
    chromatic: bool,
    vline_sum: int,
    chars_per_line: int,
    actual_line_sum: int,
    count: nat,
)
    requires
        1 <= actual_line_sum <= vline_sum <= i32::MAX,
        1 <= chars_per_line <= i32::MAX,
    ensures
        after_new_lines(
            WindowView::fresh(id, chromatic, vline_sum, chars_per_line),
            count,
            actual_line_sum,
        ).wf(),
        stands_after_newlines(
            after_new_lines(
                WindowView::fresh(id, chromatic, vline_sum, chars_per_line),
                count,
                actual_line_sum,
            ),
            count as int,
            actual_line_sum,
        ),
        after_new_lines(
            WindowView::fresh(id, chromatic, vline_sum, chars_per_line),
            count,
            actual_line_sum,
        ).vline_sum == vline_sum,
        count >= actual_line_sum - 1 ==> after_new_lines(
            WindowView::fresh(id, chromatic, vline_sum, chars_per_line),
            count,
            actual_line_sum,
        ).vlines_used == actual_line_sum,
    decreases count,
{
    let fresh = WindowView::fresh(id, chromatic, vline_sum, chars_per_line);
    if count == 0 {
        lemma_small_mod(0, vline_sum as nat);
    } else {
        let from = (count - 1) as int;
        lemma_new_lines(
            id,
            chromatic,
            vline_sum,
            chars_per_line,
            actual_line_sum,
            (count - 1) as nat,
        );
        let w = after_new_lines(fresh, (count - 1) as nat, actual_line_sum);
        w.lemma_new_line_wf(actual_line_sum);
        lemma_ring_step(from, vline_sum);
        if from >= actual_line_sum {
            lemma_ring_step(from - (actual_line_sum - 1), vline_sum);
        } else {
            lemma_ring_step(0, vline_sum);
            lemma_small_mod(0, vline_sum as nat);
        }
    }
}

/// Where `count` cells written from the cursor on leave the cursor: in the
/// column `(column + count) % chars_per_line`, and as many lines further in
/// the ring as lines were filled to the end, `(column + count) /
/// chars_per_line`. The cursor never stands behind the last column.
pub proof fn lemma_put_spaces(
    w: WindowView,
    count: int,
    frcolor: u32,
    bkcolor: u32,
    actual_line_sum: int,
)
    requires
        w.wf(),
        w.column() < w.chars_per_line,
        0 <= count,
        w.vlines_used + count <= i32::MAX,
    ensures
        ({
            let after = w.put_spaces(count, frcolor, bkcolor, actual_line_sum);
            &&& after.wf()
            &&& after.vline_sum == w.vline_sum
            &&& after.chars_per_line == w.chars_per_line
            &&& after.column() == (w.column() + count) % w.chars_per_line
            &&& after.vline_operating == (w.vline_operating + (w.column() + count)
                / w.chars_per_line) % w.vline_sum
        }),
    decreases count,
{
    let c = w.chars_per_line;
    let n = w.vline_sum;
    let col = w.column();
    assert(w.vlines[w.vline_operating].wf(c));
    if count == 0 {
        lemma_small_mod(col as nat, c as nat);
        lemma_fundamental_div_mod_converse(col, c, 0, col);
        lemma_small_mod(w.vline_operating as nat, n as nat);
    } else {
        let cell = cell_of(' ', frcolor, bkcolor);
        let next = w.put_printable(cell, actual_line_sum);
        w.lemma_put_printable_wf(cell, actual_line_sum);
        w.lemma_store_wf(cell);
        w.store(cell).lemma_new_line_wf(actual_line_sum);
        lemma_put_spaces(next, count - 1, frcolor, bkcolor, actual_line_sum);
        let after = w.put_spaces(count, frcolor, bkcolor, actual_line_sum);
        assert(after == next.put_spaces(count - 1, frcolor, bkcolor, actual_line_sum));
        if col < c - 1 {
            assert(next.column() == col + 1);
            assert(next.vline_operating == w.vline_operating);
        } else {
            assert(next.column() == 0);
            assert(next.vline_operating == w.next_line_id(w.vline_operating));
            // column + count == chars_per_line + (count - 1)
            lemma_mod_add_multiples_vanish(count - 1, c);
            lemma_div_plus_one(count - 1, c);
            let q = (count - 1) / c;
            let k = w.vline_operating;
            lemma_small_mod(k as nat, n as nat);
            lemma_ring_step(k, n);
            lemma_add_mod_noop(k + 1, q, n);
            lemma_add_mod_noop(next.vline_operating, q, n);
            lemma_mod_twice(k + 1, n);
            assert((next.vline_operating + q) % n == (k + 1 + q) % n);
        }
    }
}

/// A tab from column `column` writes `8 - column % 8` spaces. Where they
/// end before the last column the cursor stands `8 - column % 8` columns
/// further in its line; where they reach it, a new line is begun behind the
/// last column and the spaces go on there, so that no line is written
/// beyond its end.
pub proof fn lemma_tab(w: WindowView, frcolor: u32, bkcolor: u32, actual_line_sum: int)
    requires
        w.wf(),
        w.chromatic,
        w.column() < w.chars_per_line,
        w.vlines_used + 8 <= i32::MAX,
    ensures
        w.put_char_result('\t', true) == Ok::<(), TextuiError>(()),
        ({
            let after = w.put_char('\t', frcolor, bkcolor, true, actual_line_sum);
            let target = w.column() + (8 - w.column() % 8);
            &&& after.wf()
            &&& after.column() == target % w.chars_per_line
            &&& after.vline_operating == (w.vline_operating + target / w.chars_per_line)
                % w.vline_sum
            &&& target < w.chars_per_line ==> after.column() == target && after.vline_operating
                == w.vline_operating
            &&& target >= w.chars_per_line ==> target / w.chars_per_line >= 1
        }),
{
    let c = w.chars_per_line;
    let n = w.vline_sum;
    let target = w.column() + (8 - w.column() % 8);
    assert(w.vlines[w.vline_operating].wf(c));
    lemma_put_spaces(w, 8 - w.column() % 8, frcolor, bkcolor, actual_line_sum);
    if target < c {
        lemma_small_mod(target as nat, c as nat);
        lemma_fundamental_div_mod_converse(target, c, 0, target);
        lemma_small_mod(w.vline_operating as nat, n as nat);
    } else {
        let q = target / c;
        lemma_fundamental_div_mod(target, c);
        lemma_mod_pos_bound(target, c);
        assert(q >= 1) by (nonlinear_arith)
            requires
                target == c * q + target % c,
                0 <= target % c < c,
                target >= c,
                c >= 1,
        ;
    }
}

/// Writing spaces never brings more lines into use than the screen has
/// rows.
proof fn lemma_spaces_keep_lines_in_use(
    w: WindowView,
    count: int,
    frcolor: u32,
    bkcolor: u32,
    actual_line_sum: int,
)
    requires
        w.wf(),
        w.column() < w.chars_per_line,
        w.vlines_used <= actual_line_sum <= i32::MAX,
    ensures
        w.put_spaces(count, frcolor, bkcolor, actual_line_sum).wf(),
        w.put_spaces(count, frcolor, bkcolor, actual_line_sum).vlines_used <= actual_line_sum,
        w.put_spaces(count, frcolor, bkcolor, actual_line_sum).vline_sum == w.vline_sum,
    decreases count,
{
    if count > 0 {
        let cell = cell_of(' ', frcolor, bkcolor);
        w.lemma_put_printable_wf(cell, actual_line_sum);
        w.lemma_store_wf(cell);
        lemma_spaces_keep_lines_in_use(
            w.put_printable(cell, actual_line_sum),
            count - 1,
            frcolor,
            bkcolor,
            actual_line_sum,
        );
    }
}

/// No character brings more lines into use than the screen has rows: a
/// window that has no more lines in use than that stays so, whatever is
/// written to it, and stays fit to be written to.
pub proof fn lemma_lines_in_use(
    w: WindowView,
    character: char,
    frcolor: u32,
    bkcolor: u32,
    is_enable_window: bool,
    actual_line_sum: int,
)
    requires
        w.wf(),
        w.vlines_used <= actual_line_sum <= i32::MAX,
        i32::MIN < w.vlines_used,
    ensures
        w.put_char(character, frcolor, bkcolor, is_enable_window, actual_line_sum).wf(),
        w.put_char(character, frcolor, bkcolor, is_enable_window, actual_line_sum).vlines_used
            <= actual_line_sum,
        0 <= w.put_char(
            character,
            frcolor,
            bkcolor,
            is_enable_window,
            actual_line_sum,
        ).top_vline < w.vline_sum,
        0 <= w.put_char(
            character,
            frcolor,
            bkcolor,
            is_enable_window,
            actual_line_sum,
        ).vline_operating < w.vline_sum,
{
    let cell = cell_of(character, frcolor, bkcolor);
    assert(w.vlines[w.vline_operating].wf(w.chars_per_line));
    w.lemma_new_line_wf(actual_line_sum);
    w.lemma_backspace_wf(actual_line_sum);
    if w.column() < w.chars_per_line {
        lemma_spaces_keep_lines_in_use(w, w.tab_width(), frcolor, bkcolor, actual_line_sum);
        w.lemma_put_printable_wf(cell, actual_line_sum);
    } else {
        w.new_line(actual_line_sum).lemma_put_printable_wf(cell, actual_line_sum);
    }
}

} // verus!
