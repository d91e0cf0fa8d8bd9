use vstd::prelude::*;
use vstd::string::*;

use crate::terminal::Terminal;

verus! {

/// The text of the empty cell: a single space.
pub open spec fn blank() -> Seq<char> {
    seq![' ']
}

/// The text of one row: its cells concatenated left to right.
pub open spec fn row_text(cells: Seq<Seq<char>>) -> Seq<char>
    decreases cells.len(),
{
    if cells.len() == 0 {
        Seq::empty()
    } else {
        row_text(cells.drop_last()) + cells.last()
    }
}

/// The text of a whole grid: its rows top to bottom, joined by single
/// newlines, with no newline after the last row.
pub open spec fn grid_text(rows: Seq<Seq<Seq<char>>>) -> Seq<char>
    decreases rows.len(),
{
    if rows.len() == 0 {
        Seq::empty()
    } else if rows.len() == 1 {
        row_text(rows[0])
    } else {
        grid_text(rows.drop_last()) + seq!['\n'] + row_text(rows.last())
    }
}

/// The views of a row of cells.
pub open spec fn cells_view<'a>(cells: Seq<&'a str>) -> Seq<Seq<char>> {
    cells.map_values(|c: &'a str| c@)
}

/// The visible frame: rows of single-glyph cells, all of one width.
pub struct Grid<'a> {
    rows: Vec<Vec<&'a str>>,
    width: usize,
}

impl<'a> View for Grid<'a> {
    type V = Seq<Seq<Seq<char>>>;

    closed spec fn view(&self) -> Seq<Seq<Seq<char>>> {
        self.rows@.map_values(|r: Vec<&'a str>| cells_view(r@))
    }
}

impl<'a> Grid<'a> {
    /// The number of cells in every row.
    pub closed spec fn spec_width(&self) -> nat {
        self.width as nat
    }

    /// At least one row and one column, and every row as wide as the grid.
    pub open spec fn wf(&self) -> bool {
        &&& self@.len() > 0
        &&& self.spec_width() > 0
        &&& forall|i: int| 0 <= i < self@.len() ==> #[trigger] self@[i].len() == self.spec_width()
    }

    /// A grid of `height` rows of `width` blank cells.
    pub fn new(terminal: &Terminal) -> (g: Grid<'a>)
        requires
            terminal.wf(),
        ensures
            g.wf(),
            g.spec_width() == terminal.spec_width(),
            g@.len() == terminal.spec_height(),
            forall|i: int, j: int|
                0 <= i < g@.len() && 0 <= j < g@[i].len() ==> #[trigger] g@[i][j] == blank(),
    {
        let width = terminal.width();
        let height = terminal.height();
        let mut rows: Vec<Vec<&'a str>> = Vec::new();
        let mut i: usize = 0;
        while i < height
            invariant
                i <= height,
                rows@.len() == i,
                forall|k: int| 0 <= k < i ==> #[trigger] rows@[k]@.len() == width,
                forall|k: int, j: int|
                    0 <= k < i && 0 <= j < width ==> (#[trigger] rows@[k]@[j])@ == blank(),
            decreases height - i,
        {
            let mut row: Vec<&'a str> = Vec::new();
            let mut j: usize = 0;
            while j < width
                invariant
                    j <= width,
                    row@.len() == j,
                    forall|m: int| 0 <= m < j ==> (#[trigger] row@[m])@ == blank(),
                decreases width - j,
            {
                proof {
                    reveal_strlit(" ");
                }
                row.push(" ");
                j = j + 1;
            }
            rows.push(row);
            i = i + 1;
        }
        Grid { rows, width }
    }
    /// Puts `row` on top, shifts every row down by one and drops the last.
    pub fn scroll_down(&mut self, row: Vec<&'a str>)
        requires
            old(self).wf(),
            row@.len() == old(self).spec_width(),
        ensures
            final(self).wf(),
            final(self).spec_width() == old(self).spec_width(),
            final(self)@ == seq![cells_view(row@)] + old(self)@.drop_last(),
    {
        let ghost before = self.rows@;
        self.rows.insert(0, row);
        let _ = self.rows.pop();
        proof {
            assert(self.rows@ =~= seq![row] + before.drop_last());
            assert(self@ =~= seq![cells_view(row@)] + old(self)@.drop_last());
        }
    }

    /// The cells of row `i`.
    pub fn row(&self, i: usize) -> (r: Vec<&'a str>)
        requires
            i < self@.len(),
        ensures
            cells_view(r@) == self@[i as int],
    {
        self.rows[i].clone()
    }

    /// The number of rows.
    pub fn height(&self) -> (r: usize)
        ensures
            r == self@.len(),
    {
        self.rows.len()
    }

    /// The number of cells in each row.
    pub fn width(&self) -> (r: usize)
        ensures
            r == self.spec_width(),
    {
        self.width
    }

    /// The frame as text: rows top to bottom, cells left to right, a newline
    /// between rows and none after the last.
    pub fn render(&self) -> (r: String)
        ensures
            r@ == grid_text(self@),
    {
        let mut out = String::new();
        let mut i: usize = 0;
        while i < self.rows.len()
            invariant
                i <= self.rows@.len(),
                out@ == grid_text(self@.take(i as int)),
            decreases self.rows@.len() - i,
        {
            if i > 0 {
                proof {
                    reveal_strlit("\n");
                }
                out.append("\n");
            }
            let ghost start = out@;
            let row = &self.rows[i];
            let mut j: usize = 0;
            while j < row.len()
                invariant
                    j <= row@.len(),
                    out@ == start + row_text(cells_view(row@).take(j as int)),
                decreases row@.len() - j,
            {
                out.append(row[j]);
                proof {
                    assert(cells_view(row@).take(j + 1).drop_last() =~= cells_view(row@).take(j as int));
                }
                j = j + 1;
            }
            proof {
                assert(cells_view(row@).take(j as int) =~= cells_view(row@));
                assert(self@.take(i + 1).drop_last() =~= self@.take(i as int));
                assert(self@.take(i + 1).last() == cells_view(row@));
                if i == 0 {
                    assert(self@.take(1)[0] == cells_view(row@));
                }
            }
            i = i + 1;
        }
        proof {
            assert(self@.take(i as int) =~= self@);
        }
        out
    }
}

/// Rendering does not change the grid and depends on nothing else: two
/// renderings of one unchanged grid give the same text.
pub proof fn lemma_render_repeatable<'a>(g: &Grid<'a>, first: Seq<char>, second: Seq<char>)
    requires
        first == grid_text(g@),
        second == grid_text(g@),
    ensures
        first == second,
{
}

} // verus!
