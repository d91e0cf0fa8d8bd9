use rand::Rng;
use vstd::prelude::*;

use crate::grid::{blank, cells_view, grid_text, Grid};
use crate::terminal::Terminal;

verus! {

/// Relies on rand's `Rng::gen_range` on the thread-local generator: a value
/// drawn uniformly from `0..bound`. It panics on an empty range, which the
/// `requires` rules out.
#[verifier::external_body]
fn draw_below(bound: usize) -> (r: usize)
    requires
        bound > 0,
    ensures
        r < bound,
{
    rand::thread_rng().gen_range(0..bound)
}

/// The animation's settings.
pub struct Config<'a> {
    density: u32,
    delay_ms: u64,
    glyphs: Vec<&'a str>,
}

impl<'a> Config<'a> {
    /// Chance, in percent, that a new cell holds snow.
    pub closed spec fn spec_density(&self) -> nat {
        self.density as nat
    }

    /// Pause between frames, in milliseconds.
    pub closed spec fn spec_delay_ms(&self) -> nat {
        self.delay_ms as nat
    }

    /// The snow glyphs, in order.
    pub closed spec fn glyph_views(&self) -> Seq<Seq<char>> {
        cells_view(self.glyphs@)
    }

    /// The glyph set is not empty.
    pub open spec fn wf(&self) -> bool {
        self.glyph_views().len() > 0
    }

    /// What every generated row of `width` cells satisfies: each cell is
    /// blank or one of the glyphs; with density zero all are blank, and with
    /// density one hundred or more all are glyphs.
    pub open spec fn is_generated_row(&self, row: Seq<Seq<char>>, width: nat) -> bool {
        &&& row.len() == width
        &&& forall|i: int|
            0 <= i < row.len() ==> #[trigger] row[i] == blank() || self.glyph_views().contains(
                row[i],
            )
        &&& self.spec_density() == 0 ==> forall|i: int|
            0 <= i < row.len() ==> #[trigger] row[i] == blank()
        &&& self.spec_density() >= 100 ==> forall|i: int|
            0 <= i < row.len() ==> self.glyph_views().contains(#[trigger] row[i])
    }

    /// Settings with snow `density` in percent, `delay_ms` between frames and
    /// a non-empty list of snow glyphs.
    pub fn new(density: u32, delay_ms: u64, glyphs: Vec<&'a str>) -> (c: Config<'a>)
        requires
            glyphs@.len() > 0,
        ensures
            c.wf(),
            c.spec_density() == density,
            c.spec_delay_ms() == delay_ms,
            c.glyph_views() == cells_view(glyphs@),
    {
        Config { density, delay_ms, glyphs }
    }

    /// Chance, in percent, that a new cell holds snow.
    pub fn density(&self) -> (r: u32)
        ensures
            r == self.spec_density(),
    {
        self.density
    }

    /// Pause between frames, in milliseconds.
    pub fn delay_ms(&self) -> (r: u64)
        ensures
            r == self.spec_delay_ms(),
    {
        self.delay_ms
    }

    /// The row made from given draws: cell `i` is glyph `picks[i]` when
    /// `rolls[i]` is below the density, and blank otherwise.
    pub fn row_from_draws(&self, rolls: &Vec<u32>, picks: &Vec<usize>) -> (r: Vec<&'a str>)
        requires
            rolls@.len() == picks@.len(),
            forall|i: int|
                0 <= i < rolls@.len() && rolls@[i] < self.spec_density() ==> #[trigger] picks@[i]
                    < self.glyph_views().len(),
        ensures
            r@.len() == rolls@.len(),
            forall|i: int|
                0 <= i < r@.len() ==> #[trigger] cells_view(r@)[i] == if rolls@[i]
                    < self.spec_density() {
                    self.glyph_views()[picks@[i] as int]
                } else {
                    blank()
                },
    {
        let mut row: Vec<&'a str> = Vec::new();
        let mut i: usize = 0;
        while i < rolls.len()
            invariant
                i <= rolls@.len(),
                rolls@.len() == picks@.len(),
                forall|k: int|
                    0 <= k < rolls@.len() && rolls@[k] < self.spec_density() ==> #[trigger] picks@[k]
                        < self.glyph_views().len(),
                row@.len() == i,
                forall|k: int|
                    0 <= k < i ==> (#[trigger] row@[k])@ == if rolls@[k]
                        < self.spec_density() {
                        self.glyph_views()[picks@[k] as int]
                    } else {
                        blank()
                    },
            decreases rolls@.len() - i,
        {
            if rolls[i] < self.density {
                row.push(self.glyphs[picks[i]]);
            } else {
                proof {
                    reveal_strlit(" ");
                }
                row.push(" ");
            }
            i = i + 1;
        }
        row
    }
    /// A fresh random row of `width` cells: for each cell a percentile is
    /// drawn, and when it is below the density a glyph is picked uniformly.
    pub fn generate_row(&self, width: usize) -> (r: Vec<&'a str>)
        requires
            self.wf(),
        ensures
            self.is_generated_row(cells_view(r@), width as nat),
    {
        let mut rolls: Vec<u32> = Vec::new();
        let mut picks: Vec<usize> = Vec::new();
        let mut i: usize = 0;
        while i < width
            invariant
                self.wf(),
                i <= width,
                rolls@.len() == i,
                picks@.len() == i,
                forall|k: int| 0 <= k < i ==> #[trigger] rolls@[k] < 100,
                forall|k: int|
                    0 <= k < i && rolls@[k] < self.spec_density() ==> #[trigger] picks@[k]
                        < self.glyph_views().len(),
            decreases width - i,
        {
            let roll = draw_below(100) as u32;
            let pick = if roll < self.density {
                draw_below(self.glyphs.len())
            } else {
                0
            };
            rolls.push(roll);
            picks.push(pick);
            i = i + 1;
        }
        let row = self.row_from_draws(&rolls, &picks);
        proof {
            let cells = cells_view(row@);
            assert forall|k: int| 0 <= k < cells.len() implies #[trigger] cells[k] == blank()
                || self.glyph_views().contains(cells[k]) by {
                if rolls@[k] < self.spec_density() {
                    assert(self.glyph_views()[picks@[k] as int] == cells[k]);
                }
            }
            if self.spec_density() >= 100 {
                assert forall|k: int| 0 <= k < cells.len() implies self.glyph_views().contains(
                    #[trigger] cells[k],
                ) by {
                    assert(rolls@[k] < 100);
                    assert(self.glyph_views()[picks@[k] as int] == cells[k]);
                }
            }
        }
        row
    }
}

/// The animation engine: settings and terminal size, and one tick of the
/// animation at a time.
pub struct Snowfall<'a> {
    config: &'a Config<'a>,
    terminal: &'a Terminal,
}

impl<'a> Snowfall<'a> {
    /// The settings the engine runs with.
    pub closed spec fn spec_config(&self) -> Config<'a> {
        *self.config
    }

    /// The terminal size the engine draws for.
    pub closed spec fn spec_terminal(&self) -> Terminal {
        *self.terminal
    }

    /// An engine over the given settings and terminal size.
    pub fn new(config: &'a Config<'a>, terminal: &'a Terminal) -> (s: Snowfall<'a>)
        ensures
            s.spec_config() == *config,
            s.spec_terminal() == *terminal,
    {
        Snowfall { config, terminal }
    }

    /// One tick: a new random row enters at the top of `grid`, the bottom
    /// row leaves, and the text of the new frame is returned.
    pub fn tick(&self, grid: &mut Grid<'a>) -> (frame: String)
        requires
            self.spec_config().wf(),
            old(grid).wf(),
            old(grid).spec_width() == self.spec_terminal().spec_width(),
        ensures
            final(grid).wf(),
            final(grid).spec_width() == old(grid).spec_width(),
            final(grid)@ == seq![final(grid)@[0]] + old(grid)@.drop_last(),
            self.spec_config().is_generated_row(final(grid)@[0], old(grid).spec_width()),
            frame@ == grid_text(final(grid)@),
    {
        let row = self.config.generate_row(self.terminal.width());
        grid.scroll_down(row);
        grid.render()
    }
}

} // verus!
