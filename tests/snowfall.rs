use snowfall::{Config, Error, Grid, Snowfall, Terminal};

fn terminal(width: usize, height: usize) -> Terminal {
    match Terminal::from_dimensions(Some((width, height))) {
        Ok(t) => t,
        Err(e) => panic!("unexpected {:?}", e),
    }
}

fn rows<'a>(grid: &Grid<'a>) -> Vec<Vec<&'a str>> {
    (0..grid.height()).map(|i| grid.row(i)).collect()
}

#[test]
fn new_grid_is_all_blank() {
    let t = terminal(4, 3);
    let grid = Grid::new(&t);
    assert_eq!(grid.height(), 3);
    assert_eq!(grid.width(), 4);
    assert_eq!(rows(&grid), vec![vec![" "; 4]; 3]);
}

#[test]
fn one_by_one_grid() {
    let t = terminal(1, 1);
    let grid = Grid::new(&t);
    assert_eq!(rows(&grid), vec![vec![" "]]);
    assert_eq!(grid.render(), " ");
}

#[test]
fn scroll_down_keeps_shape_and_shifts_rows() {
    let t = terminal(2, 3);
    let mut grid = Grid::new(&t);
    grid.scroll_down(vec!["a", "b"]);
    grid.scroll_down(vec!["c", "d"]);
    grid.scroll_down(vec!["e", "f"]);
    assert_eq!(rows(&grid), vec![vec!["e", "f"], vec!["c", "d"], vec!["a", "b"]]);
    grid.scroll_down(vec!["g", "h"]);
    assert_eq!(grid.height(), 3);
    assert_eq!(grid.width(), 2);
    assert_eq!(rows(&grid), vec![vec!["g", "h"], vec!["e", "f"], vec!["c", "d"]]);
}

#[test]
fn scroll_scenario_three_by_two() {
    let t = terminal(3, 2);
    let _config = Config::new(100, 300, vec!["#", "@", "*", "%"]);
    let mut grid = Grid::new(&t);
    grid.scroll_down(vec!["#", "@", "#"]);
    assert_eq!(grid.row(0), vec!["#", "@", "#"]);
    assert_eq!(grid.row(1), vec![" ", " ", " "]);
    grid.scroll_down(vec!["*", "%", "*"]);
    assert_eq!(grid.row(0), vec!["*", "%", "*"]);
    assert_eq!(grid.row(1), vec!["#", "@", "#"]);
    assert_eq!(grid.height(), 2);
}

#[test]
fn density_zero_gives_blank_rows() {
    let config = Config::new(0, 0, vec!["#", "@", "*", "%"]);
    for _ in 0..200 {
        let row = config.generate_row(17);
        assert_eq!(row.len(), 17);
        assert!(row.iter().all(|c| *c == " "));
    }
}

#[test]
fn density_hundred_gives_full_rows() {
    let glyphs = vec!["#", "@", "*", "%"];
    let config = Config::new(100, 0, glyphs.clone());
    for _ in 0..200 {
        let row = config.generate_row(17);
        assert_eq!(row.len(), 17);
        assert!(row.iter().all(|c| glyphs.contains(c)));
    }
}

#[test]
fn generated_cells_are_blank_or_glyphs() {
    let glyphs = vec!["❆", "❅", "⋆", "•"];
    let config = Config::new(50, 0, glyphs.clone());
    for _ in 0..200 {
        let row = config.generate_row(9);
        assert_eq!(row.len(), 9);
        assert!(row.iter().all(|c| *c == " " || glyphs.contains(c)));
    }
}

#[test]
fn generate_row_of_width_zero_is_empty() {
    let config = Config::new(100, 0, vec!["#"]);
    assert!(config.generate_row(0).is_empty());
}

#[test]
fn row_from_draws_follows_rolls_and_picks() {
    let config = Config::new(7, 300, vec!["#", "@", "*", "%"]);
    let rolls: Vec<u32> = vec![0, 6, 7, 99, 3];
    let picks: Vec<usize> = vec![3, 1, 0, 0, 2];
    assert_eq!(config.row_from_draws(&rolls, &picks), vec!["%", "@", " ", " ", "*"]);
}

#[test]
fn density_above_hundred_fills_rows() {
    let config = Config::new(250, 0, vec!["#", "@"]);
    let rolls: Vec<u32> = vec![99, 0];
    let picks: Vec<usize> = vec![1, 0];
    assert_eq!(config.row_from_draws(&rolls, &picks), vec!["@", "#"]);
    assert!(config.generate_row(5).iter().all(|c| *c == "#" || *c == "@"));
}

#[test]
fn config_keeps_its_settings() {
    let config = Config::new(7, 300, vec!["❆", "❅", "⋆", "•"]);
    assert_eq!(config.density(), 7);
    assert_eq!(config.delay_ms(), 300);
}

#[test]
fn render_joins_rows_with_newlines() {
    let t = terminal(3, 2);
    let mut grid = Grid::new(&t);
    assert_eq!(grid.render(), "   \n   ");
    grid.scroll_down(vec!["#", "@", "#"]);
    assert_eq!(grid.render(), "#@#\n   ");
    grid.scroll_down(vec!["❆", "•", " "]);
    assert_eq!(grid.render(), "❆• \n#@#");
}

#[test]
fn render_twice_gives_same_text() {
    let t = terminal(5, 4);
    let mut grid = Grid::new(&t);
    let config = Config::new(50, 0, vec!["#", "@", "*", "%"]);
    grid.scroll_down(config.generate_row(5));
    let first = grid.render();
    let second = grid.render();
    assert_eq!(first.as_bytes(), second.as_bytes());
}

#[test]
fn zero_width_is_rejected() {
    assert!(matches!(Terminal::from_dimensions(Some((0, 5))), Err(Error::UnknownTerminalSize)));
}

#[test]
fn zero_height_is_rejected() {
    assert!(matches!(Terminal::from_dimensions(Some((5, 0))), Err(Error::UnknownTerminalSize)));
}

#[test]
fn missing_size_is_unknown_terminal_size() {
    assert!(matches!(Terminal::from_dimensions(None), Err(Error::UnknownTerminalSize)));
}

#[test]
fn reported_size_is_kept() {
    let t = terminal(80, 24);
    assert_eq!(t.width(), 80);
    assert_eq!(t.height(), 24);
}

#[test]
fn terminal_query_gives_a_valid_size_or_the_error() {
    match Terminal::try_new() {
        Ok(t) => assert!(t.width() > 0 && t.height() > 0),
        Err(e) => assert_eq!(e, Error::UnknownTerminalSize),
    }
}

#[test]
fn tick_scrolls_and_renders() {
    let t = terminal(3, 2);
    let config = Config::new(100, 0, vec!["#"]);
    let engine = Snowfall::new(&config, &t);
    let mut grid = Grid::new(&t);
    let frame = engine.tick(&mut grid);
    assert_eq!(frame, "###\n   ");
    assert_eq!(grid.render(), frame);
    let frame = engine.tick(&mut grid);
    assert_eq!(frame, "###\n###");
    assert_eq!(grid.height(), 2);
}

#[test]
fn tick_with_density_zero_keeps_blank_frame() {
    let t = terminal(4, 3);
    let config = Config::new(0, 0, vec!["#", "@"]);
    let engine = Snowfall::new(&config, &t);
    let mut grid = Grid::new(&t);
    for _ in 0..5 {
        assert_eq!(engine.tick(&mut grid), "    \n    \n    ");
    }
}
