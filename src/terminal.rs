use vstd::prelude::*;

verus! {

/// The two ways the animation can fail.
#[derive(Debug, Clone, Copy, PartialEq, Eq, Structural)]
pub enum Error {
    /// The environment reports no usable terminal dimensions.
    UnknownTerminalSize,
    /// The screen could not be cleared.
    UnknownDevice,
}

/// The size of the terminal, fixed once at startup.
pub struct Terminal {
    width: usize,
    height: usize,
}

/// Relies on `term_size::dimensions`: the columns and rows of the controlling
/// terminal, or `None` when there is none. What it reports depends on the
/// environment, so nothing is promised of it.
#[verifier::external_body]
fn query_dimensions() -> (r: Option<(usize, usize)>) {
    term_size::dimensions()
}

impl Terminal {
    /// Both dimensions are positive.
    pub open spec fn wf(&self) -> bool {
        self.spec_width() > 0 && self.spec_height() > 0
    }

    /// Number of columns.
    pub closed spec fn spec_width(&self) -> nat {
        self.width as nat
    }

    /// Number of rows.
    pub closed spec fn spec_height(&self) -> nat {
        self.height as nat
    }

    /// Number of columns.
    pub fn width(&self) -> (r: usize)
        ensures
            r == self.spec_width(),
    {
        self.width
    }

    /// Number of rows.
    pub fn height(&self) -> (r: usize)
        ensures
            r == self.spec_height(),
    {
        self.height
    }

    /// Builds a terminal size from reported `(columns, rows)`. A missing
    /// report, or one with a zero dimension, is `UnknownTerminalSize`.
    pub fn from_dimensions(dims: Option<(usize, usize)>) -> (r: Result<Terminal, Error>)
        ensures
            match dims {
                Some((w, h)) if w > 0 && h > 0 => r matches Ok(t) && t.spec_width() == w
                    && t.spec_height() == h && t.wf(),
                _ => r == Err::<Terminal, Error>(Error::UnknownTerminalSize),
            },
    {
        match dims {
            Some((width, height)) => {
                if width > 0 && height > 0 {
                    Ok(Terminal { width, height })
                } else {
                    Err(Error::UnknownTerminalSize)
                }
            },
            None => Err(Error::UnknownTerminalSize),
        }
    }

    /// Asks the controlling terminal for its size.
    pub fn try_new() -> (r: Result<Terminal, Error>)
        ensures
            r matches Ok(t) ==> t.wf(),
            r matches Err(e) ==> e == Error::UnknownTerminalSize,
    {
        Terminal::from_dimensions(query_dimensions())
    }
}

} // verus!
