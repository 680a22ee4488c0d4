use vstd::prelude::*;

verus! {

/// Terminal dimensions (rows and columns) as reported by the
/// window-size query of the terminal device.
#[derive(Clone, Copy, PartialEq, Eq, Structural, Debug)]
pub struct TermDim {
    pub height: u16,
    pub width: u16,
}

impl TermDim {
    /// Builds dimensions from explicit values.
    pub fn new(height: u16, width: u16) -> (r: TermDim)
        ensures
            r.height == height,
            r.width == width,
    {
        TermDim { height, width }
    }

    /// Get the height (amount of lines) of the terminal
    pub fn get_height(&self) -> (r: u16)
        ensures
            r == self.height,
    {
        self.height
    }

    /// Get the width (amount of columns) of the terminal
    pub fn get_width(&self) -> (r: u16)
        ensures
            r == self.width,
    {
        self.width
    }

    /// Decides the outcome of a window-size query: a negative status means
    /// the query failed, and no dimensions are reported at all in that case.
    pub fn from_query(status: i32, height: u16, width: u16) -> (r: Option<TermDim>)
        ensures
            r is Some <==> status >= 0,
            r matches Some(d) ==> d.height == height && d.width == width,
    {
        if status < 0 {
            None
        } else {
            Some(TermDim { height, width })
        }
    }
}

} // verus!
