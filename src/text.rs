use vstd::prelude::*;

verus! {

/// Horizontal alignment of a text object.
#[derive(Debug, Clone, Copy, PartialEq, Eq, Structural)]
pub enum HorizontalAlign {
    Center,
    Right,
    Justify,
    Left,
}

impl Default for HorizontalAlign {
    /// Text is left-aligned unless the document says otherwise.
    fn default() -> (r: Self)
        ensures
            r == HorizontalAlign::Left,
    {
        HorizontalAlign::Left
    }
}

/// Vertical alignment of a text object.
#[derive(Debug, Clone, Copy, PartialEq, Eq, Structural)]
pub enum VerticalAlign {
    Center,
    Bottom,
    Top,
}

impl Default for VerticalAlign {
    /// Text is top-aligned unless the document says otherwise.
    fn default() -> (r: Self)
        ensures
            r == VerticalAlign::Top,
    {
        VerticalAlign::Top
    }
}

} // verus!
