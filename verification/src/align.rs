//! The operations of Animate's Align panel, by name.
//!
//! The arithmetic itself works on floating-point rectangles and is not part
//! of this library; what the menus and commands need — which operation, and
//! what it is called — is.

use vstd::prelude::*;

verus! {

/// Which edges or centres to line up.
#[derive(Debug, Clone, Copy, PartialEq, Eq, Hash, Structural)]
pub enum Align {
    LeftEdges,
    HorizontalCentres,
    RightEdges,
    TopEdges,
    VerticalCentres,
    BottomEdges,
}

/// How to spread things out.
#[derive(Debug, Clone, Copy, PartialEq, Eq, Hash, Structural)]
pub enum Distribute {
    /// Equal distance between centres, ignoring how wide each one is.
    HorizontalCentres,
    VerticalCentres,
    /// Equal *gaps*, which is what the eye reads as evenly spaced when the
    /// objects are different sizes.
    HorizontalSpacing,
    VerticalSpacing,
}

/// Make everything the same size as the largest.
#[derive(Debug, Clone, Copy, PartialEq, Eq, Hash, Structural)]
pub enum MatchSize {
    Width,
    Height,
    Both,
}

impl Align {
    /// Every alignment, in the order the menu offers them.
    pub const ALL: [Align; 6] = [
        Align::LeftEdges,
        Align::HorizontalCentres,
        Align::RightEdges,
        Align::TopEdges,
        Align::VerticalCentres,
        Align::BottomEdges,
    ];

    pub open spec fn label_spec(self) -> Seq<char> {
        match self {
            Align::LeftEdges => "Left Edges"@,
            Align::HorizontalCentres => "Horizontal Centre"@,
            Align::RightEdges => "Right Edges"@,
            Align::TopEdges => "Top Edges"@,
            Align::VerticalCentres => "Vertical Centre"@,
            Align::BottomEdges => "Bottom Edges"@,
        }
    }

    pub fn label(self) -> (r: &'static str)
        ensures
            r@ == self.label_spec(),
    {
        match self {
            Align::LeftEdges => "Left Edges",
            Align::HorizontalCentres => "Horizontal Centre",
            Align::RightEdges => "Right Edges",
            Align::TopEdges => "Top Edges",
            Align::VerticalCentres => "Vertical Centre",
            Align::BottomEdges => "Bottom Edges",
        }
    }
}

impl Distribute {
    /// Every distribution, in the order the menu offers them.
    pub const ALL: [Distribute; 4] = [
        Distribute::HorizontalCentres,
        Distribute::VerticalCentres,
        Distribute::HorizontalSpacing,
        Distribute::VerticalSpacing,
    ];

    pub open spec fn label_spec(self) -> Seq<char> {
        match self {
            Distribute::HorizontalCentres => "Horizontal Centres"@,
            Distribute::VerticalCentres => "Vertical Centres"@,
            Distribute::HorizontalSpacing => "Horizontal Spacing"@,
            Distribute::VerticalSpacing => "Vertical Spacing"@,
        }
    }

    pub fn label(self) -> (r: &'static str)
        ensures
            r@ == self.label_spec(),
    {
        match self {
            Distribute::HorizontalCentres => "Horizontal Centres",
            Distribute::VerticalCentres => "Vertical Centres",
            Distribute::HorizontalSpacing => "Horizontal Spacing",
            Distribute::VerticalSpacing => "Vertical Spacing",
        }
    }
}

impl MatchSize {
    /// Every size match, in the order the menu offers them.
    pub const ALL: [MatchSize; 3] = [MatchSize::Width, MatchSize::Height, MatchSize::Both];

    pub open spec fn label_spec(self) -> Seq<char> {
        match self {
            MatchSize::Width => "Width"@,
            MatchSize::Height => "Height"@,
            MatchSize::Both => "Width and Height"@,
        }
    }

    pub fn label(self) -> (r: &'static str)
        ensures
            r@ == self.label_spec(),
    {
        match self {
            MatchSize::Width => "Width",
            MatchSize::Height => "Height",
            MatchSize::Both => "Width and Height",
        }
    }
}

} // verus!
