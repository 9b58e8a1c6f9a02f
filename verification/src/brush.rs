//! Which brush the Brush tool is being, and which shape a pattern brush
//! stamps.
//!
//! * **Fluid** is Animate's Brush: a filled stroke whose width answers to how
//!   the stroke was made. It is the default because it is what a brush is.
//! * **Normal** is the same outline with one steady width.
//! * **Pattern** and **Art** are Animate's Paint Brush, which repeats a source
//!   shape along the stroke or stretches one copy over it.
//! * **Soft** paints pixels; **Effect** and **Wave** paint scenery and things
//!   that flow, compositing themselves piece by piece.
//!
//! The geometry of the shapes and the numeric settings are floating point and
//! live with the drawing code; what lives here is the choice.

use vstd::prelude::*;

verus! {

/// Which brush the Brush tool is currently being.
#[derive(Debug, Clone, Copy, PartialEq, Eq, Hash, Structural)]
pub enum BrushKind {
    /// A filled stroke whose width follows pressure or speed.
    Fluid,
    /// A plain brush: the same filled outline, one width all the way along.
    Normal,
    /// A source shape repeated along the stroke.
    Pattern,
    /// A single source shape stretched over the whole stroke.
    Art,
    /// Painted pixels with a soft edge — Photoshop's round brush.
    Raster,
    /// A stroke that paints scenery: snow, clouds, skylines, strings of lights.
    Effect,
    /// A stroke that flows: smoke, water, wavy hair, ribbons.
    Wave,
}

impl Default for BrushKind {
    fn default() -> (k: Self)
        ensures
            k == BrushKind::Fluid,
    {
        BrushKind::Fluid
    }
}

impl BrushKind {
    /// Every kind, in the order the Type picker offers them.
    pub const ALL: [BrushKind; 7] = [
        BrushKind::Fluid,
        BrushKind::Normal,
        BrushKind::Raster,
        BrushKind::Pattern,
        BrushKind::Art,
        BrushKind::Effect,
        BrushKind::Wave,
    ];

    /// The picker's order, as a sequence.
    pub open spec fn all_spec() -> Seq<BrushKind> {
        seq![
            BrushKind::Fluid,
            BrushKind::Normal,
            BrushKind::Raster,
            BrushKind::Pattern,
            BrushKind::Art,
            BrushKind::Effect,
            BrushKind::Wave,
        ]
    }

    pub open spec fn label_spec(self) -> Seq<char> {
        match self {
            BrushKind::Fluid => "Fluid"@,
            BrushKind::Normal => "Normal"@,
            BrushKind::Pattern => "Pattern"@,
            BrushKind::Art => "Art"@,
            BrushKind::Raster => "Soft"@,
            BrushKind::Effect => "Effect"@,
            BrushKind::Wave => "Wave"@,
        }
    }

    pub fn label(self) -> (r: &'static str)
        ensures
            r@ == self.label_spec(),
    {
        match self {
            BrushKind::Fluid => "Fluid",
            BrushKind::Normal => "Normal",
            BrushKind::Pattern => "Pattern",
            BrushKind::Art => "Art",
            BrushKind::Raster => "Soft",
            BrushKind::Effect => "Effect",
            BrushKind::Wave => "Wave",
        }
    }

    pub open spec fn description_spec(self) -> Seq<char> {
        match self {
            BrushKind::Fluid => "A filled stroke that thins as you draw faster"@,
            BrushKind::Normal => "A filled stroke of one steady width, like a marker"@,
            BrushKind::Pattern => "Repeats a shape along the stroke"@,
            BrushKind::Art => "Stretches one shape over the whole stroke"@,
            BrushKind::Raster => "Paints pixels with a soft edge, as an airbrush does"@,
            BrushKind::Effect => "Paints scenery: snow, clouds, skylines, lights"@,
            BrushKind::Wave => "Draws what flows: smoke, water, wavy hair — and animates it"@,
        }
    }

    /// One line for the tool options, saying what the brush does.
    pub fn description(self) -> (r: &'static str)
        ensures
            r@ == self.description_spec(),
    {
        match self {
            BrushKind::Fluid => "A filled stroke that thins as you draw faster",
            BrushKind::Normal => "A filled stroke of one steady width, like a marker",
            BrushKind::Pattern => "Repeats a shape along the stroke",
            BrushKind::Art => "Stretches one shape over the whole stroke",
            BrushKind::Raster => "Paints pixels with a soft edge, as an airbrush does",
            BrushKind::Effect => "Paints scenery: snow, clouds, skylines, lights",
            BrushKind::Wave => "Draws what flows: smoke, water, wavy hair — and animates it",
        }
    }

    /// Does this brush choose its own compositing, piece by piece, rather than
    /// answering to the Build up setting?
    pub fn composites_itself(self) -> (r: bool)
        ensures
            r <==> (self == BrushKind::Effect || self == BrushKind::Wave),
    {
        match self {
            BrushKind::Effect | BrushKind::Wave => true,
            _ => false,
        }
    }

    /// Does this brush stamp a source shape?
    pub fn uses_pattern(self) -> (r: bool)
        ensures
            r <==> (self == BrushKind::Pattern || self == BrushKind::Art),
    {
        match self {
            BrushKind::Pattern | BrushKind::Art => true,
            _ => false,
        }
    }

    /// Does this brush draw a filled outline along the stroke — the two that
    /// share the width, taper and viscosity settings?
    pub fn is_outlined(self) -> (r: bool)
        ensures
            r <==> (self == BrushKind::Fluid || self == BrushKind::Normal),
    {
        match self {
            BrushKind::Fluid | BrushKind::Normal => true,
            _ => false,
        }
    }
}

/// **The Type picker offers every brush kind**, each exactly once: a kind
/// the settings can describe but the picker does not list is a brush nobody
/// can reach.
pub proof fn every_brush_kind_is_offered(k: BrushKind)
    ensures
        BrushKind::ALL@ == BrushKind::all_spec(),
        exists|i: int| 0 <= i < 7 && #[trigger] BrushKind::all_spec()[i] == k,
        forall|i: int, j: int|
            0 <= i < j < 7 ==> #[trigger] BrushKind::all_spec()[i] != #[trigger] BrushKind::all_spec()[j],
{
    assert(BrushKind::ALL@ =~= BrushKind::all_spec());
    let s = BrushKind::all_spec();
    match k {
        BrushKind::Fluid => assert(s[0] == k),
        BrushKind::Normal => assert(s[1] == k),
        BrushKind::Raster => assert(s[2] == k),
        BrushKind::Pattern => assert(s[3] == k),
        BrushKind::Art => assert(s[4] == k),
        BrushKind::Effect => assert(s[5] == k),
        BrushKind::Wave => assert(s[6] == k),
    }
}

/// **Every brush kind describes itself** for the tool options: its name and
/// its one-line description are never blank.
pub proof fn brush_kinds_describe_themselves(k: BrushKind)
    ensures
        k.label_spec().len() > 0,
        k.description_spec().len() > 0,
{
    reveal_strlit("Fluid");
    reveal_strlit("Normal");
    reveal_strlit("Pattern");
    reveal_strlit("Art");
    reveal_strlit("Soft");
    reveal_strlit("Effect");
    reveal_strlit("Wave");
    reveal_strlit("A filled stroke that thins as you draw faster");
    reveal_strlit("A filled stroke of one steady width, like a marker");
    reveal_strlit("Repeats a shape along the stroke");
    reveal_strlit("Stretches one shape over the whole stroke");
    reveal_strlit("Paints pixels with a soft edge, as an airbrush does");
    reveal_strlit("Paints scenery: snow, clouds, skylines, lights");
    reveal_strlit("Draws what flows: smoke, water, wavy hair — and animates it");
}

/// The built-in shapes a pattern brush can repeat, and the one made from a
/// selection.
#[derive(Debug, Clone, Copy, PartialEq, Eq, Hash, Structural)]
pub enum PatternShape {
    /// A round dot: the plainest pattern, and a dotted line at wide spacing.
    Dot,
    /// A short bar across the stroke, which reads as a railway line.
    Dash,
    /// A tapered leaf.
    Leaf,
    /// A five-pointed star.
    Star,
    /// A triangle pointing along the stroke, which reads as an arrow chain.
    Arrow,
    /// A square rotated onto its corner.
    Diamond,
    /// Whatever the user made from a selection.
    Custom,
}

impl Default for PatternShape {
    fn default() -> (p: Self)
        ensures
            p == PatternShape::Dot,
    {
        PatternShape::Dot
    }
}

impl PatternShape {
    /// The shapes that come with the program, in the order they are offered.
    pub const BUILT_IN: [PatternShape; 6] = [
        PatternShape::Dot,
        PatternShape::Dash,
        PatternShape::Leaf,
        PatternShape::Star,
        PatternShape::Arrow,
        PatternShape::Diamond,
    ];

    pub open spec fn label_spec(self) -> Seq<char> {
        match self {
            PatternShape::Dot => "Dot"@,
            PatternShape::Dash => "Dash"@,
            PatternShape::Leaf => "Leaf"@,
            PatternShape::Star => "Star"@,
            PatternShape::Arrow => "Arrow"@,
            PatternShape::Diamond => "Diamond"@,
            PatternShape::Custom => "From Selection"@,
        }
    }

    pub fn label(self) -> (r: &'static str)
        ensures
            r@ == self.label_spec(),
    {
        match self {
            PatternShape::Dot => "Dot",
            PatternShape::Dash => "Dash",
            PatternShape::Leaf => "Leaf",
            PatternShape::Star => "Star",
            PatternShape::Arrow => "Arrow",
            PatternShape::Diamond => "Diamond",
            PatternShape::Custom => "From Selection",
        }
    }
}

/// **The built-in patterns are exactly the shapes that are not made from a
/// selection**, each named.
pub proof fn built_in_patterns_are_the_fixed_shapes(p: PatternShape)
    ensures
        (exists|i: int| 0 <= i < 6 && #[trigger] PatternShape::BUILT_IN@[i] == p) <==> p
            != PatternShape::Custom,
        p.label_spec().len() > 0,
{
    reveal_strlit("Dot");
    reveal_strlit("Dash");
    reveal_strlit("Leaf");
    reveal_strlit("Star");
    reveal_strlit("Arrow");
    reveal_strlit("Diamond");
    reveal_strlit("From Selection");
    let s = PatternShape::BUILT_IN@;
    assert(s =~= seq![
        PatternShape::Dot,
        PatternShape::Dash,
        PatternShape::Leaf,
        PatternShape::Star,
        PatternShape::Arrow,
        PatternShape::Diamond,
    ]);
    match p {
        PatternShape::Dot => assert(s[0] == p),
        PatternShape::Dash => assert(s[1] == p),
        PatternShape::Leaf => assert(s[2] == p),
        PatternShape::Star => assert(s[3] == p),
        PatternShape::Arrow => assert(s[4] == p),
        PatternShape::Diamond => assert(s[5] == p),
        PatternShape::Custom => {},
    }
}

} // verus!
