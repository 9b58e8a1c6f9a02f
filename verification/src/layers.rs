//! The three switches a layer row carries — visibility, lock and outline —
//! named once, so the Layers panel and the timeline say the same thing about
//! the same switch.

use vstd::prelude::*;

verus! {

/// Which switch a layer row is drawing.
#[derive(Debug, Clone, Copy, PartialEq, Eq, Hash, Structural)]
pub enum LayerIcon {
    /// The eye column: shown, or struck through when hidden.
    Eye,
    /// The padlock column: closed when locked, open when not.
    Lock,
    /// The outline column: a hollow square in the layer's own colour.
    Outline,
}

impl LayerIcon {
    /// The three columns, in the order Animate rules them.
    pub const ALL: [LayerIcon; 3] = [LayerIcon::Eye, LayerIcon::Lock, LayerIcon::Outline];

    pub open spec fn heading_spec(self) -> Seq<char> {
        match self {
            LayerIcon::Eye => "show"@,
            LayerIcon::Lock => "lock"@,
            LayerIcon::Outline => "out"@,
        }
    }

    /// The short word over the column.
    pub fn heading(self) -> (r: &'static str)
        ensures
            r@ == self.heading_spec(),
    {
        match self {
            LayerIcon::Eye => "show",
            LayerIcon::Lock => "lock",
            LayerIcon::Outline => "out",
        }
    }

    pub open spec fn hint_spec(self, on: bool) -> Seq<char> {
        match (self, on) {
            (LayerIcon::Eye, true) => "Visible \u{2014} click to hide. A hidden layer is left out of the export too."@,
            (LayerIcon::Eye, false) => "Hidden \u{2014} click to show"@,
            (LayerIcon::Lock, true) => "Locked \u{2014} click to unlock"@,
            (LayerIcon::Lock, false) => "Unlocked \u{2014} click to lock. A locked layer cannot be selected or edited."@,
            (LayerIcon::Outline, _) => "Show this layer as outlines, in its own colour. A working view: the export draws it filled."@,
        }
    }

    /// What this switch means in the state `on`, spelled out — the same words
    /// wherever it is drawn, because it is the same switch.
    pub fn hint(self, on: bool) -> (r: &'static str)
        ensures
            r@ == self.hint_spec(on),
    {
        match (self, on) {
            (LayerIcon::Eye, true) => "Visible \u{2014} click to hide. A hidden layer is left out of the export too.",
            (LayerIcon::Eye, false) => "Hidden \u{2014} click to show",
            (LayerIcon::Lock, true) => "Locked \u{2014} click to unlock",
            (LayerIcon::Lock, false) => "Unlocked \u{2014} click to lock. A locked layer cannot be selected or edited.",
            (LayerIcon::Outline, _) => "Show this layer as outlines, in its own colour. A working view: the export draws it filled.",
        }
    }
}

/// What a layer is, in Animate's terms.
#[derive(Debug, Clone, Copy, PartialEq, Eq, Hash, Structural)]
pub enum LayerKind {
    Normal,
    Mask,
    InverseMask,
    Masked,
    Guide,
    Guided,
    Folder,
}

pub open spec fn layer_kind_hint_spec(kind: LayerKind) -> Seq<char> {
    match kind {
        LayerKind::Normal => "An ordinary drawing layer"@,
        LayerKind::Mask => "Its artwork is a stencil: the masked layers below show only where it covers them"@,
        LayerKind::InverseMask => "The stencil, inverted: the masked layers below are hidden where it covers them, and show everywhere else"@,
        LayerKind::Masked => "Clipped by the mask layer above"@,
        LayerKind::Guide => "Reference artwork \u{2014} visible here, never in the film"@,
        LayerKind::Guided => "Follows the motion guide on the guide layer above"@,
        LayerKind::Folder => "Holds other layers, and draws nothing itself"@,
    }
}

/// What a kind of layer does, spelled out: most kinds only mean something
/// in relation to the layers around them, and a bare name says nothing
/// about that.
pub fn layer_kind_hint(kind: LayerKind) -> (r: &'static str)
    ensures
        r@ == layer_kind_hint_spec(kind),
{
    match kind {
        LayerKind::Normal => "An ordinary drawing layer",
        LayerKind::Mask => "Its artwork is a stencil: the masked layers below show only where it covers them",
        LayerKind::InverseMask => "The stencil, inverted: the masked layers below are hidden where it covers them, and show everywhere else",
        LayerKind::Masked => "Clipped by the mask layer above",
        LayerKind::Guide => "Reference artwork \u{2014} visible here, never in the film",
        LayerKind::Guided => "Follows the motion guide on the guide layer above",
        LayerKind::Folder => "Holds other layers, and draws nothing itself",
    }
}

} // verus!
