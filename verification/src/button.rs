use vstd::prelude::*;

use crate::color::Color;
use crate::symbol::Symbol;

verus! {

/// The screen section a button group belongs to.
#[derive(Copy, Clone, Debug, PartialEq, Eq, Structural, Hash)]
pub enum ButtonSection {
    Up,
    Down,
    OverGrid,
}

impl Default for ButtonSection {
    /// Buttons belong to the upper section unless said otherwise.
    fn default() -> (s: ButtonSection)
        ensures
            s == ButtonSection::Up,
    {
        ButtonSection::Up
    }
}

/// One piece of a button label: literal text or a grid symbol.
#[derive(Clone, Debug, PartialEq, Eq)]
pub enum LabelPart {
    Text(String),
    Symbol(Symbol),
}

/// A button: an identifier (unique within its section for correctness, not
/// enforced), an optional color, an ordered label and a clickability flag.
#[derive(Clone, Debug, PartialEq, Eq)]
pub struct Button {
    pub id: String,
    pub color: Option<Color>,
    pub label: Vec<LabelPart>,
    pub click_able: bool,
}

impl Button {
    /// Builds a button from its parts.
    pub fn new(id: String, color: Option<Color>, label: Vec<LabelPart>, click_able: bool) -> (b:
        Button)
        ensures
            b.id == id,
            b.color == color,
            b.label == label,
            b.click_able == click_able,
    {
        Button { id, color, label, click_able }
    }

    /// Appends one more part to the button's label, builder style.
    pub fn add(self, label_part: LabelPart) -> (b: Button)
        ensures
            b.id == self.id,
            b.color == self.color,
            b.click_able == self.click_able,
            b.label@ == self.label@.push(label_part),
    {
        let mut label = self.label;
        label.push(label_part);
        Button { id: self.id, color: self.color, label, click_able: self.click_able }
    }
}

} // verus!
