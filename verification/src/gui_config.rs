use vstd::prelude::*;

use crate::button::Button;
use crate::button::ButtonSection;
use crate::grid::Grid;

verus! {

/// The buttons of each screen section, each list in drawing order.
#[derive(Clone, Debug, PartialEq, Eq)]
pub struct SectionButtons {
    pub up: Vec<Button>,
    pub down: Vec<Button>,
    pub over_grid: Vec<Button>,
}

impl SectionButtons {
    /// The buttons of one section.
    pub open spec fn spec_get(self, section: ButtonSection) -> Seq<Button> {
        match section {
            ButtonSection::Up => self.up@,
            ButtonSection::Down => self.down@,
            ButtonSection::OverGrid => self.over_grid@,
        }
    }

    /// No buttons in any section.
    pub fn new() -> (r: SectionButtons)
        ensures
            forall|s: ButtonSection| (#[trigger] r.spec_get(s)).len() == 0,
    {
        SectionButtons { up: Vec::new(), down: Vec::new(), over_grid: Vec::new() }
    }

    /// The buttons of one section.
    pub fn get(&self, section: ButtonSection) -> (r: &Vec<Button>)
        ensures
            r@ == self.spec_get(section),
    {
        match section {
            ButtonSection::Up => &self.up,
            ButtonSection::Down => &self.down,
            ButtonSection::OverGrid => &self.over_grid,
        }
    }

    /// Replaces the buttons of one section, leaving the others as they are.
    pub fn set(&mut self, section: ButtonSection, buttons: Vec<Button>)
        ensures
            final(self).spec_get(section) == buttons@,
            forall|s: ButtonSection| s != section
                ==> #[trigger] final(self).spec_get(s) == old(self).spec_get(s),
    {
        match section {
            ButtonSection::Up => {
                self.up = buttons;
            },
            ButtonSection::Down => {
                self.down = buttons;
            },
            ButtonSection::OverGrid => {
                self.over_grid = buttons;
            },
        }
    }
}

/// One immutable configuration snapshot: the buttons of every section and the
/// grid of symbols to draw.
#[derive(Clone, Debug, PartialEq, Eq)]
pub struct GuiConfig {
    pub buttons: SectionButtons,
    pub grid: Grid,
}

impl GuiConfig {
    /// A configuration is well-formed when its grid is.
    pub open spec fn wf(self) -> bool {
        self.grid.wf()
    }

    /// Builds a configuration snapshot.
    pub fn new(buttons: SectionButtons, grid: Grid) -> (c: GuiConfig)
        ensures
            c.buttons == buttons,
            c.grid == grid,
    {
        GuiConfig { buttons, grid }
    }
}

} // verus!
