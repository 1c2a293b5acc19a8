//! What the settings screens need from a renderer: three text styles
//! and the operations the pages draw with.  The display driver outside
//! the library implements the trait; the pages only decide what to
//! render where.

use crate::sight::Sight;
use vstd::prelude::*;

verus! {

/// How a line of menu text is styled.
#[derive(Clone, Copy, Debug, PartialEq, Eq, Structural)]
pub enum TextType {
    /// An ordinary line.
    Normal,
    /// The line the cursor is on.
    Highlighted,
    /// The line whose value is being edited.
    Selected,
}

/// The drawing operations the settings pages use.  Implemented by the
/// display layer outside the library; the pages state nothing about
/// what drawing does, only which calls they make.
pub trait SettingsRenderer {
    /// Draws one line of text on the given row.
    fn render_text(&mut self, text: &str, row: u8, text_type: TextType);

    /// Draws a right-aligned value, given as raw text bytes, of the
    /// given length beside a row.
    fn render_aditional_text(&mut self, text: &Vec<u8>, row: u8, text_type: TextType, length: u8);

    /// Draws the live reticle preview for the sight being adjusted.
    fn render_sight_preview(&mut self, sight: &Sight);
}

} // verus!
