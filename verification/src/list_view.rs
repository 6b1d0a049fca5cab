//! One row of the list: where its parts stand, what it says, and what a
//! click on it does.

use crate::config::Config;
use crate::file_object::FileObject;
use vstd::prelude::*;

verus! {

/// A place in a row.
#[derive(Clone, Copy, Debug, PartialEq, Eq, Structural)]
pub enum Slot {
    Start,
    Center,
}

/// Where the parts of a row stand.
#[derive(Clone, Copy, Debug, PartialEq, Eq, Structural)]
pub struct RowLayout {
    /// The place of the label.
    pub label: Slot,
    /// The place of the thumbnail.
    pub thumbnail: Slot,
    /// Whether the label is shown.
    pub label_visible: bool,
}

/// The texts of a row.
#[derive(Clone, Debug, PartialEq, Eq)]
pub struct RowText {
    /// The name that is shown.
    pub label: String,
    /// The full name, which the row answers with when it is asked for its file.
    pub tooltip: String,
}

/// What a click on a row does.
#[derive(Clone, Debug, PartialEq, Eq)]
pub enum ClickAction {
    Ignore,
    /// Open the file at this path.
    Open(String),
}

/// The layout of a row: with icons only, the thumbnail stands in the centre
/// and the label, hidden, at the start; else the label stands in the centre
/// and the thumbnail at the start.
pub open spec fn layout_of(icons_only: bool) -> RowLayout {
    if icons_only {
        RowLayout { label: Slot::Start, thumbnail: Slot::Center, label_visible: false }
    } else {
        RowLayout { label: Slot::Center, thumbnail: Slot::Start, label_visible: true }
    }
}

/// Whether a click opens the file: clicks are not switched off, neither the
/// control key nor the shift key is held, and the file has a local path.
pub open spec fn opens(no_click: bool, control: bool, shift: bool, local: bool) -> bool {
    !no_click && !control && !shift && local
}

/// The layout of a row.
pub fn row_layout(config: &Config) -> (layout: RowLayout)
    ensures
        layout == layout_of(config.icons_only),
{
    if config.icons_only {
        RowLayout { label: Slot::Start, thumbnail: Slot::Center, label_visible: false }
    } else {
        RowLayout { label: Slot::Center, thumbnail: Slot::Start, label_visible: true }
    }
}

/// The place in a row where the label, and with it the full name of the
/// file, is found.
pub fn label_slot(config: &Config) -> (slot: Slot)
    ensures
        slot == layout_of(config.icons_only).label,
{
    row_layout(config).label
}

/// The texts of the row of `object`: its name in the list as the label, its
/// full name as the tooltip.
pub fn row_text(object: &FileObject) -> (text: RowText)
    ensures
        text.label@ == object@.display_name,
        text.tooltip@ == object@.parse_name,
{
    RowText { label: object.display_name().clone(), tooltip: object.parse_name().clone() }
}

/// What a click on the row of a file does. `path` is the local path of the
/// file, if it has one.
pub fn click_action(config: &Config, control: bool, shift: bool, path: Option<&String>) -> (action:
    ClickAction)
    ensures
        action is Open <==> opens(config.no_click, control, shift, path is Some),
        action matches ClickAction::Open(target) ==> target@ == path->0@,
{
    if config.no_click || control || shift {
        ClickAction::Ignore
    } else {
        match path {
            Some(target) => ClickAction::Open(target.clone()),
            None => ClickAction::Ignore,
        }
    }
}

} // verus!
