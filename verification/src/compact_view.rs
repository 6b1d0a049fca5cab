//! The compact view: one element that stands for all entries and says how
//! many there are.

use crate::file_model::FileModel;
use crate::text::{decimal, push_decimal};
use vstd::prelude::*;

verus! {

/// The texts of the compact element.
#[derive(Clone, Debug, PartialEq, Eq)]
pub struct CompactLabel {
    label: String,
    tooltip: String,
}

/// A `CompactLabel` as contracts see it.
pub struct CompactLabelView {
    pub label: Seq<char>,
    pub tooltip: Seq<char>,
}

/// The label for `n` entries: the number, then the word `elements`.
pub open spec fn count_text(n: nat) -> Seq<char> {
    decimal(n) + " elements"@
}

/// The texts for `n` entries: the label, and the tooltip that puts `Drag`
/// before it.
pub open spec fn texts_for(n: nat) -> CompactLabelView {
    CompactLabelView { label: count_text(n), tooltip: "Drag "@ + count_text(n) }
}

impl View for CompactLabel {
    type V = CompactLabelView;

    closed spec fn view(&self) -> CompactLabelView {
        CompactLabelView { label: self.label@, tooltip: self.tooltip@ }
    }
}

impl CompactLabel {
    /// The element for `model` as it is now.
    pub fn new(model: &FileModel) -> (element: CompactLabel)
        ensures
            element@ == texts_for(model@.len()),
    {
        let mut element = CompactLabel { label: String::new(), tooltip: String::new() };
        element.items_changed(model);
        element
    }

    /// Brings the texts up to date after the collection changed.
    pub fn items_changed(&mut self, model: &FileModel)
        ensures
            final(self)@ == texts_for(model@.len()),
    {
        let mut label = String::new();
        push_decimal(&mut label, model.len());
        label.append(" elements");
        let mut tooltip = "Drag ".to_owned();
        tooltip.append(label.as_str());
        assert(label@ =~= count_text(model@.len()));
        self.label = label;
        self.tooltip = tooltip;
    }

    /// The label.
    pub fn label(&self) -> (label: &String)
        ensures
            label@ == self@.label,
    {
        &self.label
    }

    /// The tooltip.
    pub fn tooltip(&self) -> (tooltip: &String)
        ensures
            tooltip@ == self@.tooltip,
    {
        &self.tooltip
    }
}

} // verus!
