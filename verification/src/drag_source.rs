//! What a drag carries: the row that was grabbed, the current selection, or
//! the whole collection.

use crate::config::Config;
use crate::drop_target::{keep_present, present};
use crate::file_model::{uris_of, FileModel};
use crate::uri_list::{all_entries, decoded, encode, join_lines, law_round_trip};
use vstd::prelude::*;

verus! {

/// The rows of the list that are highlighted, by their positions.
#[derive(Debug, PartialEq, Eq)]
pub struct Selection {
    indices: Vec<usize>,
}

/// The payload of a drag: the text of a URI list under its media type.
#[derive(Debug, PartialEq, Eq)]
pub struct DragPayload {
    pub mime_type: String,
    pub text: String,
}

/// Where a drag gesture began.
#[derive(Debug, PartialEq, Eq)]
pub enum DragOrigin {
    /// On the row of the file with this URI.
    Row(String),
    /// On the control that stands for all entries.
    AllControl,
}

/// What is to happen when a drag gesture is recognised.
#[derive(Debug, PartialEq, Eq)]
pub struct DragPlan {
    /// The gesture is claimed, so that the press is not taken for a click too.
    pub claimed: bool,
    /// The URIs that the drag carries, in their order.
    pub uris: Vec<String>,
    /// The payload, or `None` where no drag is to begin.
    pub payload: Option<DragPayload>,
    /// Whether the selection was cleared.
    pub selection_cleared: bool,
}

impl View for Selection {
    type V = Set<int>;

    closed spec fn view(&self) -> Set<int> {
        Set::new(|i: int| 0 <= i <= usize::MAX && self.indices@.contains(i as usize))
    }
}

impl Selection {
    /// The selection with no row in it.
    pub fn new() -> (selection: Selection)
        ensures
            selection@ == Set::<int>::empty(),
    {
        let selection = Selection { indices: Vec::new() };
        assert(selection@ =~= Set::<int>::empty());
        selection
    }

    /// Highlights the row at `index`, besides those that are.
    pub fn select(&mut self, index: usize)
        ensures
            final(self)@ == old(self)@.insert(index as int),
    {
        self.indices.push(index);
        assert forall|i: int| self@.contains(i) == old(self)@.insert(index as int).contains(
            i,
        ) by {
            if 0 <= i <= usize::MAX {
                if i == index {
                    assert(self.indices@[self.indices@.len() - 1] == index);
                } else if old(self).indices@.contains(i as usize) {
                    let k = choose|k: int|
                        0 <= k < old(self).indices@.len() && old(self).indices@[k] == i as usize;
                    assert(self.indices@[k] == i as usize);
                } else if self.indices@.contains(i as usize) {
                    let k = choose|k: int|
                        0 <= k < self.indices@.len() && self.indices@[k] == i as usize;
                    assert(old(self).indices@[k] == i as usize);
                }
            }
        }
        assert(self@ =~= old(self)@.insert(index as int));
    }

    /// Takes the highlight from every row.
    pub fn unselect_all(&mut self)
        ensures
            final(self)@ == Set::<int>::empty(),
    {
        self.indices.clear();
        assert(self@ =~= Set::<int>::empty());
    }

    /// Whether the row at `index` is highlighted.
    pub fn is_selected(&self, index: usize) -> (selected: bool)
        ensures
            selected == self@.contains(index as int),
    {
        let mut k: usize = 0;
        while k < self.indices.len()
            invariant
                0 <= k <= self.indices.len(),
                forall|j: int| 0 <= j < k ==> self.indices@[j] != index,
            decreases self.indices.len() - k,
        {
            if self.indices[k] == index {
                return true;
            }
            k += 1;
        }
        false
    }
}

/// The members of `uris` whose positions are in `selected`, in the order of
/// `uris`.
pub open spec fn selected_uris(uris: Seq<Seq<char>>, selected: Set<int>) -> Seq<Seq<char>>
    decreases uris.len(),
{
    if uris.len() == 0 {
        Seq::empty()
    } else {
        let before = selected_uris(uris.drop_last(), selected);
        if selected.contains(uris.len() - 1) {
            before.push(uris.last())
        } else {
            before
        }
    }
}

/// Whether a drag from `origin` carries the whole collection whatever is
/// selected.
pub open spec fn carries_all(origin: DragOrigin, config: Config) -> bool {
    origin is AllControl || config.drags_all()
}

/// Whether a drag from `origin` overrides the selection: it began on a row
/// whose file is not among the selected ones.
pub open spec fn overrides_selection(
    uris: Seq<Seq<char>>,
    selected: Set<int>,
    origin: DragOrigin,
    config: Config,
) -> bool {
    !carries_all(origin, config) && !selected_uris(uris, selected).contains(origin->Row_0@)
}

/// The URIs that a drag from `origin` carries: the whole collection where
/// the drag carries all; else the selected files in collection order if the
/// row's file is one of them, and the row's file alone if it is not.
pub open spec fn dragged_uris(
    uris: Seq<Seq<char>>,
    selected: Set<int>,
    origin: DragOrigin,
    config: Config,
) -> Seq<Seq<char>> {
    if carries_all(origin, config) {
        uris
    } else if overrides_selection(uris, selected, origin, config) {
        seq![origin->Row_0@]
    } else {
        selected_uris(uris, selected)
    }
}

/// Whether `payload` is what carries `uris`: nothing where their text would
/// be empty, else that text as a URI list.
pub open spec fn is_payload_of(payload: Option<DragPayload>, uris: Seq<Seq<char>>) -> bool {
    match payload {
        None => join_lines(uris).len() == 0,
        Some(p) => {
            &&& join_lines(uris).len() > 0
            &&& p.text@ == join_lines(uris)
            &&& p.mime_type@ == "text/uri-list"@
        },
    }
}

/// The payload that carries `paths` in a drag, or `None` where there is
/// nothing to carry.
pub fn generate_content_provider(paths: &Vec<String>) -> (payload: Option<DragPayload>)
    ensures
        is_payload_of(payload, paths.deep_view()),
        paths.len() == 0 ==> payload is None,
{
    match encode(paths) {
        Some(text) => Some(DragPayload { mime_type: "text/uri-list".to_owned(), text }),
        None => None,
    }
}

/// The payload that is sent once each dragged URI was resolved to the
/// location it names. `resolved` holds the resolved URI of each, or `None`
/// where it could not be resolved; those are left out, and the rest are
/// carried in their order. Where nothing is left there is no payload.
pub fn payload_of_resolved(resolved: Vec<Option<String>>) -> (payload: Option<DragPayload>)
    ensures
        is_payload_of(payload, present(resolved@).map_values(|u: String| u@)),
{
    let kept = keep_present(resolved);
    assert(kept.deep_view() =~= present(resolved@).map_values(|u: String| u@));
    generate_content_provider(&kept)
}

/// Whether `needle` is a member of `haystack`.
fn contains_text(haystack: &Vec<String>, needle: &String) -> (found: bool)
    ensures
        found == haystack.deep_view().contains(needle@),
{
    let mut i: usize = 0;
    while i < haystack.len()
        invariant
            0 <= i <= haystack.len(),
            forall|k: int| 0 <= k < i ==> haystack.deep_view()[k] != needle@,
        decreases haystack.len() - i,
    {
        if haystack[i].eq(needle) {
            assert(haystack.deep_view()[i as int] == needle@);
            return true;
        }
        i += 1;
    }
    false
}

/// The selected members of `uris`, in the order of `uris`.
fn pick_selected(uris: &Vec<String>, selection: &Selection) -> (chosen: Vec<String>)
    ensures
        chosen.deep_view() == selected_uris(uris.deep_view(), selection@),
{
    let mut chosen: Vec<String> = Vec::new();
    let mut i: usize = 0;
    assert(uris.deep_view().take(0) =~= Seq::<Seq<char>>::empty());
    while i < uris.len()
        invariant
            0 <= i <= uris.len(),
            chosen.deep_view() == selected_uris(uris.deep_view().take(i as int), selection@),
        decreases uris.len() - i,
    {
        proof {
            let next = uris.deep_view().take(i + 1);
            assert(next.drop_last() =~= uris.deep_view().take(i as int));
            assert(next.last() == uris[i as int]@);
        }
        if selection.is_selected(i) {
            let uri = uris[i].clone();
            let ghost before = chosen.deep_view();
            chosen.push(uri);
            assert(chosen.deep_view() =~= before.push(uri@));
        }
        i += 1;
    }
    assert(uris.deep_view().take(uris.len() as int) =~= uris.deep_view());
    chosen
}

/// Decides what a drag carries, at the moment the gesture is recognised.
///
/// The gesture is claimed in every case. A drag that carries all takes the
/// whole collection and leaves the selection alone. A drag from a row whose
/// file is selected takes the selected files, in collection order. A drag
/// from a row whose file is not selected takes that file alone and clears
/// the selection. Where nothing would be carried there is no payload, and no
/// drag is to begin.
pub fn prepare_drag(
    model: &FileModel,
    selection: &mut Selection,
    origin: &DragOrigin,
    config: &Config,
) -> (plan: DragPlan)
    ensures
        plan.claimed,
        plan.uris.deep_view() == dragged_uris(uris_of(model@), old(selection)@, *origin, *config),
        is_payload_of(plan.payload, plan.uris.deep_view()),
        carries_all(*origin, *config) ==> plan.uris.deep_view() == uris_of(model@),
        plan.selection_cleared == overrides_selection(
            uris_of(model@),
            old(selection)@,
            *origin,
            *config,
        ),
        final(selection)@ == if plan.selection_cleared {
            Set::<int>::empty()
        } else {
            old(selection)@
        },
{
    let all = model.uris();
    let mut cleared = false;
    let uris = match origin {
        DragOrigin::AllControl => all,
        DragOrigin::Row(row) => {
            if config.drag_all() {
                all
            } else {
                let chosen = pick_selected(&all, selection);
                if contains_text(&chosen, row) {
                    chosen
                } else {
                    selection.unselect_all();
                    cleared = true;
                    let mut alone: Vec<String> = Vec::new();
                    alone.push(row.clone());
                    assert(alone.deep_view() =~= seq![row@]);
                    alone
                }
            }
        },
    };
    let payload = generate_content_provider(&uris);
    DragPlan { claimed: true, uris, payload, selection_cleared: cleared }
}

impl DragPlan {
    /// Whether a drag is to begin: only with a payload.
    pub fn begins(&self) -> (begins: bool)
        ensures
            begins == self.payload is Some,
    {
        self.payload.is_some()
    }
}

/// What a drag sends is what a drop receives: where the dragged URIs are
/// entries and there is at least one, there is a payload, and its text
/// decodes to the same URIs in the same order.
pub proof fn law_payload_decodes(payload: Option<DragPayload>, uris: Seq<Seq<char>>)
    requires
        is_payload_of(payload, uris),
        uris.len() > 0,
        all_entries(uris),
    ensures
        payload is Some,
        decoded(payload->0.text@) == uris,
{
    law_round_trip(uris);
}

} // verus!
