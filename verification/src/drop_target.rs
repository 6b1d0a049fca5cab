//! Receiving a drop: which form of the offered data is taken, which of its
//! entries count, whether the drop is accepted, and what is done with it.

use crate::config::Config;
use crate::file_model::{views_of, FileModel, ItemsChanged};
use crate::file_object::FileObject;
use crate::uri_list::{decode, decoded};
use vstd::prelude::*;

verus! {

/// One dropped file, as far as the handling of a drop reads it.
#[derive(Clone, Debug, PartialEq, Eq)]
pub struct Location {
    /// The location as a URI.
    pub uri: String,
    /// The full name, as it is printed.
    pub parse_name: String,
    /// Whether the file can be addressed by a local path.
    pub local: bool,
}

/// The data of one drop, in the form that was taken.
#[derive(Debug, PartialEq, Eq)]
pub enum DropPayload {
    /// A list of files, as the platform hands it over.
    StructuredList(Vec<Location>),
    /// The text of a URI list.
    TextUriList(String),
}

/// What a payload holds before any URI is parsed.
#[derive(Debug, PartialEq, Eq)]
pub enum DropContent {
    /// Files: nothing is left to parse.
    Locations(Vec<Location>),
    /// The entries of a URI list, each still to be parsed as a URI.
    Lines(Vec<String>),
}

/// What is to happen with one drop.
#[derive(Debug, PartialEq, Eq)]
pub struct DropPlan {
    /// Whether the drop is accepted.
    pub accepted: bool,
    /// The lines to print: the name of every file of an accepted drop.
    pub announce: Vec<String>,
    /// Whether the files are to be entered into the collection.
    pub retain: bool,
    /// Whether the run ends after this drop.
    pub exit: bool,
}

/// The form that is taken of what a drop offers: the list of files where
/// there is one, else the text, else nothing.
pub open spec fn preferred(
    structured: Option<Vec<Location>>,
    text: Option<String>,
) -> Option<DropPayload> {
    match structured {
        Some(files) => Some(DropPayload::StructuredList(files)),
        None => match text {
            Some(t) => Some(DropPayload::TextUriList(t)),
            None => None,
        },
    }
}

/// The members of `items` that are there, in their order.
pub open spec fn present<T>(items: Seq<Option<T>>) -> Seq<T>
    decreases items.len(),
{
    if items.len() == 0 {
        Seq::empty()
    } else {
        let before = present(items.drop_last());
        match items.last() {
            Some(item) => before.push(item),
            None => before,
        }
    }
}

/// The names of `locations`, in their order.
pub open spec fn names_of(locations: Seq<Location>) -> Seq<Seq<char>> {
    Seq::new(locations.len(), |i: int| locations[i].parse_name@)
}

/// Takes one form of what a drop offers.
pub fn resolve_offer(structured: Option<Vec<Location>>, text: Option<String>) -> (payload: Option<
    DropPayload,
>)
    ensures
        payload == preferred(structured, text),
{
    match structured {
        Some(files) => Some(DropPayload::StructuredList(files)),
        None => match text {
            Some(t) => Some(DropPayload::TextUriList(t)),
            None => None,
        },
    }
}

impl DropPayload {
    /// What the payload holds. A list of files is handed on as it is; a text
    /// is decoded into its entries.
    pub fn open(self) -> (content: DropContent)
        ensures
            match self {
                DropPayload::StructuredList(files) => content == DropContent::Locations(files),
                DropPayload::TextUriList(text) => content matches DropContent::Lines(lines)
                    && lines.deep_view() == decoded(text@),
            },
    {
        match self {
            DropPayload::StructuredList(files) => DropContent::Locations(files),
            DropPayload::TextUriList(text) => DropContent::Lines(decode(text.as_str())),
        }
    }
}

/// What is left of the entries of a drop once each was parsed as a URI, or
/// once a local file was made of each: those for which that worked, in their
/// order. An entry for which it failed is left out.
pub fn keep_present<T>(parsed: Vec<Option<T>>) -> (kept: Vec<T>)
    ensures
        kept@ == present(parsed@),
{
    let mut kept: Vec<T> = Vec::new();
    let ghost all = parsed@;
    assert(all.take(0) =~= Seq::<Option<T>>::empty());
    for item in it: parsed
        invariant
            it.seq() == all,
            kept@ == present(all.take(it.index() as int)),
    {
        proof {
            let next = all.take(it.index() + 1);
            assert(next.drop_last() =~= all.take(it.index() as int));
            assert(next.last() == item);
        }
        match item {
            Some(value) => {
                kept.push(value);
            },
            None => {},
        }
    }
    assert(all.take(all.len() as int) =~= all);
    kept
}

/// Decides what happens with a drop of `locations`.
///
/// A drop is accepted if it holds at least one file and rejected if it holds
/// none. Of an accepted drop the name of every file is printed, the files
/// are entered into the collection if the run keeps what it is given, and
/// the run ends if it is to end after one transfer. A rejected drop does
/// none of this.
pub fn plan_drop(locations: &Vec<Location>, config: &Config) -> (plan: DropPlan)
    ensures
        plan.accepted == (locations@.len() > 0),
        plan.announce.deep_view() == names_of(locations@),
        plan.retain == (plan.accepted && config.keep),
        plan.exit == (plan.accepted && config.and_exit),
{
    let accepted = locations.len() > 0;
    let mut announce: Vec<String> = Vec::new();
    let mut i: usize = 0;
    while i < locations.len()
        invariant
            0 <= i <= locations.len(),
            announce.deep_view() == names_of(locations@).take(i as int),
        decreases locations.len() - i,
    {
        let name = locations[i].parse_name.clone();
        let ghost before = announce.deep_view();
        announce.push(name);
        assert(announce.deep_view() =~= before.push(name@));
        assert(names_of(locations@).take(i + 1) =~= names_of(locations@).take(i as int).push(
            locations@[i as int].parse_name@,
        ));
        i += 1;
    }
    assert(names_of(locations@).take(locations.len() as int) =~= names_of(locations@));
    DropPlan {
        accepted,
        announce,
        retain: accepted && config.keep,
        exit: accepted && config.and_exit,
    }
}

/// Enters the files of a drop into the collection, where the plan says so.
///
/// `materialized` holds, for each file of the drop in order, the entry that
/// was made of it, or `None` where no local file could be made. Where the
/// drop is retained, each entry that is there is added once, at the end and
/// in order; else the collection stays as it is.
pub fn retain_dropped(
    model: &mut FileModel,
    plan: &DropPlan,
    materialized: Vec<Option<FileObject>>,
) -> (event: Option<ItemsChanged>)
    ensures
        plan.retain ==> final(model)@ == old(model)@ + views_of(present(materialized@)),
        !plan.retain ==> final(model)@ == old(model)@,
        event is Some <==> plan.retain,
        event matches Some(change) ==> change == (ItemsChanged {
            position: old(model)@.len() as usize,
            added: present(materialized@).len() as usize,
        }),
{
    if plan.retain {
        let entries = keep_present(materialized);
        Some(model.extend(entries))
    } else {
        None
    }
}

/// A drop of text is accepted exactly if at least one of its entries parsed
/// as a URI: `present` leaves something of `items` exactly if one of them is
/// there. One good entry beside any number of bad ones is enough, and bad
/// ones alone are not.
pub proof fn law_accept_some_parsed<T>(items: Seq<Option<T>>)
    ensures
        present(items).len() <= items.len(),
        present(items).len() > 0 <==> exists|i: int| 0 <= i < items.len() && items[i] is Some,
    decreases items.len(),
{
    if items.len() > 0 {
        let front = items.drop_last();
        law_accept_some_parsed(front);
        if present(items).len() > 0 {
            if items.last() is Some {
                assert(items[items.len() - 1] is Some);
            } else {
                let i = choose|i: int| 0 <= i < front.len() && front[i] is Some;
                assert(items[i] is Some);
            }
        }
        if exists|i: int| 0 <= i < items.len() && items[i] is Some {
            let i = choose|i: int| 0 <= i < items.len() && items[i] is Some;
            if i < items.len() - 1 {
                assert(front[i] is Some);
            }
        }
    }
}

} // verus!
