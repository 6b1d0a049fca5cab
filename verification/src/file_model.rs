//! The collection behind the visible list: file entries in the order in which
//! they were added. Entries are added at the end and never taken out.

use crate::config::Config;
use crate::file_object::{
    settle, Delivery, FileInfo, FileObject, FileObjectView, ThumbnailResult,
};
use vstd::prelude::*;

verus! {

/// The entries of the list, in display order.
#[derive(Debug)]
pub struct FileModel {
    items: Vec<FileObject>,
}

/// What a change of the collection tells those who watch it: `added`
/// entries now stand from `position` on.
#[derive(Clone, Copy, Debug, PartialEq, Eq, Structural)]
pub struct ItemsChanged {
    pub position: usize,
    pub added: usize,
}

/// The entries that are made of `infos` under `config`, in the same order.
pub open spec fn built_all(infos: Seq<FileInfo>, config: Config) -> Seq<FileObjectView> {
    Seq::new(infos.len(), |i: int| FileObject::built(infos[i], config))
}

/// The views of `objects`, in the same order.
pub open spec fn views_of(objects: Seq<FileObject>) -> Seq<FileObjectView> {
    Seq::new(objects.len(), |i: int| objects[i]@)
}

/// The URIs of `entries`, in the same order.
pub open spec fn uris_of(entries: Seq<FileObjectView>) -> Seq<Seq<char>> {
    Seq::new(entries.len(), |i: int| entries[i].uri)
}

impl View for FileModel {
    type V = Seq<FileObjectView>;

    closed spec fn view(&self) -> Seq<FileObjectView> {
        views_of(self.items@)
    }
}

impl FileModel {
    /// A collection without entries.
    pub fn new() -> (model: FileModel)
        ensures
            model@ == Seq::<FileObjectView>::empty(),
    {
        let model = FileModel { items: Vec::new() };
        assert(model@ =~= Seq::<FileObjectView>::empty());
        model
    }

    /// The number of entries.
    pub fn len(&self) -> (n: usize)
        ensures
            n == self@.len(),
    {
        self.items.len()
    }

    /// Whether there is no entry.
    pub fn is_empty(&self) -> (empty: bool)
        ensures
            empty == (self@.len() == 0),
    {
        self.items.len() == 0
    }

    /// The entry at `index`, if there is one.
    pub fn get(&self, index: usize) -> (entry: Option<&FileObject>)
        ensures
            entry is Some <==> index < self@.len(),
            entry matches Some(object) ==> object@ == self@[index as int],
    {
        if index < self.items.len() {
            Some(&self.items[index])
        } else {
            None
        }
    }

    /// Adds `object` at the end. The entries before it stay as they are.
    pub fn append(&mut self, object: FileObject) -> (event: ItemsChanged)
        ensures
            final(self)@ == old(self)@.push(object@),
            event == (ItemsChanged { position: old(self)@.len() as usize, added: 1 }),
    {
        let position = self.items.len();
        self.items.push(object);
        assert(self@ =~= old(self)@.push(object@));
        ItemsChanged { position, added: 1 }
    }

    /// Adds `objects` at the end, in their order. The entries before them
    /// stay as they are.
    pub fn extend(&mut self, objects: Vec<FileObject>) -> (event: ItemsChanged)
        ensures
            final(self)@ == old(self)@ + views_of(objects@),
            event == (ItemsChanged {
                position: old(self)@.len() as usize,
                added: objects@.len() as usize,
            }),
    {
        let position = self.items.len();
        let added = objects.len();
        let ghost fresh = views_of(objects@);
        let mut objects = objects;
        self.items.append(&mut objects);
        assert(self@ =~= old(self)@ + fresh);
        ItemsChanged { position, added }
    }

    /// The URIs of the entries, in display order.
    pub fn uris(&self) -> (uris: Vec<String>)
        ensures
            uris.deep_view() == uris_of(self@),
    {
        let mut uris: Vec<String> = Vec::new();
        let mut i: usize = 0;
        while i < self.items.len()
            invariant
                0 <= i <= self.items.len(),
                uris.deep_view() == uris_of(self@).take(i as int),
            decreases self.items.len() - i,
        {
            let uri = self.items[i].uri().clone();
            let ghost before = uris.deep_view();
            uris.push(uri);
            assert(uris.deep_view() =~= before.push(uri@));
            assert(uris_of(self@).take(i + 1) =~= uris_of(self@).take(i as int).push(
                self@[i as int].uri,
            ));
            i += 1;
        }
        assert(uris_of(self@).take(self.items.len() as int) =~= uris_of(self@));
        uris
    }

    /// Hands the result of a loader to the entry at `index`. A pending
    /// thumbnail there takes it. Where the thumbnail is settled already, or
    /// no entry stands at `index`, the result is discarded and nothing changes.
    pub fn deliver_thumbnail(&mut self, index: usize, result: ThumbnailResult) -> (delivery:
        Delivery)
        ensures
            final(self)@.len() == old(self)@.len(),
            index >= old(self)@.len() ==> final(self)@ == old(self)@ && delivery
                == Delivery::Discarded,
            index < old(self)@.len() ==> final(self)@ == old(self)@.update(
                index as int,
                FileObjectView {
                    thumbnail: settle(old(self)@[index as int].thumbnail, result),
                    ..old(self)@[index as int]
                },
            ) && delivery == if old(self)@[index as int].thumbnail is Pending {
                Delivery::Applied
            } else {
                Delivery::Discarded
            },
    {
        if index < self.items.len() {
            let delivery = self.items[index].resolve_thumbnail(result);
            assert(self@ =~= old(self)@.update(
                index as int,
                FileObjectView {
                    thumbnail: settle(old(self)@[index as int].thumbnail, result),
                    ..old(self)@[index as int]
                },
            ));
            delivery
        } else {
            Delivery::Discarded
        }
    }
}

/// The collection that a run starts with: one entry for each file it was
/// given, in the order given.
pub fn generate_file_model(infos: Vec<FileInfo>, config: &Config) -> (model: FileModel)
    ensures
        model@ == built_all(infos@, *config),
{
    let mut model = FileModel::new();
    let ghost all = infos@;
    for info in it: infos
        invariant
            it.seq() == all,
            model@ == built_all(all, *config).take(it.index() as int),
    {
        model.append(FileObject::new(info, config));
        assert(model@ =~= built_all(all, *config).take(it.index() + 1));
    }
    assert(built_all(all, *config).take(all.len() as int) =~= built_all(all, *config));
    model
}

} // verus!
