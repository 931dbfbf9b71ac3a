//! The engine's store of images, each under an identifier that is never
//! given out twice.

use vstd::prelude::*;
use crate::resources::{Image, ImageId, ImageTeardown};

verus! {

/// An image in the store with its identifier.
pub struct Entry {
    pub id: ImageId,
    pub image: Image,
}

/// The images that the engine holds.
pub struct Images {
    pub next: u64,
    pub entries: Vec<Entry>,
}

/// Whether an image is stored under the identifier.
pub open spec fn holds(entries: Seq<Entry>, id: ImageId) -> bool {
    exists|i: int| 0 <= i < entries.len() && (#[trigger] entries[i]).id == id
}

/// What is left to destroy of each image, in the order of the store.
pub open spec fn all_remains(entries: Seq<Entry>) -> Seq<ImageTeardown> {
    Seq::new(entries.len(), |i: int| entries[i].image.remains())
}

impl Images {
    /// Every identifier in the store was given out, and none stands for
    /// two images.
    pub open spec fn wf(&self) -> bool {
        &&& forall|i: int| 0 <= i < self.entries@.len() ==> (#[trigger] self.entries@[i]).id.0
            < self.next
        &&& forall|i: int, j: int|
            0 <= i < j < self.entries@.len() ==> (#[trigger] self.entries@[i]).id != (
            #[trigger] self.entries@[j]).id
    }

    /// The position of the image with the identifier.
    pub open spec fn at(&self, id: ImageId, i: int) -> bool {
        0 <= i < self.entries@.len() && self.entries@[i].id == id
    }

    /// A store without images.
    pub fn new() -> (res: Self)
        ensures
            res.wf(),
            res.next == 0,
            res.entries@.len() == 0,
    {
        Images { next: 0, entries: Vec::new() }
    }

    /// Number of images in the store.
    pub fn len(&self) -> (res: usize)
        ensures
            res == self.entries@.len(),
    {
        self.entries.len()
    }

    /// Whether the store can give out another identifier.
    pub fn has_room(&self) -> (res: bool)
        ensures
            res == (self.next < u64::MAX),
    {
        self.next < u64::MAX
    }

    /// Stores an image under a new identifier, which it returns.
    pub fn insert(&mut self, image: Image) -> (res: ImageId)
        requires
            old(self).wf(),
            old(self).next < u64::MAX,
        ensures
            final(self).wf(),
            res == ImageId(old(self).next),
            !holds(old(self).entries@, res),
            final(self).next == old(self).next + 1,
            final(self).entries@ == old(self).entries@.push(Entry { id: res, image }),
    {
        let id = ImageId(self.next);
        self.next = self.next + 1;
        self.entries.push(Entry { id, image });
        id
    }

    fn position(&self, id: ImageId) -> (res: Option<usize>)
        ensures
            res is Some <==> holds(self.entries@, id),
            res is Some ==> self.at(id, res->0 as int),
    {
        let mut i: usize = 0;
        while i < self.entries.len()
            invariant
                i <= self.entries.len(),
                forall|j: int| 0 <= j < i ==> (#[trigger] self.entries@[j]).id != id,
            decreases self.entries.len() - i,
        {
            if self.entries[i].id == id {
                return Some(i);
            }
            i += 1;
        }
        None
    }

    /// The image under the identifier, if there is one.
    pub fn get(&self, id: ImageId) -> (res: Option<&Image>)
        ensures
            res is Some <==> holds(self.entries@, id),
            res is Some ==> exists|i: int| self.at(id, i) && *res->0 == self.entries@[i].image,
    {
        match self.position(id) {
            Some(i) => Some(&self.entries[i].image),
            None => None,
        }
    }

    /// Takes the image under the identifier out of the store and returns
    /// its view for the device to destroy. Where no image is stored under
    /// the identifier nothing changes and nothing is returned.
    pub fn destroy_view(&mut self, id: ImageId) -> (res: Option<u64>)
        requires
            old(self).wf(),
        ensures
            final(self).wf(),
            final(self).next == old(self).next,
            !holds(final(self).entries@, id),
            !holds(old(self).entries@, id) ==> res is None && final(self).entries@ == old(self).entries@,
            holds(old(self).entries@, id) ==> exists|i: int|
                old(self).at(id, i) && res == old(self).entries@[i].image.view.value && final(self).entries@ == old(self).entries@.remove(i),
    {
        match self.position(id) {
            Some(i) => {
                let mut entry = self.entries.remove(i);
                proof {
                    let before = old(self).entries@;
                    assert(old(self).at(id, i as int));
                    assert forall|k: int| 0 <= k < self.entries@.len() implies (
                    #[trigger] self.entries@[k]).id != id by {
                        if k < i {
                            assert(self.entries@[k] == before[k]);
                        } else {
                            assert(self.entries@[k] == before[k + 1]);
                        }
                    }
                    assert forall|a: int, b: int| 0 <= a < b < self.entries@.len() implies (
                    #[trigger] self.entries@[a]).id != (#[trigger] self.entries@[b]).id by {
                        let a0 = if a < i {
                            a
                        } else {
                            a + 1
                        };
                        let b0 = if b < i {
                            b
                        } else {
                            b + 1
                        };
                        assert(self.entries@[a] == before[a0]);
                        assert(self.entries@[b] == before[b0]);
                    }
                    assert forall|k: int| 0 <= k < self.entries@.len() implies (
                    #[trigger] self.entries@[k]).id.0 < self.next by {
                        let k0 = if k < i {
                            k
                        } else {
                            k + 1
                        };
                        assert(self.entries@[k] == before[k0]);
                    }
                }
                entry.image.view.take()
            },
            None => None,
        }
    }

    /// Takes every image out of the store and returns what the device has
    /// to destroy of each, in the order of the store.
    pub fn destroy_all(&mut self) -> (res: Vec<ImageTeardown>)
        requires
            old(self).wf(),
        ensures
            final(self).wf(),
            final(self).next == old(self).next,
            final(self).entries@.len() == 0,
            res@ == all_remains(old(self).entries@),
    {
        let mut entries: Vec<Entry> = Vec::new();
        core::mem::swap(&mut self.entries, &mut entries);
        let ghost all = entries@;
        let mut out: Vec<ImageTeardown> = Vec::new();
        let mut i: usize = 0;
        while i < entries.len()
            invariant
                i <= entries.len(),
                entries@ == all,
                out@.len() == i,
                forall|j: int| 0 <= j < i ==> out@[j] == all[j].image.remains(),
            decreases entries.len() - i,
        {
            out.push(entries[i].image.remaining());
            i += 1;
        }
        proof {
            assert(out@ =~= all_remains(all));
        }
        out
    }
}

} // verus!
