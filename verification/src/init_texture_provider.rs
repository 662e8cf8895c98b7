//! The initialization-time texture provider: maps texture source paths to
//! atlas indices, idempotently. Requesting the same path twice returns the
//! same index and does not grow the list.

use vstd::prelude::*;

verus! {

/// A deduplicating list of texture source paths; the position of a path is
/// its atlas index.
pub struct InitTextureProvider {
    texture_names: Vec<String>,
}

impl InitTextureProvider {
    /// The registered paths, in insertion order.
    pub closed spec fn spec_names(self) -> Seq<Seq<char>> {
        self.texture_names@.map_values(|s: String| s@)
    }

    /// An empty provider.
    pub fn new() -> (r: InitTextureProvider)
        ensures
            r.spec_names() == Seq::<Seq<char>>::empty(),
    {
        let r = InitTextureProvider { texture_names: Vec::new() };
        proof {
            assert(r.spec_names() =~= Seq::<Seq<char>>::empty());
        }
        r
    }

    /// Number of distinct registered paths.
    pub fn count(&self) -> (r: usize)
        ensures
            r == self.spec_names().len(),
    {
        self.texture_names.len()
    }

    /// The path registered at an index.
    pub fn name_at(&self, i: usize) -> (r: &str)
        requires
            i < self.spec_names().len(),
        ensures
            r@ == self.spec_names()[i as int],
    {
        self.texture_names[i].as_str()
    }

    /// The atlas index of a texture path: the index it already has if the
    /// path was requested before, else the next free index, under which the
    /// path is then registered.
    pub fn texture(&mut self, texture_path: &str) -> (r: u32)
        requires
            old(self).spec_names().len() < u32::MAX,
        ensures
            r < final(self).spec_names().len(),
            final(self).spec_names()[r as int] == texture_path@,
            forall|j: int| 0 <= j < r ==> final(self).spec_names()[j] != texture_path@,
            (exists|j: int|
                0 <= j < old(self).spec_names().len() && old(self).spec_names()[j]
                    == texture_path@) ==> *final(self) == *old(self),
            !(exists|j: int|
                0 <= j < old(self).spec_names().len() && old(self).spec_names()[j]
                    == texture_path@) ==> final(self).spec_names() == old(self).spec_names().push(
                texture_path@,
            ) && r == old(self).spec_names().len(),
    {
        let owned = texture_path.to_owned();
        let mut i: usize = 0;
        while i < self.texture_names.len()
            invariant
                *self == *old(self),
                owned@ == texture_path@,
                i <= self.texture_names@.len(),
                self.texture_names@.len() < u32::MAX,
                forall|j: int| 0 <= j < i ==> self.spec_names()[j] != texture_path@,
            decreases self.texture_names@.len() - i,
        {
            if self.texture_names[i] == owned {
                proof {
                    assert(self.spec_names()[i as int] == self.texture_names@[i as int]@);
                    assert(exists|j: int|
                        0 <= j < old(self).spec_names().len() && old(self).spec_names()[j]
                            == texture_path@);
                }
                return i as u32;
            }
            i = i + 1;
        }
        let index = self.texture_names.len() as u32;
        self.texture_names.push(owned);
        proof {
            assert(self.spec_names() =~= old(self).spec_names().push(texture_path@));
        }
        index
    }
}

} // verus!
