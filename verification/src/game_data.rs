//! The block registry: maps block-type names to dense numeric ids. Names
//! are unique keys; id 0 is reserved for the "air" sentinel.

use vstd::prelude::*;
use crate::block_type::BlockType;

verus! {

/// Error returned when a name is looked up that no block type carries.
#[derive(Clone, Copy, Debug, PartialEq, Eq, Structural)]
pub struct UnknownBlockName;

/// The registry of block types, id `i` naming the type at position `i`.
pub struct GameData {
    block_types: Vec<BlockType>,
}

impl GameData {
    /// Number of registered block types.
    pub closed spec fn spec_type_count(self) -> int {
        self.block_types@.len() as int
    }

    /// The name of the block type with id `i`.
    pub closed spec fn spec_name_at(self, i: int) -> Seq<char> {
        self.block_types@[i].spec_name()
    }

    /// Ids fit in a u16, names are unique keys, and id 0 is "air".
    pub open spec fn wf(self) -> bool {
        &&& 1 <= self.spec_type_count() <= 0x10000
        &&& self.spec_name_at(0) == "air"@
        &&& forall|i: int, j: int|
            0 <= i < self.spec_type_count() && 0 <= j < self.spec_type_count() && i != j
                ==> self.spec_name_at(i) != self.spec_name_at(j)
    }

    /// Build the registry from the ordered block-type list. The first type
    /// must be "air" and names must be unique; handing in anything else is a
    /// contract violation.
    pub fn new(block_types: Vec<BlockType>) -> (r: GameData)
        requires
            1 <= block_types@.len() <= 0x10000,
            block_types@[0].spec_name() == "air"@,
            forall|i: int, j: int|
                0 <= i < block_types@.len() && 0 <= j < block_types@.len() && i != j
                    ==> block_types@[i].spec_name() != block_types@[j].spec_name(),
        ensures
            r.wf(),
            r.spec_type_count() == block_types@.len(),
            forall|i: int|
                0 <= i < block_types@.len() ==> r.spec_name_at(i) == block_types@[i].spec_name(),
    {
        GameData { block_types }
    }

    /// The id registered for a name: `Ok` with the unique id whose type
    /// carries the name, `Err` exactly when no block type carries it.
    pub fn block_id(&self, name: &str) -> (r: Result<u16, UnknownBlockName>)
        requires
            self.wf(),
        ensures
            match r {
                Ok(id) => id < self.spec_type_count() && self.spec_name_at(id as int) == name@,
                Err(_) => forall|i: int|
                    0 <= i < self.spec_type_count() ==> self.spec_name_at(i) != name@,
            },
    {
        let mut i: usize = 0;
        while i < self.block_types.len()
            invariant
                self.wf(),
                i <= self.block_types@.len(),
                self.block_types@.len() <= 0x10000,
                forall|j: int| 0 <= j < i ==> self.spec_name_at(j) != name@,
            decreases self.block_types@.len() - i,
        {
            if self.block_types[i].name_equals(name) {
                return Ok(i as u16);
            }
            i = i + 1;
        }
        Err(UnknownBlockName)
    }
}

} // verus!
