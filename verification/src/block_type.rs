//! A block-type descriptor: an immutable named entry of the block registry.

use vstd::prelude::*;

verus! {

/// An immutable block-type descriptor, identified by its name.
pub struct BlockType {
    name: String,
}

impl BlockType {
    /// The block type's name.
    pub closed spec fn spec_name(self) -> Seq<char> {
        self.name@
    }

    pub fn new(name: &str) -> (r: BlockType)
        ensures
            r.spec_name() == name@,
    {
        BlockType { name: name.to_owned() }
    }

    pub fn name(&self) -> (r: &str)
        ensures
            r@ == self.spec_name(),
    {
        self.name.as_str()
    }

    /// Whether this block type's name is `other`.
    pub fn name_equals(&self, other: &str) -> (r: bool)
        ensures
            r == (self.spec_name() == other@),
    {
        self.name == other.to_owned()
    }
}

} // verus!
