//! Handle allocation in the GUI's texture table.
//!
//! Every render pass registers its freshly drawn surface with the GUI's
//! texture table and is answered with a handle. The table hands out the
//! value of a counter that only ever grows, so a new registration never
//! returns a handle that any earlier one returned: the displayed image can
//! be swapped without ever confusing old and new.
//!
//! The table here keys plain values; the GUI layer resolves a handle to the
//! backing surface itself.

use vstd::prelude::*;

verus! {

/// The GUI's texture table, as the `imgui` crate defines it: a map from
/// handle to texture beside a counter for the next handle.
#[verifier::external_type_specification]
#[verifier::external_body]
#[verifier::reject_recursive_types(T)]
pub struct ExTextures<T>(imgui::Textures<T>);

/// What a table holds: each issued handle still present, with its entry.
pub uninterp spec fn table_map(t: imgui::Textures<u64>) -> Map<int, u64>;

/// The table's counter: the handle the next registration will return.
pub uninterp spec fn table_next(t: imgui::Textures<u64>) -> int;

/// Relies on imgui::Textures::new: the table starts empty, with its counter
/// at zero.
#[verifier::external_body]
fn textures_new() -> (t: imgui::Textures<u64>)
    ensures
        table_map(t).dom() == Set::<int>::empty(),
        table_next(t) == 0,
{
    imgui::Textures::new()
}

/// Relies on imgui::Textures::insert: the entry is stored under the
/// counter's value, that value comes back as the handle, and the counter
/// moves up by one. The counter's step would overflow at the machine limit,
/// so the call demands room for it.
#[verifier::external_body]
fn textures_insert(t: &mut imgui::Textures<u64>, entry: u64) -> (h: usize)
    requires
        table_next(*old(t)) < usize::MAX as int,
    ensures
        h as int == table_next(*old(t)),
        table_next(*final(t)) == table_next(*old(t)) + 1,
        table_map(*final(t)) == table_map(*old(t)).insert(h as int, entry),
{
    t.insert(entry).id()
}

/// The texture table with the one fact registration rests on: every handle
/// it ever issued lies below its counter.
pub struct TextureTable {
    /// The GUI crate's own table.
    inner: imgui::Textures<u64>,
    /// How many handles were issued; mirrors the table's counter.
    issued: usize,
}

impl TextureTable {
    /// The counter is mirrored exactly and every present handle lies below
    /// it. Handles are issued in counter order, so everything the table ever
    /// returned lies below the counter too.
    pub closed spec fn wf(self) -> bool {
        &&& table_next(self.inner) == self.issued as int
        &&& forall|h: int| table_map(self.inner).dom().contains(h) ==> 0 <= h < self.issued as int
    }

    /// The handles whose entries the table still holds.
    pub closed spec fn handles(self) -> Set<int> {
        table_map(self.inner).dom()
    }

    /// How many handles the table has issued since it was created.
    pub closed spec fn issued_count(self) -> int {
        self.issued as int
    }

    /// An empty table: nothing registered, no handle issued yet.
    pub fn new() -> (t: TextureTable)
        ensures
            t.wf(),
            t.issued_count() == 0,
            t.handles() == Set::<int>::empty(),
    {
        let inner = textures_new();
        TextureTable { inner, issued: 0 }
    }

    /// Registers one freshly drawn texture and returns its handle. The
    /// handle is the number of registrations before this one, so it differs
    /// from every handle this table returned earlier — in particular it is
    /// not among those still present. The entry is stored under it.
    pub fn register(&mut self, entry: u64) -> (h: usize)
        requires
            old(self).wf(),
            old(self).issued_count() < usize::MAX as int,
        ensures
            final(self).wf(),
            h as int == old(self).issued_count(),
            !old(self).handles().contains(h as int),
            final(self).handles() == old(self).handles().insert(h as int),
            final(self).issued_count() == old(self).issued_count() + 1,
    {
        let h: usize = textures_insert(&mut self.inner, entry);
        self.issued = self.issued + 1;
        proof {
            assert(self.handles() =~= old(self).handles().insert(h as int));
        }
        h
    }
}

} // verus!
