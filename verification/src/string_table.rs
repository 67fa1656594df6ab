//! References into a shared table of values (in a netlist: its string list).

use core::marker::PhantomData;
use vstd::prelude::*;

verus! {

/// A reference to one entry of a table of `T`s: the position of that entry.
///
/// Every item of a netlist names its sites, BELs, wires and so on by such a
/// reference into the netlist's string list, so that a name is stored once and
/// items compare names by index.
pub struct VecIndexReference<T> {
    pub index: usize,
    pub marker: PhantomData<T>,
}

impl<T> VecIndexReference<T> {
    /// A reference to entry `new_index` of a table.
    pub fn new(new_index: usize) -> (r: Self)
        ensures
            r.index == new_index,
    {
        VecIndexReference { index: new_index, marker: PhantomData }
    }

    /// Whether this reference points inside `table`.
    pub open spec fn refers_into(self, table: Seq<T>) -> bool {
        self.index < table.len()
    }

    /// The entry of `table` that this reference points at.
    pub open spec fn value_in(self, table: Seq<T>) -> T {
        table[self.index as int]
    }

    /// `table` with the entry that this reference points at replaced by `value`.
    pub open spec fn written(self, table: Seq<T>, value: T) -> Seq<T> {
        table.update(self.index as int, value)
    }

    /// The entry of `table` that this reference points at.
    pub fn read_value<'a>(&self, table: &'a Vec<T>) -> (value: &'a T)
        requires
            self.refers_into(table@),
        ensures
            *value == self.value_in(table@),
    {
        &table[self.index]
    }

    /// Replaces the entry of `table` that this reference points at by `value`,
    /// and hands back the entry that was there.
    pub fn write_value(&self, table: &mut Vec<T>, value: T) -> (previous: T)
        requires
            self.refers_into(old(table)@),
        ensures
            final(table)@ == self.written(old(table)@, value),
            previous == self.value_in(old(table)@),
    {
        let mut slot = value;
        table.set_and_swap(self.index, &mut slot);
        slot
    }
}

/// A read through a reference gives back what the last write through a
/// reference to the same entry wrote.
pub proof fn lemma_read_after_write<T>(
    writer: VecIndexReference<T>,
    reader: VecIndexReference<T>,
    table: Seq<T>,
    value: T,
)
    requires
        writer.refers_into(table),
        reader.index == writer.index,
    ensures
        reader.refers_into(writer.written(table, value)),
        reader.value_in(writer.written(table, value)) == value,
{
}

/// A write through a reference leaves every other entry as it was: a reference
/// to another entry reads the same value before and after.
pub proof fn lemma_write_leaves_others<T>(
    writer: VecIndexReference<T>,
    reader: VecIndexReference<T>,
    table: Seq<T>,
    value: T,
)
    requires
        writer.refers_into(table),
        reader.refers_into(table),
        reader.index != writer.index,
    ensures
        reader.value_in(writer.written(table, value)) == reader.value_in(table),
{
}

/// A write keeps the length of the table, so every reference that pointed
/// inside it still does.
pub proof fn lemma_write_keeps_references<T>(
    writer: VecIndexReference<T>,
    other: VecIndexReference<T>,
    table: Seq<T>,
    value: T,
)
    requires
        writer.refers_into(table),
    ensures
        writer.written(table, value).len() == table.len(),
        other.refers_into(table) <==> other.refers_into(writer.written(table, value)),
{
}

/// Writing back the value that a write handed back undoes that write.
pub proof fn lemma_write_back_restores<T>(
    writer: VecIndexReference<T>,
    table: Seq<T>,
    value: T,
)
    requires
        writer.refers_into(table),
    ensures
        writer.written(writer.written(table, value), writer.value_in(table)) == table,
{
    assert(writer.written(writer.written(table, value), writer.value_in(table)) =~= table);
}

} // verus!
