//! The tables that the key-value backend knows, each with the column whose
//! value goes into its keys.

use vstd::prelude::*;
use crate::error::{Error, ErrorKind, Result};
use crate::info::{IndexInfo, TableInfo};
use crate::strings::{eq_str, owned};

verus! {

/// A registered table and its index column.
#[derive(Debug)]
pub struct FcssTableInfo {
    pub name: String,
    pub index: String,
}

/// The key column of a table: the one column of the first index that has
/// exactly one.
pub open spec fn single_key_column(indexes: Seq<IndexInfo>) -> Option<Seq<char>>
    decreases indexes.len(),
{
    if indexes.len() == 0 {
        None
    } else if indexes[0].keys@.len() == 1 {
        Some(indexes[0].keys@[0].column_name@)
    } else {
        single_key_column(indexes.drop_first())
    }
}

/// The index column registered for `name`: that of its first entry.
pub open spec fn registered_index(tables: Seq<FcssTableInfo>, name: Seq<char>) -> Option<Seq<char>>
    decreases tables.len(),
{
    if tables.len() == 0 {
        None
    } else if tables[0].name@ == name {
        Some(tables[0].index@)
    } else {
        registered_index(tables.drop_first(), name)
    }
}

/// Tables registered so far, in order of registration. Entries are never
/// removed or changed.
#[derive(Debug)]
pub struct TableRegistry {
    tables: Vec<FcssTableInfo>,
}

impl TableRegistry {
    /// The registered entries.
    pub closed spec fn entries(&self) -> Seq<FcssTableInfo> {
        self.tables@
    }

    /// The index column of table `name`, if it is registered.
    pub open spec fn index_of(&self, name: Seq<char>) -> Option<Seq<char>> {
        registered_index(self.entries(), name)
    }

    /// A registry without tables.
    pub fn new() -> (r: TableRegistry)
        ensures
            r.entries().len() == 0,
    {
        TableRegistry { tables: Vec::new() }
    }

    /// Appends the entry of a table.
    pub fn register(&mut self, name: String, index: String)
        ensures
            final(self).entries().len() == old(self).entries().len() + 1,
            final(self).entries().drop_last() == old(self).entries(),
            final(self).entries().last().name@ == name@,
            final(self).entries().last().index@ == index@,
    {
        self.tables.push(FcssTableInfo { name, index });
        assert(self.tables@.drop_last() =~= old(self).tables@);
    }

    /// Registers a table with the key column its metadata declares; a table
    /// without an index of exactly one column is an Argument error and is not
    /// registered.
    pub fn init_table(&mut self, info: &TableInfo) -> (r: Result<()>)
        ensures
            r is Ok <==> single_key_column(info.indexes@) is Some,
            r is Ok ==> final(self).entries().len() == old(self).entries().len() + 1
            && final(self).entries().drop_last() == old(self).entries()
            && final(self).entries().last().name@ == info.name@
            && final(self).entries().last().index@ == single_key_column(info.indexes@)->0,
            r is Err ==> final(self).entries() == old(self).entries()
                && r->Err_0.kind() == ErrorKind::Argument,
    {
        match index_column_of(info) {
            Some(index) => {
                self.tables.push(FcssTableInfo { name: info.name.clone(), index });
                assert(self.tables@.drop_last() =~= old(self).tables@);
                Ok(())
            },
            None => Err(Error::Argument(owned("the table needs an index of a single column"))),
        }
    }

    /// The index column of `table_name`; a table that was never registered
    /// is a Database error.
    pub fn get_index_col(&self, table_name: &str) -> (r: Result<String>)
        ensures
            r is Ok <==> self.index_of(table_name@) is Some,
            r is Ok ==> r->Ok_0@ == self.index_of(table_name@)->0,
            r is Err ==> r->Err_0.kind() == ErrorKind::Database,
    {
        let mut i: usize = 0;
        assert(self.tables@.subrange(0, self.tables@.len() as int) =~= self.tables@);
        while i < self.tables.len()
            invariant
                i <= self.tables@.len(),
                registered_index(self.tables@, table_name@)
                    == registered_index(self.tables@.subrange(i as int, self.tables@.len() as int), table_name@),
            decreases self.tables@.len() - i,
        {
            let ghost rest = self.tables@.subrange(i as int, self.tables@.len() as int);
            assert(rest.drop_first() =~= self.tables@.subrange(i + 1, self.tables@.len() as int));
            if eq_str(self.tables[i].name.as_str(), table_name) {
                return Ok(self.tables[i].index.clone());
            }
            i = i + 1;
        }
        Err(Error::Database(owned("the table has no registered index column")))
    }
}

/// The key column of a table: the column of the first index with exactly one
/// key column.
pub fn index_column_of(info: &TableInfo) -> (r: Option<String>)
    ensures
        r is Some <==> single_key_column(info.indexes@) is Some,
        r is Some ==> r->0@ == single_key_column(info.indexes@)->0,
{
    let mut i: usize = 0;
    assert(info.indexes@.subrange(0, info.indexes@.len() as int) =~= info.indexes@);
    while i < info.indexes.len()
        invariant
            i <= info.indexes@.len(),
            single_key_column(info.indexes@)
                == single_key_column(info.indexes@.subrange(i as int, info.indexes@.len() as int)),
        decreases info.indexes@.len() - i,
    {
        let ghost rest = info.indexes@.subrange(i as int, info.indexes@.len() as int);
        assert(rest.drop_first() =~= info.indexes@.subrange(i + 1, info.indexes@.len() as int));
        if info.indexes[i].keys.len() == 1 {
            return Some(info.indexes[i].keys[0].column_name.clone());
        }
        i = i + 1;
    }
    None
}

} // verus!
