//! Schemas: which columns of a table are collected, and how they are encoded.

use crate::decoder::LogDecoder;
use crate::errors::Datatype;
use std::collections::HashMap;
use vstd::prelude::*;

verus! {

broadcast use vstd::std_specs::hash::group_hash_axioms;

/// How a column of byte strings leaves the accumulator.
#[derive(Clone, Copy, Debug, PartialEq, Eq, Structural)]
pub enum ColumnEncoding {
    /// Raw bytes.
    Binary,
    /// Text: `0x` and two hex digits per byte.
    Hex,
}

/// How a column of 256-bit integers leaves the accumulator.
#[derive(Clone, Copy, Debug, PartialEq, Eq, Structural)]
pub enum U256Type {
    /// 32 bytes, most significant first.
    Binary,
    /// Hexadecimal text.
    Hex,
    /// Decimal text.
    Decimal,
}

/// An active column of a table.
#[derive(Clone, Debug, PartialEq, Eq)]
pub struct Column {
    pub name: String,
    pub encoding: ColumnEncoding,
    pub u256_type: U256Type,
}

/// The schema of one data kind: its active columns, in order.
#[derive(Debug)]
pub struct Table {
    pub datatype: Datatype,
    pub columns: Vec<Column>,
    /// Decodes the arguments of one event from the logs of the table.
    pub log_decoder: Option<LogDecoder>,
}

impl Datatype {
    /// The position of the data kind in the list of all data kinds.
    pub open spec fn spec_index(&self) -> u64 {
        match self {
            Datatype::Blocks => 0,
            Datatype::CodeDiffs => 1,
            Datatype::Contracts => 2,
            Datatype::Erc20Metadata => 3,
            Datatype::Erc721Transfers => 4,
            Datatype::Logs => 5,
            Datatype::NativeTransfers => 6,
            Datatype::Traces => 7,
            Datatype::Transactions => 8,
        }
    }

    /// The position of the data kind in the list of all data kinds.
    #[verifier::when_used_as_spec(spec_index)]
    pub fn index(&self) -> (r: u64)
        ensures
            r == self.spec_index(),
    {
        match self {
            Datatype::Blocks => 0,
            Datatype::CodeDiffs => 1,
            Datatype::Contracts => 2,
            Datatype::Erc20Metadata => 3,
            Datatype::Erc721Transfers => 4,
            Datatype::Logs => 5,
            Datatype::NativeTransfers => 6,
            Datatype::Traces => 7,
            Datatype::Transactions => 8,
        }
    }
}

impl Table {
    /// The names of the active columns, in order.
    pub open spec fn names(&self) -> Seq<Seq<char>> {
        self.columns@.map_values(|column: Column| column.name@)
    }

    /// Whether no column is named twice.
    pub open spec fn wf(&self) -> bool {
        self.names().no_duplicates()
    }

    /// Whether the schema activates the column of that name.
    pub open spec fn spec_has_column(&self, name: &str) -> bool {
        self.names().contains(name@)
    }

    /// A schema without columns.
    pub fn new(datatype: Datatype) -> (r: Table)
        ensures
            r.datatype == datatype,
            r.columns@.len() == 0,
            r.log_decoder is None,
            r.wf(),
    {
        Table { datatype, columns: Vec::new(), log_decoder: None }
    }

    fn find(&self, name: &str) -> (r: Option<usize>)
        ensures
            match r {
                Some(i) => i < self.columns@.len() && self.names()[i as int] == name@ && forall|
                    k: int,
                | 0 <= k < i ==> self.names()[k] != name@,
                None => !self.spec_has_column(name),
            },
    {
        let wanted: String = name.to_owned();
        let mut i: usize = 0;
        while i < self.columns.len()
            invariant
                i <= self.columns@.len(),
                wanted@ == name@,
                forall|k: int| 0 <= k < i ==> self.names()[k] != name@,
            decreases self.columns@.len() - i,
        {
            if self.columns[i].name == wanted {
                return Some(i);
            }
            i = i + 1;
        }
        None
    }

    /// Whether the schema activates the column of that name.
    #[verifier::when_used_as_spec(spec_has_column)]
    pub fn has_column(&self, name: &str) -> (r: bool)
        ensures
            r == self.spec_has_column(name),
    {
        self.find(name).is_some()
    }

    /// Whether `at` is the place of the first column of that name.
    pub open spec fn first_named(&self, name: &str, at: int) -> bool {
        &&& 0 <= at < self.columns@.len()
        &&& self.columns@[at].name@ == name@
        &&& forall|k: int| 0 <= k < at ==> (#[trigger] self.columns@[k]).name@ != name@
    }

    /// The first column of that name, if the schema activates it.
    pub fn column(&self, name: &str) -> (r: Option<&Column>)
        ensures
            match r {
                Some(column) => exists|at: int|
                    self.first_named(name, at) && *column == self.columns@[at],
                None => !self.spec_has_column(name),
            },
            r is Some <==> self.spec_has_column(name),
    {
        match self.find(name) {
            Some(i) => {
                assert(self.first_named(name, i as int)) by {
                    assert forall|k: int| 0 <= k < i implies (#[trigger] self.columns@[k]).name@
                        != name@ by {
                        assert(self.names()[k] != name@);
                    }
                }
                Some(&self.columns[i])
            },
            None => None,
        }
    }

    /// Activates a column, after those already active. Returns `false`, and
    /// changes nothing, if a column of that name is active already.
    pub fn add_column(&mut self, name: &str, encoding: ColumnEncoding, u256_type: U256Type) -> (r:
        bool)
        ensures
            r == !old(self).spec_has_column(name),
            final(self).datatype == old(self).datatype,
            final(self).log_decoder == old(self).log_decoder,
            r ==> final(self).names() == old(self).names().push(name@),
            r ==> final(self).columns@.last().encoding == encoding,
            r ==> final(self).columns@.last().u256_type == u256_type,
            !r ==> *final(self) == *old(self),
            final(self).spec_has_column(name),
            old(self).wf() ==> final(self).wf(),
    {
        if self.has_column(name) {
            false
        } else {
            let column = Column { name: name.to_owned(), encoding, u256_type };
            self.columns.push(column);
            proof {
                assert(self.names()[old(self).names().len() as int] == name@);
            }
            true
        }
    }
}

/// The schema registry: at most one table for each data kind.
pub struct Schemas {
    tables: HashMap<u64, Table>,
}

impl View for Schemas {
    type V = Map<Datatype, Table>;

    closed spec fn view(&self) -> Map<Datatype, Table> {
        Map::new(
            |datatype: Datatype| self.tables@.contains_key(datatype.spec_index()),
            |datatype: Datatype| self.tables@[datatype.spec_index()],
        )
    }
}

impl Schemas {
    /// The empty registry.
    pub fn new() -> (r: Schemas)
        ensures
            r@ == Map::<Datatype, Table>::empty(),
    {
        let r = Schemas { tables: HashMap::new() };
        r
    }

    /// Registers a table under its own data kind, in place of any table that
    /// was registered for that kind before.
    pub fn insert(&mut self, table: Table)
        ensures
            final(self)@ == old(self)@.insert(table.datatype, table),
    {
        let key: u64 = table.datatype.index();
        self.tables.insert(key, table);
    }

    /// The table registered for a data kind.
    pub fn get(&self, datatype: Datatype) -> (r: Option<&Table>)
        ensures
            r == (if self@.contains_key(datatype) {
                Some(&self@[datatype])
            } else {
                None
            }),
    {
        let key: u64 = datatype.index();
        self.tables.get(&key)
    }
}

} // verus!
