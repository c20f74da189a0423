//! The extraction contract: how a data kind turns the answer to a request
//! into rows of its accumulator.
//!
//! A data kind can be collected over blocks, over transactions, or both. For
//! each it names the answer it takes, the accumulator it fills, and the
//! dimensions along which its requests are cut. The transformation is the
//! same in both: it takes the table of the data kind from the registry and
//! appends the rows of the answer under the guard of that table. A registry
//! without that table is a mistake of the caller's configuration: the
//! transformation is not called on it.

use crate::errors::{outcome, CollectError, Datatype};
use crate::request::ChunkDim;
use crate::schema::{Schemas, Table};
use vstd::prelude::*;

verus! {

/// A data kind that is collected block by block.
pub trait CollectByBlock {
    /// What the node answers to the request for one block.
    type Response;

    /// The accumulator of the data kind.
    type Columns;

    /// The data kind, under which its table stands in the registry.
    spec fn datatype() -> Datatype;

    /// Whether an answer can be taken: it holds what the data kind requires
    /// of the node, and the row counter has room for its rows.
    spec fn admits(response: Self::Response, columns: Self::Columns) -> bool;

    /// What is wrong with an answer, if anything, given the table.
    spec fn defect(response: Self::Response, schema: Table) -> Option<CollectError>;

    /// Whether `after` is `before` with the rows of the answer appended
    /// under the guard of the table.
    spec fn appended(
        before: Self::Columns,
        after: Self::Columns,
        response: Self::Response,
        schema: Table,
    ) -> bool;

    /// The row-count invariant of the accumulator under a table.
    spec fn columns_wf(columns: Self::Columns, schema: Table) -> bool;

    /// The data kind, under which its table stands in the registry.
    fn kind() -> (r: Datatype)
        ensures
            r == Self::datatype(),
    ;

    /// Whether an answer can be taken.
    fn fits(response: &Self::Response, columns: &Self::Columns) -> (r: bool)
        ensures
            r == Self::admits(*response, *columns),
    ;

    /// The dimensions along which requests for this data kind are cut.
    fn block_parameters() -> (r: Vec<ChunkDim>)
        ensures
            r@.contains(ChunkDim::BlockNumber),
    ;

    /// Appends the rows of an answer to the accumulator, under the guard of
    /// the table that the registry holds for the data kind.
    ///
    /// Fails on an answer with a value that no column can hold. Every
    /// failure is fatal for the chunk and leaves the accumulator as it was.
    fn transform(response: Self::Response, columns: &mut Self::Columns, schemas: &Schemas) -> (r:
        Result<(), CollectError>)
        requires
            schemas@.contains_key(Self::datatype()),
            Self::admits(response, *old(columns)),
        ensures
            r == outcome(Self::defect(response, schemas@[Self::datatype()])),
            r matches Err(error) ==> error.is_fatal() && *final(columns) == *old(columns),
            r is Ok ==> Self::appended(
                *old(columns),
                *final(columns),
                response,
                schemas@[Self::datatype()],
            ),
            Self::columns_wf(*old(columns), schemas@[Self::datatype()]) ==> Self::columns_wf(
                *final(columns),
                schemas@[Self::datatype()],
            ),
    ;
}

/// A data kind that is collected transaction by transaction.
pub trait CollectByTransaction {
    /// What the node answers to the request for one transaction.
    type Response;

    /// The accumulator of the data kind.
    type Columns;

    /// The data kind, under which its table stands in the registry.
    spec fn datatype() -> Datatype;

    /// Whether an answer can be taken: it holds what the data kind requires
    /// of the node, and the row counter has room for its rows.
    spec fn admits(response: Self::Response, columns: Self::Columns) -> bool;

    /// What is wrong with an answer, if anything, given the table.
    spec fn defect(response: Self::Response, schema: Table) -> Option<CollectError>;

    /// Whether `after` is `before` with the rows of the answer appended
    /// under the guard of the table.
    spec fn appended(
        before: Self::Columns,
        after: Self::Columns,
        response: Self::Response,
        schema: Table,
    ) -> bool;

    /// The row-count invariant of the accumulator under a table.
    spec fn columns_wf(columns: Self::Columns, schema: Table) -> bool;

    /// The data kind, under which its table stands in the registry.
    fn kind() -> (r: Datatype)
        ensures
            r == Self::datatype(),
    ;

    /// Whether an answer can be taken.
    fn fits(response: &Self::Response, columns: &Self::Columns) -> (r: bool)
        ensures
            r == Self::admits(*response, *columns),
    ;

    /// The dimensions along which requests for this data kind are cut.
    fn transaction_parameters() -> (r: Vec<ChunkDim>)
        ensures
            r@.contains(ChunkDim::TransactionHash),
    ;

    /// Appends the rows of an answer to the accumulator, under the guard of
    /// the table that the registry holds for the data kind.
    ///
    /// Fails on an answer with a value that no column can hold. Every
    /// failure is fatal for the chunk and leaves the accumulator as it was.
    fn transform(response: Self::Response, columns: &mut Self::Columns, schemas: &Schemas) -> (r:
        Result<(), CollectError>)
        requires
            schemas@.contains_key(Self::datatype()),
            Self::admits(response, *old(columns)),
        ensures
            r == outcome(Self::defect(response, schemas@[Self::datatype()])),
            r matches Err(error) ==> error.is_fatal() && *final(columns) == *old(columns),
            r is Ok ==> Self::appended(
                *old(columns),
                *final(columns),
                response,
                schemas@[Self::datatype()],
            ),
            Self::columns_wf(*old(columns), schemas@[Self::datatype()]) ==> Self::columns_wf(
                *final(columns),
                schemas@[Self::datatype()],
            ),
    ;
}

} // verus!
