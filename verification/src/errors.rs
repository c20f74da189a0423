//! Failures of a collection step.

use vstd::prelude::*;

verus! {

/// The kinds of table that can be collected.
#[derive(Clone, Copy, Debug, PartialEq, Eq, Hash, Structural)]
pub enum Datatype {
    Blocks,
    CodeDiffs,
    Contracts,
    Erc20Metadata,
    Erc721Transfers,
    Logs,
    NativeTransfers,
    Traces,
    Transactions,
}

/// Why a chunk could not be collected.
#[derive(Clone, Copy, Debug, PartialEq, Eq, Structural)]
pub enum CollectError {
    /// No block exists at the requested number or hash.
    BlockNotFound,
    /// No transaction exists with the requested hash.
    TransactionNotFound,
    /// No receipt exists for the requested transaction.
    ReceiptNotFound,
    /// The schema registry holds no table for the data kind being processed.
    MissingSchema(Datatype),
    /// A block came without its hash.
    MissingBlockHash,
    /// A block came without its author.
    MissingAuthor,
    /// A contract creation came without any result.
    MissingTraceResult,
    /// A contract creation came with a result that is not a creation result.
    MissingCreateResult,
    /// A log has fewer topics than an active column reads.
    MissingTopic,
    /// The data of a log is not the one word that an active column reads.
    MalformedData,
    /// A number does not fit the integer type of its column.
    IntegerOverflow,
}

impl CollectError {
    /// Whether the failure says that the requested object does not exist. A
    /// caller may skip such a chunk; every other failure is fatal for it.
    pub open spec fn spec_is_not_found(&self) -> bool {
        *self == CollectError::BlockNotFound || *self == CollectError::TransactionNotFound
            || *self == CollectError::ReceiptNotFound
    }

    /// Whether the failure is fatal for the chunk: retrying cannot help.
    pub open spec fn spec_is_fatal(&self) -> bool {
        !self.spec_is_not_found()
    }

    /// Whether the failure says that the requested object does not exist.
    #[verifier::when_used_as_spec(spec_is_not_found)]
    pub fn is_not_found(&self) -> (r: bool)
        ensures
            r == self.spec_is_not_found(),
    {
        match self {
            CollectError::BlockNotFound => true,
            CollectError::TransactionNotFound => true,
            CollectError::ReceiptNotFound => true,
            _ => false,
        }
    }

    /// Whether the failure is fatal for the chunk.
    #[verifier::when_used_as_spec(spec_is_fatal)]
    pub fn is_fatal(&self) -> (r: bool)
        ensures
            r == self.spec_is_fatal(),
    {
        !self.is_not_found()
    }

    /// The text of the failure.
    pub open spec fn spec_message(&self) -> Seq<char> {
        match self {
            CollectError::BlockNotFound => "block not found"@,
            CollectError::TransactionNotFound => "transaction not found"@,
            CollectError::ReceiptNotFound => "transaction receipt not found"@,
            CollectError::MissingSchema(_) => "schema not provided"@,
            CollectError::MissingBlockHash => "block hash required"@,
            CollectError::MissingAuthor => "author required"@,
            CollectError::MissingTraceResult => "missing trace result"@,
            CollectError::MissingCreateResult => "missing create result"@,
            CollectError::MissingTopic => "missing log topic"@,
            CollectError::MalformedData => "log data is not one word"@,
            CollectError::IntegerOverflow => "integer overflow"@,
        }
    }

    /// The text of the failure.
    pub fn message(&self) -> (r: String)
        ensures
            r@ == self.spec_message(),
    {
        match self {
            CollectError::BlockNotFound => "block not found".to_owned(),
            CollectError::TransactionNotFound => "transaction not found".to_owned(),
            CollectError::ReceiptNotFound => "transaction receipt not found".to_owned(),
            CollectError::MissingSchema(_) => "schema not provided".to_owned(),
            CollectError::MissingBlockHash => "block hash required".to_owned(),
            CollectError::MissingAuthor => "author required".to_owned(),
            CollectError::MissingTraceResult => "missing trace result".to_owned(),
            CollectError::MissingCreateResult => "missing create result".to_owned(),
            CollectError::MissingTopic => "missing log topic".to_owned(),
            CollectError::MalformedData => "log data is not one word".to_owned(),
            CollectError::IntegerOverflow => "integer overflow".to_owned(),
        }
    }
}

/// The first failure in a list of per-record findings, if any record has one.
pub open spec fn first_defect(defects: Seq<Option<CollectError>>) -> Option<CollectError>
    decreases defects.len(),
{
    if defects.len() == 0 {
        None
    } else if defects[0] is Some {
        defects[0]
    } else {
        first_defect(defects.drop_first())
    }
}

/// The result of a step that fails with the first failure found, if any.
pub open spec fn outcome(defect: Option<CollectError>) -> Result<(), CollectError> {
    match defect {
        Some(error) => Err(error),
        None => Ok(()),
    }
}

/// A list without findings has no first failure.
pub proof fn lemma_no_defect(defects: Seq<Option<CollectError>>)
    requires
        forall|i: int| 0 <= i < defects.len() ==> defects[i] is None,
    ensures
        first_defect(defects) is None,
    decreases defects.len(),
{
    if defects.len() > 0 {
        lemma_no_defect(defects.drop_first());
    }
}

/// Where there is no first failure, no record has a finding.
pub proof fn lemma_defect_free(defects: Seq<Option<CollectError>>)
    requires
        first_defect(defects) is None,
    ensures
        forall|i: int| 0 <= i < defects.len() ==> defects[i] is None,
    decreases defects.len(),
{
    if defects.len() > 0 {
        lemma_defect_free(defects.drop_first());
        assert forall|i: int| 0 <= i < defects.len() implies defects[i] is None by {
            if i > 0 {
                assert(defects[i] == defects.drop_first()[i - 1]);
            }
        }
    }
}

/// A first failure is the finding of some record.
pub proof fn lemma_first_defect_occurs(defects: Seq<Option<CollectError>>)
    requires
        first_defect(defects) is Some,
    ensures
        exists|i: int| 0 <= i < defects.len() && #[trigger] defects[i] == first_defect(defects),
    decreases defects.len(),
{
    if defects[0] is Some {
        assert(defects[0] == first_defect(defects));
    } else {
        lemma_first_defect_occurs(defects.drop_first());
        let i = choose|i: int|
            0 <= i < defects.drop_first().len() && #[trigger] defects.drop_first()[i]
                == first_defect(defects.drop_first());
        assert(defects[i + 1] == first_defect(defects));
    }
}

/// The first failure is the finding at the first place that has one.
pub proof fn lemma_first_defect(defects: Seq<Option<CollectError>>, at: int)
    requires
        0 <= at < defects.len(),
        defects[at] is Some,
        forall|i: int| 0 <= i < at ==> defects[i] is None,
    ensures
        first_defect(defects) == defects[at],
    decreases defects.len(),
{
    if at > 0 {
        lemma_first_defect(defects.drop_first(), at - 1);
    }
}

} // verus!
