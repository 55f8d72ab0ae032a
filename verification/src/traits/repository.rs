//! Repository failures, filters, sorting and pagination.

use vstd::prelude::*;
use crate::errors::{concat2, concat3};
use crate::json::JsonValue;

verus! {

/// Why a repository operation failed.
#[derive(Debug)]
pub enum RepositoryError {
    NotFound { entity_type: String, id: String },
    AlreadyExists { entity_type: String, id: String },
    InvalidQuery { message: String },
    DatabaseError(String),
    SerializationError(String),
    TransactionError(String),
    Other(String),
}

/// The message of a repository failure.
pub open spec fn repository_error_text(e: RepositoryError) -> Seq<char> {
    match e {
        RepositoryError::NotFound { entity_type, id } => "Entity not found: "@ + entity_type@ + " with id "@ + id@,
        RepositoryError::AlreadyExists { entity_type, id } => "Entity already exists: "@ + entity_type@
            + " with id "@ + id@,
        RepositoryError::InvalidQuery { message } => "Invalid query: "@ + message@,
        RepositoryError::DatabaseError(m) => "Database error: "@ + m@,
        RepositoryError::SerializationError(m) => "Serialization error: "@ + m@,
        RepositoryError::TransactionError(m) => "Transaction error: "@ + m@,
        RepositoryError::Other(m) => "Repository error: "@ + m@,
    }
}

impl RepositoryError {
    /// The message of this failure.
    pub fn to_string(&self) -> (s: String)
        ensures
            s@ == repository_error_text(*self),
    {
        match self {
            RepositoryError::NotFound { entity_type, id } => {
                let mut s = concat3("Entity not found: ", entity_type.as_str(), " with id ");
                s.append(id.as_str());
                s
            },
            RepositoryError::AlreadyExists { entity_type, id } => {
                let mut s = concat3("Entity already exists: ", entity_type.as_str(), " with id ");
                s.append(id.as_str());
                s
            },
            RepositoryError::InvalidQuery { message } => concat2("Invalid query: ", message.as_str()),
            RepositoryError::DatabaseError(m) => concat2("Database error: ", m.as_str()),
            RepositoryError::SerializationError(m) => concat2("Serialization error: ", m.as_str()),
            RepositoryError::TransactionError(m) => concat2("Transaction error: ", m.as_str()),
            RepositoryError::Other(m) => concat2("Repository error: ", m.as_str()),
        }
    }
}

/// How a field is compared with a filter's value.
#[derive(Debug, Clone, Copy, PartialEq, Eq)]
pub enum FilterOperator {
    Equals,
    NotEquals,
    GreaterThan,
    LessThan,
    GreaterThanOrEqual,
    LessThanOrEqual,
    In,
    NotIn,
    Contains,
    StartsWith,
    EndsWith,
}

/// A condition on one field.
#[derive(Debug)]
pub struct FilterCriteria {
    pub field: String,
    pub operator: FilterOperator,
    pub value: JsonValue,
}

/// Sort direction.
#[derive(Debug, Clone, Copy, PartialEq, Eq)]
pub enum SortOrder {
    Ascending,
    Descending,
}

/// Sorting by one field.
#[derive(Debug, Clone)]
pub struct SortCriteria {
    pub field: String,
    pub order: SortOrder,
}

/// A window of results.
#[derive(Debug, Clone, Copy)]
pub struct Pagination {
    pub offset: usize,
    pub limit: usize,
}

impl Default for Pagination {
    /// The first fifty results.
    fn default() -> (p: Self)
        ensures
            p.offset == 0,
            p.limit == 50,
    {
        Pagination { offset: 0, limit: 50 }
    }
}

/// A window of results with the total count.
#[derive(Debug, Clone)]
pub struct PaginatedResult<T> {
    pub items: Vec<T>,
    pub total: usize,
    pub offset: usize,
    pub limit: usize,
}

} // verus!
