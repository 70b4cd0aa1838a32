//! The ways in which a search request fails. Every failure ends the request:
//! nothing is retried and no partial result is handed out.

use vstd::prelude::*;
use vstd::string::*;

verus! {

/// How a failure is shown to the transport layer.
#[derive(Clone, Copy, Debug, PartialEq, Eq, Structural)]
pub enum ErrorClass {
    /// The request itself is at fault.
    ClientInput,
    /// The index or the store failed.
    Internal,
    /// The service is not set up to answer.
    Configuration,
}

/// A failure of a search request.
#[derive(Clone, Debug, PartialEq, Eq)]
pub enum SearchError {
    /// The structured query text is not valid syntax; carries the parser's message.
    QueryParse(String),
    /// The index could not run the query or read a matched document.
    SearchExecution,
    /// A matched document does not hold its subject as a string.
    SchemaViolation,
    /// An entity could not be fetched for a matched subject; carries the store's message.
    Hydration(String),
    /// The service has no base URL.
    MissingBaseUrl,
    /// The request has no path and query to echo.
    MissingQuery,
    /// The result envelope could not be built or written; carries the store's message.
    Serialization(String),
}

impl SearchError {
    /// The explanatory text of a failure.
    pub open spec fn message_text(self) -> Seq<char> {
        match self {
            SearchError::QueryParse(reason) => "Error parsing query "@ + reason@,
            SearchError::SearchExecution => "Error with creating docs for search"@,
            SearchError::SchemaViolation => "Subject is not a string!"@,
            SearchError::Hydration(reason) => reason@,
            SearchError::MissingBaseUrl => "No base URL"@,
            SearchError::MissingQuery => "Add a query param"@,
            SearchError::Serialization(reason) => reason@,
        }
    }

    /// The class under which a failure is shown.
    pub open spec fn class_of(self) -> ErrorClass {
        match self {
            SearchError::QueryParse(_) => ErrorClass::ClientInput,
            SearchError::MissingQuery => ErrorClass::ClientInput,
            SearchError::MissingBaseUrl => ErrorClass::Configuration,
            SearchError::SearchExecution => ErrorClass::Internal,
            SearchError::SchemaViolation => ErrorClass::Internal,
            SearchError::Hydration(_) => ErrorClass::Internal,
            SearchError::Serialization(_) => ErrorClass::Internal,
        }
    }

    /// The explanatory text of a failure, as it is shown to the caller.
    pub fn message(&self) -> (text: String)
        ensures
            text@ == self.message_text(),
    {
        match self {
            SearchError::QueryParse(reason) => {
                let mut text = String::from_str("Error parsing query ");
                text.append(reason.as_str());
                text
            },
            SearchError::SearchExecution => String::from_str("Error with creating docs for search"),
            SearchError::SchemaViolation => String::from_str("Subject is not a string!"),
            SearchError::Hydration(reason) => reason.clone(),
            SearchError::MissingBaseUrl => String::from_str("No base URL"),
            SearchError::MissingQuery => String::from_str("Add a query param"),
            SearchError::Serialization(reason) => reason.clone(),
        }
    }

    /// The class under which a failure is shown to the transport layer.
    pub fn class(&self) -> (class: ErrorClass)
        ensures
            class == self.class_of(),
    {
        match self {
            SearchError::QueryParse(_) => ErrorClass::ClientInput,
            SearchError::MissingQuery => ErrorClass::ClientInput,
            SearchError::MissingBaseUrl => ErrorClass::Configuration,
            SearchError::SearchExecution => ErrorClass::Internal,
            SearchError::SchemaViolation => ErrorClass::Internal,
            SearchError::Hydration(_) => ErrorClass::Internal,
            SearchError::Serialization(_) => ErrorClass::Internal,
        }
    }
}

} // verus!
