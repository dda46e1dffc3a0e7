//! The library's error type. Each variant carries plain text describing
//! the failure; the callers that talk to the outside world fill them in.

use vstd::prelude::*;

verus! {

/// What can go wrong while loading a configuration, provisioning tables,
/// or seeding data. The variants that report an outside failure carry its
/// rendered message.
#[derive(Clone, Debug, PartialEq, Eq)]
pub enum DynamoToolsError {
    /// Reading a configuration file failed: the path, and the I/O error.
    ConfigRead(String, String),
    /// Parsing a configuration failed: the source, and the parse error.
    ConfigParse(String, String),
    /// Building the SDK request failed.
    AwsSdkConfig(String),
    /// A field expected in a configuration or a response was missing.
    MissingField(String),
    /// A DynamoDB call failed.
    DynamoDbSdk(String),
    /// Creating a table failed.
    TableCreation(String),
    /// Deleting a table failed.
    TableDeletion(String),
    /// Describing a table failed.
    TableDescribe(String),
    /// Reading a seed-data file failed: the path, and the I/O error.
    SeedFileRead(String, String),
    /// Parsing a seed-data file as JSON failed: the path, and the error.
    SeedJsonParse(String, String),
    /// Converting a seed item to the DynamoDB format failed.
    SeedDynamoConversion(String),
    /// Writing seed items to a table failed: the table, and the error.
    SeedBatchWrite(String, String),
    /// An internal invariant did not hold.
    Internal(String),
}

} // verus!
