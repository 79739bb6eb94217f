//! The errors of the application, each with the text shown to the user.
use vstd::prelude::*;
use crate::config::ConfigError;
use crate::text::concat2;

verus! {

/// An error of the application. Each variant carries the detail of what
/// failed; `message` gives the text the user sees.
#[derive(Debug)]
pub enum McpError {
    /// A configuration could not be used.
    ConfigError(String),
    /// A service failed.
    ServiceError(String),
    /// A connection could not be made or used.
    ConnectionError(String),
    /// A cache could not be used.
    CacheError(String),
    /// No service has the given name.
    ServiceNotFound(String),
    /// A service of that name exists.
    ServiceAlreadyExists(String),
    /// Reading or writing failed; the text is the system's error.
    IoError(String),
    /// A JSON document was malformed; the text is the parser's error.
    JsonError(String),
    /// An HTTP request failed; the text is the client's error.
    HttpError(String),
    /// A peer broke the MCP protocol.
    ProtocolError(String),
    /// A request could not be authenticated.
    AuthError(String),
    /// A value failed validation.
    ValidationError(String),
    /// The network failed.
    NetworkError(String),
    /// An operation took too long.
    TimeoutError(String),
    /// An operation is not permitted.
    PermissionError(String),
    /// An input was malformed.
    InvalidInput(String),
    /// The database could not be reached.
    DatabaseConnectionError(String),
    /// A query failed.
    DatabaseQueryError(String),
    /// A transaction failed.
    DatabaseTransactionError(String),
    /// A migration failed.
    DatabaseMigrationError(String),
    /// The database could not be set up.
    DatabaseInitializationError(String),
    /// A resource is missing.
    NotFoundError(String),
    /// A resource is missing.
    NotFound(String),
    /// A configuration is inconsistent.
    InvalidConfiguration(String),
    /// Something that should not fail did.
    Internal(String),
    /// A managed tool failed.
    ToolError(String),
    /// A managed tool is missing.
    ToolNotFound(String),
    /// A download failed.
    DownloadError(String),
    /// A tool is not usable.
    InvalidTool(String),
    /// The platform is not supported.
    UnsupportedPlatform(String),
    /// A runtime failed.
    RuntimeError(String),
    /// A value could not be serialised.
    SerializationError(String),
    /// The marketplace failed.
    MarketplaceError(String),
    /// A child process failed.
    ProcessError(String),
    /// Something that should not fail did.
    InternalError(String),
    /// An operation is not supported.
    UnsupportedOperation(String),
    /// The database failed.
    DatabaseError(String),
    /// The login shell's environment could not be read.
    ShellError(String),
}

/// The text before an error's detail.
pub open spec fn error_prefix(e: McpError) -> Seq<char> {
    match e {
        McpError::ConfigError(_) => "Configuration error: "@,
        McpError::ServiceError(_) => "Service error: "@,
        McpError::ConnectionError(_) => "Connection error: "@,
        McpError::CacheError(_) => "Cache error: "@,
        McpError::ServiceNotFound(_) => "Service not found: "@,
        McpError::ServiceAlreadyExists(_) => "Service already exists: "@,
        McpError::IoError(_) => "IO error: "@,
        McpError::JsonError(_) => "JSON error: "@,
        McpError::HttpError(_) => "HTTP error: "@,
        McpError::ProtocolError(_) => "MCP protocol error: "@,
        McpError::AuthError(_) => "Authentication error: "@,
        McpError::ValidationError(_) => "Validation error: "@,
        McpError::NetworkError(_) => "Network error: "@,
        McpError::TimeoutError(_) => "Timeout error: "@,
        McpError::PermissionError(_) => "Permission denied: "@,
        McpError::InvalidInput(_) => "Invalid input: "@,
        McpError::DatabaseConnectionError(_) => "Database connection failed: "@,
        McpError::DatabaseQueryError(_) => "Database query failed: "@,
        McpError::DatabaseTransactionError(_) => "Database transaction failed: "@,
        McpError::DatabaseMigrationError(_) => "Database migration failed: "@,
        McpError::DatabaseInitializationError(_) => "Database initialization failed: "@,
        McpError::NotFoundError(_) => "Resource not found: "@,
        McpError::NotFound(_) => "Resource not found: "@,
        McpError::InvalidConfiguration(_) => "Invalid configuration: "@,
        McpError::Internal(_) => "Internal error: "@,
        McpError::ToolError(_) => "Tool error: "@,
        McpError::ToolNotFound(_) => "Tool not found: "@,
        McpError::DownloadError(_) => "Download error: "@,
        McpError::InvalidTool(_) => "Invalid tool: "@,
        McpError::UnsupportedPlatform(_) => "Unsupported platform: "@,
        McpError::RuntimeError(_) => "Runtime error: "@,
        McpError::SerializationError(_) => "Serialization error: "@,
        McpError::MarketplaceError(_) => "Marketplace error: "@,
        McpError::ProcessError(_) => "Process error: "@,
        McpError::InternalError(_) => "Internal error: "@,
        McpError::UnsupportedOperation(_) => "Unsupported operation: "@,
        McpError::DatabaseError(_) => "Database error: "@,
        McpError::ShellError(_) => "Shell environment error: "@,
    }
}

/// The detail an error carries.
pub open spec fn error_detail(e: McpError) -> Seq<char> {
    match e {
        McpError::ConfigError(d) => d@,
        McpError::ServiceError(d) => d@,
        McpError::ConnectionError(d) => d@,
        McpError::CacheError(d) => d@,
        McpError::ServiceNotFound(d) => d@,
        McpError::ServiceAlreadyExists(d) => d@,
        McpError::IoError(d) => d@,
        McpError::JsonError(d) => d@,
        McpError::HttpError(d) => d@,
        McpError::ProtocolError(d) => d@,
        McpError::AuthError(d) => d@,
        McpError::ValidationError(d) => d@,
        McpError::NetworkError(d) => d@,
        McpError::TimeoutError(d) => d@,
        McpError::PermissionError(d) => d@,
        McpError::InvalidInput(d) => d@,
        McpError::DatabaseConnectionError(d) => d@,
        McpError::DatabaseQueryError(d) => d@,
        McpError::DatabaseTransactionError(d) => d@,
        McpError::DatabaseMigrationError(d) => d@,
        McpError::DatabaseInitializationError(d) => d@,
        McpError::NotFoundError(d) => d@,
        McpError::NotFound(d) => d@,
        McpError::InvalidConfiguration(d) => d@,
        McpError::Internal(d) => d@,
        McpError::ToolError(d) => d@,
        McpError::ToolNotFound(d) => d@,
        McpError::DownloadError(d) => d@,
        McpError::InvalidTool(d) => d@,
        McpError::UnsupportedPlatform(d) => d@,
        McpError::RuntimeError(d) => d@,
        McpError::SerializationError(d) => d@,
        McpError::MarketplaceError(d) => d@,
        McpError::ProcessError(d) => d@,
        McpError::InternalError(d) => d@,
        McpError::UnsupportedOperation(d) => d@,
        McpError::DatabaseError(d) => d@,
        McpError::ShellError(d) => d@,
    }
}

/// The text of an error: its prefix, then its detail.
pub open spec fn error_text(e: McpError) -> Seq<char> {
    error_prefix(e) + error_detail(e)
}

impl McpError {
    /// The text the user sees for this error.
    pub fn message(&self) -> (r: String)
        ensures
            r@ == error_text(*self),
    {
        let (prefix, detail) = match self {
            McpError::ConfigError(d) => ("Configuration error: ", d),
            McpError::ServiceError(d) => ("Service error: ", d),
            McpError::ConnectionError(d) => ("Connection error: ", d),
            McpError::CacheError(d) => ("Cache error: ", d),
            McpError::ServiceNotFound(d) => ("Service not found: ", d),
            McpError::ServiceAlreadyExists(d) => ("Service already exists: ", d),
            McpError::IoError(d) => ("IO error: ", d),
            McpError::JsonError(d) => ("JSON error: ", d),
            McpError::HttpError(d) => ("HTTP error: ", d),
            McpError::ProtocolError(d) => ("MCP protocol error: ", d),
            McpError::AuthError(d) => ("Authentication error: ", d),
            McpError::ValidationError(d) => ("Validation error: ", d),
            McpError::NetworkError(d) => ("Network error: ", d),
            McpError::TimeoutError(d) => ("Timeout error: ", d),
            McpError::PermissionError(d) => ("Permission denied: ", d),
            McpError::InvalidInput(d) => ("Invalid input: ", d),
            McpError::DatabaseConnectionError(d) => ("Database connection failed: ", d),
            McpError::DatabaseQueryError(d) => ("Database query failed: ", d),
            McpError::DatabaseTransactionError(d) => ("Database transaction failed: ", d),
            McpError::DatabaseMigrationError(d) => ("Database migration failed: ", d),
            McpError::DatabaseInitializationError(d) => ("Database initialization failed: ", d),
            McpError::NotFoundError(d) => ("Resource not found: ", d),
            McpError::NotFound(d) => ("Resource not found: ", d),
            McpError::InvalidConfiguration(d) => ("Invalid configuration: ", d),
            McpError::Internal(d) => ("Internal error: ", d),
            McpError::ToolError(d) => ("Tool error: ", d),
            McpError::ToolNotFound(d) => ("Tool not found: ", d),
            McpError::DownloadError(d) => ("Download error: ", d),
            McpError::InvalidTool(d) => ("Invalid tool: ", d),
            McpError::UnsupportedPlatform(d) => ("Unsupported platform: ", d),
            McpError::RuntimeError(d) => ("Runtime error: ", d),
            McpError::SerializationError(d) => ("Serialization error: ", d),
            McpError::MarketplaceError(d) => ("Marketplace error: ", d),
            McpError::ProcessError(d) => ("Process error: ", d),
            McpError::InternalError(d) => ("Internal error: ", d),
            McpError::UnsupportedOperation(d) => ("Unsupported operation: ", d),
            McpError::DatabaseError(d) => ("Database error: ", d),
            McpError::ShellError(d) => ("Shell environment error: ", d),
        };
        concat2(prefix, detail.as_str())
    }
}

/// The text of a configuration error.
pub open spec fn config_error_text(e: ConfigError) -> Seq<char> {
    match e {
        ConfigError::Io(d) => "IO error: "@ + d@,
        ConfigError::Json(d) => "JSON serialization/deserialization error: "@ + d@,
        ConfigError::NotFound(d) => "Configuration file not found: "@ + d@,
        ConfigError::Invalid(d) => "Invalid configuration: "@ + d@,
        ConfigError::Permission(d) => "Insufficient permissions: "@ + d@,
    }
}

impl ConfigError {
    /// The text the user sees for this error.
    pub fn message(&self) -> (r: String)
        ensures
            r@ == config_error_text(*self),
    {
        let (prefix, detail) = match self {
            ConfigError::Io(d) => ("IO error: ", d),
            ConfigError::Json(d) => ("JSON serialization/deserialization error: ", d),
            ConfigError::NotFound(d) => ("Configuration file not found: ", d),
            ConfigError::Invalid(d) => ("Invalid configuration: ", d),
            ConfigError::Permission(d) => ("Insufficient permissions: ", d),
        };
        concat2(prefix, detail.as_str())
    }
}

/// A configuration error, reported as an application error carrying its text.
pub fn from_config_error(e: &ConfigError) -> (r: McpError)
    ensures
        r matches McpError::ConfigError(m) && m@ == config_error_text(*e),
{
    McpError::ConfigError(e.message())
}

} // verus!
