//! Error values of the server side and of the terminal front end.
use vstd::prelude::*;
use vstd::string::*;

verus! {

/// What can go wrong on the server side.
#[derive(Debug, Clone, PartialEq, Eq)]
pub enum ServerError {
    Authentication(String),
    Configuration(String),
    FileSystem(String),
    Network(String),
    Internal(String),
    Validation(String),
    CloudFolder(String),
    ServerAlreadyRunning,
    ServerNotRunning,
    ServerError(String),
    InvalidPath(String),
}

/// A copy of a text.
fn copy_text(s: &str) -> (res: String)
    ensures
        res@ == s@,
{
    String::from_str(s)
}

/// Prefix and detail joined into one message.
fn prefixed(prefix: &str, msg: &str) -> (res: String)
    ensures
        res@ == prefix@ + msg@,
{
    String::from_str(prefix).concat(msg)
}

impl ServerError {
    /// An authentication failure.
    pub fn authentication(msg: String) -> (res: Self)
        ensures
            res == ServerError::Authentication(msg),
    {
        ServerError::Authentication(msg)
    }

    /// A configuration problem.
    pub fn configuration(msg: String) -> (res: Self)
        ensures
            res == ServerError::Configuration(msg),
    {
        ServerError::Configuration(msg)
    }

    /// A file system problem.
    pub fn file_system(msg: String) -> (res: Self)
        ensures
            res == ServerError::FileSystem(msg),
    {
        ServerError::FileSystem(msg)
    }

    /// A network problem.
    pub fn network(msg: String) -> (res: Self)
        ensures
            res == ServerError::Network(msg),
    {
        ServerError::Network(msg)
    }

    /// An internal failure.
    pub fn internal(msg: String) -> (res: Self)
        ensures
            res == ServerError::Internal(msg),
    {
        ServerError::Internal(msg)
    }

    /// A rejected input.
    pub fn validation(msg: String) -> (res: Self)
        ensures
            res == ServerError::Validation(msg),
    {
        ServerError::Validation(msg)
    }

    /// A cloud folder problem.
    pub fn cloud_folder(msg: String) -> (res: Self)
        ensures
            res == ServerError::CloudFolder(msg),
    {
        ServerError::CloudFolder(msg)
    }

    /// The human-readable message of the error.
    pub fn message(&self) -> (res: String)
        ensures
            res@ == server_error_message(*self),
    {
        match self {
            ServerError::Authentication(m) => prefixed("Authentication error: ", m.as_str()),
            ServerError::Configuration(m) => prefixed("Configuration error: ", m.as_str()),
            ServerError::FileSystem(m) => prefixed("File system error: ", m.as_str()),
            ServerError::Network(m) => prefixed("Network error: ", m.as_str()),
            ServerError::Internal(m) => prefixed("Internal server error: ", m.as_str()),
            ServerError::Validation(m) => prefixed("Validation error: ", m.as_str()),
            ServerError::CloudFolder(m) => prefixed("Cloud folder error: ", m.as_str()),
            ServerError::ServerAlreadyRunning => String::from_str("Server already running"),
            ServerError::ServerNotRunning => String::from_str("Server not running"),
            ServerError::ServerError(m) => prefixed("Server error: ", m.as_str()),
            ServerError::InvalidPath(m) => prefixed("Invalid path: ", m.as_str()),
        }
    }

    /// The short code sent with the error in an HTTP answer.
    pub fn error_code(&self) -> (res: &'static str)
        ensures
            res@ == server_error_code(*self),
    {
        match self {
            ServerError::Authentication(_) => "UNAUTHORIZED",
            ServerError::Configuration(_) => "CONFIG_ERROR",
            ServerError::FileSystem(_) => "FILE_ERROR",
            ServerError::Network(_) => "NETWORK_ERROR",
            ServerError::Internal(_) => "INTERNAL_ERROR",
            ServerError::Validation(_) => "VALIDATION_ERROR",
            ServerError::CloudFolder(_) => "CLOUD_FOLDER_ERROR",
            ServerError::ServerAlreadyRunning => "SERVER_RUNNING",
            ServerError::ServerNotRunning => "SERVER_NOT_RUNNING",
            ServerError::ServerError(_) => "SERVER_ERROR",
            ServerError::InvalidPath(_) => "INVALID_PATH",
        }
    }

    /// The explanation sent with the error in an HTTP answer: the detail it
    /// carries, or a fixed text for the two server states.
    pub fn detail(&self) -> (res: String)
        ensures
            res@ == server_error_detail(*self),
    {
        match self {
            ServerError::Authentication(m) => copy_text(m.as_str()),
            ServerError::Configuration(m) => copy_text(m.as_str()),
            ServerError::FileSystem(m) => copy_text(m.as_str()),
            ServerError::Network(m) => copy_text(m.as_str()),
            ServerError::Internal(m) => copy_text(m.as_str()),
            ServerError::Validation(m) => copy_text(m.as_str()),
            ServerError::CloudFolder(m) => copy_text(m.as_str()),
            ServerError::ServerAlreadyRunning => String::from_str("Server already running"),
            ServerError::ServerNotRunning => String::from_str("Server not running"),
            ServerError::ServerError(m) => copy_text(m.as_str()),
            ServerError::InvalidPath(m) => copy_text(m.as_str()),
        }
    }

    /// The HTTP status code that answers the error.
    pub fn status_code(&self) -> (res: u16)
        ensures
            res == server_error_status(*self),
    {
        match self {
            ServerError::Authentication(_) => 401,
            ServerError::Configuration(_) => 500,
            ServerError::FileSystem(_) => 500,
            ServerError::Network(_) => 502,
            ServerError::Internal(_) => 500,
            ServerError::Validation(_) => 400,
            ServerError::CloudFolder(_) => 404,
            ServerError::ServerAlreadyRunning => 409,
            ServerError::ServerNotRunning => 400,
            ServerError::ServerError(_) => 500,
            ServerError::InvalidPath(_) => 400,
        }
    }
}

/// The message text of a server error.
pub open spec fn server_error_message(e: ServerError) -> Seq<char> {
    match e {
        ServerError::Authentication(m) => "Authentication error: "@ + m@,
        ServerError::Configuration(m) => "Configuration error: "@ + m@,
        ServerError::FileSystem(m) => "File system error: "@ + m@,
        ServerError::Network(m) => "Network error: "@ + m@,
        ServerError::Internal(m) => "Internal server error: "@ + m@,
        ServerError::Validation(m) => "Validation error: "@ + m@,
        ServerError::CloudFolder(m) => "Cloud folder error: "@ + m@,
        ServerError::ServerAlreadyRunning => "Server already running"@,
        ServerError::ServerNotRunning => "Server not running"@,
        ServerError::ServerError(m) => "Server error: "@ + m@,
        ServerError::InvalidPath(m) => "Invalid path: "@ + m@,
    }
}

/// The short code of a server error in an HTTP answer.
pub open spec fn server_error_code(e: ServerError) -> Seq<char> {
    match e {
        ServerError::Authentication(_) => "UNAUTHORIZED"@,
        ServerError::Configuration(_) => "CONFIG_ERROR"@,
        ServerError::FileSystem(_) => "FILE_ERROR"@,
        ServerError::Network(_) => "NETWORK_ERROR"@,
        ServerError::Internal(_) => "INTERNAL_ERROR"@,
        ServerError::Validation(_) => "VALIDATION_ERROR"@,
        ServerError::CloudFolder(_) => "CLOUD_FOLDER_ERROR"@,
        ServerError::ServerAlreadyRunning => "SERVER_RUNNING"@,
        ServerError::ServerNotRunning => "SERVER_NOT_RUNNING"@,
        ServerError::ServerError(_) => "SERVER_ERROR"@,
        ServerError::InvalidPath(_) => "INVALID_PATH"@,
    }
}

/// The explanation of a server error in an HTTP answer.
pub open spec fn server_error_detail(e: ServerError) -> Seq<char> {
    match e {
        ServerError::Authentication(m) => m@,
        ServerError::Configuration(m) => m@,
        ServerError::FileSystem(m) => m@,
        ServerError::Network(m) => m@,
        ServerError::Internal(m) => m@,
        ServerError::Validation(m) => m@,
        ServerError::CloudFolder(m) => m@,
        ServerError::ServerAlreadyRunning => "Server already running"@,
        ServerError::ServerNotRunning => "Server not running"@,
        ServerError::ServerError(m) => m@,
        ServerError::InvalidPath(m) => m@,
    }
}

/// The HTTP status of a server error.
pub open spec fn server_error_status(e: ServerError) -> u16 {
    match e {
        ServerError::Authentication(_) => 401,
        ServerError::Configuration(_) => 500,
        ServerError::FileSystem(_) => 500,
        ServerError::Network(_) => 502,
        ServerError::Internal(_) => 500,
        ServerError::Validation(_) => 400,
        ServerError::CloudFolder(_) => 404,
        ServerError::ServerAlreadyRunning => 409,
        ServerError::ServerNotRunning => 400,
        ServerError::ServerError(_) => 500,
        ServerError::InvalidPath(_) => 400,
    }
}

/// What can go wrong in the terminal front end.
#[derive(Debug, Clone, PartialEq, Eq)]
pub enum TuiError {
    Configuration(String),
    FileSystem(String),
    Network(String),
    Internal(String),
    Validation(String),
    ServerCommunication(String),
    UserInput(String),
}

impl TuiError {
    /// A configuration problem.
    pub fn configuration(msg: String) -> (res: Self)
        ensures
            res == TuiError::Configuration(msg),
    {
        TuiError::Configuration(msg)
    }

    /// A file system problem.
    pub fn file_system(msg: String) -> (res: Self)
        ensures
            res == TuiError::FileSystem(msg),
    {
        TuiError::FileSystem(msg)
    }

    /// A network problem.
    pub fn network(msg: String) -> (res: Self)
        ensures
            res == TuiError::Network(msg),
    {
        TuiError::Network(msg)
    }

    /// An internal failure.
    pub fn internal(msg: String) -> (res: Self)
        ensures
            res == TuiError::Internal(msg),
    {
        TuiError::Internal(msg)
    }

    /// A rejected input.
    pub fn validation(msg: String) -> (res: Self)
        ensures
            res == TuiError::Validation(msg),
    {
        TuiError::Validation(msg)
    }

    /// A failure to talk to the server.
    pub fn server_communication(msg: String) -> (res: Self)
        ensures
            res == TuiError::ServerCommunication(msg),
    {
        TuiError::ServerCommunication(msg)
    }

    /// A bad user input.
    pub fn user_input(msg: String) -> (res: Self)
        ensures
            res == TuiError::UserInput(msg),
    {
        TuiError::UserInput(msg)
    }

    /// The human-readable message of the error.
    pub fn message(&self) -> (res: String)
        ensures
            res@ == tui_error_message(*self),
    {
        match self {
            TuiError::Configuration(m) => prefixed("Configuration error: ", m.as_str()),
            TuiError::FileSystem(m) => prefixed("File system error: ", m.as_str()),
            TuiError::Network(m) => prefixed("Network error: ", m.as_str()),
            TuiError::Internal(m) => prefixed("Internal error: ", m.as_str()),
            TuiError::Validation(m) => prefixed("Validation error: ", m.as_str()),
            TuiError::ServerCommunication(m) => prefixed("Server communication error: ", m.as_str()),
            TuiError::UserInput(m) => prefixed("User input error: ", m.as_str()),
        }
    }
}

/// The message text of a front-end error.
pub open spec fn tui_error_message(e: TuiError) -> Seq<char> {
    match e {
        TuiError::Configuration(m) => "Configuration error: "@ + m@,
        TuiError::FileSystem(m) => "File system error: "@ + m@,
        TuiError::Network(m) => "Network error: "@ + m@,
        TuiError::Internal(m) => "Internal error: "@ + m@,
        TuiError::Validation(m) => "Validation error: "@ + m@,
        TuiError::ServerCommunication(m) => "Server communication error: "@ + m@,
        TuiError::UserInput(m) => "User input error: "@ + m@,
    }
}

} // verus!
