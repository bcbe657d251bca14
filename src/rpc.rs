//! Errors of the remote protocol.
use vstd::prelude::*;

verus! {

/// The detail that the server adds to an error: the method that failed and
/// its own message.
#[derive(Clone, Debug)]
pub struct RpcErrorData {
    pub method: String,
    pub message: String,
}

/// The failure of a remote call.
#[derive(Clone, Debug)]
pub enum RpcError {
    /// The request did not reach the server, or its answer could not be read.
    Transport(String),
    /// The server answered with an error envelope.
    Remote { message: String, data: Option<RpcErrorData> },
    /// A library scan was still running after the allowed number of polls.
    ScanTimedOut,
}

/// The text that describes an error.
pub open spec fn describe_error(e: RpcError) -> Seq<char> {
    match e {
        RpcError::Transport(message) => message@,
        RpcError::Remote { message, data } => match data {
            Some(d) => message@ + " when calling "@ + d.method@ + ": "@ + d.message@,
            None => message@ + " "@,
        },
        RpcError::ScanTimedOut => "library scan did not finish in time"@,
    }
}

impl RpcError {
    /// A human-readable description of the error.
    pub fn describe(&self) -> (r: String)
        ensures
            r@ == describe_error(*self),
    {
        match self {
            RpcError::Transport(message) => message.clone(),
            RpcError::Remote { message, data } => {
                let mut out = message.clone();
                match data {
                    Some(d) => {
                        out.append(" when calling ");
                        out.append(d.method.as_str());
                        out.append(": ");
                        out.append(d.message.as_str());
                    },
                    None => {
                        out.append(" ");
                    },
                }
                out
            },
            RpcError::ScanTimedOut => String::from_str("library scan did not finish in time"),
        }
    }
}

/// The remote calls that the engine makes.
#[derive(Clone, Debug)]
pub enum RpcCall {
    /// Remove stale entries from the server's library.
    CleanLibrary,
    /// Start an asynchronous library scan.
    ScanLibrary,
    /// Ask whether the library is being scanned.
    IsScanning,
    /// List every movie, with the catalog's properties.
    GetMovies,
    /// List a directory of the server's filesystem.
    GetDirectory(String),
    /// Refresh one movie's metadata.
    RefreshMovie(u16),
    /// Replace one movie's tags.
    SetMovieTags(u16, Vec<String>),
}

/// The most movies that one listing asks for.
pub const MOVIE_LIMIT: u16 = 10000;

/// The remote method name of each call.
pub open spec fn method_of(call: RpcCall) -> Seq<char> {
    match call {
        RpcCall::CleanLibrary => "VideoLibrary.Clean"@,
        RpcCall::ScanLibrary => "VideoLibrary.Scan"@,
        RpcCall::IsScanning => "XBMC.GetInfoBooleans"@,
        RpcCall::GetMovies => "VideoLibrary.GetMovies"@,
        RpcCall::GetDirectory(_) => "Files.GetDirectory"@,
        RpcCall::RefreshMovie(_) => "VideoLibrary.RefreshMovie"@,
        RpcCall::SetMovieTags(_, _) => "VideoLibrary.SetMovieDetails"@,
    }
}

impl RpcCall {
    /// The remote method that the call invokes.
    pub fn method(&self) -> (r: &'static str)
        ensures
            r@ == method_of(*self),
    {
        match self {
            RpcCall::CleanLibrary => "VideoLibrary.Clean",
            RpcCall::ScanLibrary => "VideoLibrary.Scan",
            RpcCall::IsScanning => "XBMC.GetInfoBooleans",
            RpcCall::GetMovies => "VideoLibrary.GetMovies",
            RpcCall::GetDirectory(_) => "Files.GetDirectory",
            RpcCall::RefreshMovie(_) => "VideoLibrary.RefreshMovie",
            RpcCall::SetMovieTags(_, _) => "VideoLibrary.SetMovieDetails",
        }
    }

    /// Whether the request carries parameters; a call without them omits the
    /// parameter field altogether.
    pub fn has_params(&self) -> (r: bool)
        ensures
            r == !(*self is CleanLibrary || *self is ScanLibrary),
    {
        match self {
            RpcCall::CleanLibrary | RpcCall::ScanLibrary => false,
            _ => true,
        }
    }
}

} // verus!
