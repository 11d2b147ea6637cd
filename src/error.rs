use vstd::prelude::*;

verus! {

/// Everything that can stop an invocation.
#[derive(Clone, Debug, PartialEq, Eq)]
pub enum GreptileError {
    /// No working copy could be opened at the current directory.
    NoRepository,
    /// The working copy has no `origin` remote.
    NoRemote,
    /// The `origin` remote has no URL.
    NoRemoteUrl,
    /// The `origin` URL is not a GitHub HTTPS URL; holds the URL.
    UnparseableRemoteUrl(String),
    /// A credential was not supplied; holds the name of its variable.
    MissingCredential(String),
    /// The request could not be carried out (connection, TLS, timeout).
    Transport(String),
    /// The service answered with a status other than 200; holds the body.
    RemoteRejected(String),
}

} // verus!
