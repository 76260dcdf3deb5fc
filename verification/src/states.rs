//! How far the protocol has come with a client.

use vstd::prelude::*;

verus! {

/// The connection is open and nothing has been read.
pub struct Opened;

/// The authentication methods that the client supports have been read.
pub struct AuthMethodsRead;

/// The authentication method has been chosen.
pub struct AuthMethodChosen;

/// The client has been let in.
pub struct Authenticated;

/// The client's request has been read.
pub struct CommandRead;

} // verus!
