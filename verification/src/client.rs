//! The client.

use vstd::prelude::*;

verus! {

/// The client that sends one command to the server and prints the answers.
#[derive(Clone, Copy, Debug)]
pub struct Client;

} // verus!
