//! The identifiers of Hive's user pool.

use vstd::prelude::*;

verus! {

/// The ID of the client used to connect to Hive's Cognito User Pool: the
/// web portal's client ID.
pub const CLIENT_ID: &'static str = "3rl4i0ajrmtdm8sbre54p9dvd9";

/// The ID of the Cognito User Pool.
pub const POOL_ID: &'static str = "eu-west-1_SamNfoWtf";

/// The region the user pool is in: the start of [`POOL_ID`].
pub const REGION: &'static str = "eu-west-1";

} // verus!
