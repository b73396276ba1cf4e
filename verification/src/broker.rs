//! How the broadcast channel is reached.

use vstd::prelude::*;

verus! {

/// `redis::ConnectionInfo`, where and how to connect. Nothing of its inside
/// is known here.
#[verifier::external_type_specification]
#[verifier::external_body]
pub struct ExConnectionInfo(redis::ConnectionInfo);

/// `redis::RedisError`. Nothing of its inside is known here.
#[verifier::external_type_specification]
#[verifier::external_body]
pub struct ExRedisError(redis::RedisError);

/// What the connections of a pool are opened with.
pub struct RedisConnectionManager {
    connection_info: redis::ConnectionInfo,
}

impl RedisConnectionManager {
    /// What the manager opens its connections with.
    pub closed spec fn info(self) -> redis::ConnectionInfo {
        self.connection_info
    }

    /// A manager for the connections to an address. `params` is what the
    /// reading of the address gave: the manager holds the connection info
    /// that was read, and an address that could not be read is reported as
    /// it was. No connection is opened.
    pub fn new(params: Result<redis::ConnectionInfo, redis::RedisError>) -> (manager: Result<
        RedisConnectionManager,
        redis::RedisError,
    >)
        ensures
            match params {
                Ok(info) => manager matches Ok(made) && made.info() == info,
                Err(error) => manager matches Err(handed) && handed == error,
            },
    {
        match params {
            Ok(connection_info) => Ok(RedisConnectionManager { connection_info }),
            Err(error) => Err(error),
        }
    }

    /// What the manager opens its connections with.
    pub fn connection_info(&self) -> (info: &redis::ConnectionInfo)
        ensures
            *info == self.info(),
    {
        &self.connection_info
    }
}

} // verus!
