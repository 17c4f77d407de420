//! The publisher: a connection-managing client to the external pub/sub bus.
//!
//! A fresh transport connection is acquired per publish call, so concurrent
//! calls never share a connection and no message can interleave with another
//! on the wire. Each call is one attempt with one outcome: a failure is
//! returned, never raised, and nothing is retried.

use vstd::prelude::*;
use crate::errors::{ConnectionError, PublishError};

verus! {

/// Whether `redis::Client::open` accepts a connection string. Opening only
/// parses the string — no traffic is sent — so acceptance is a function of
/// the string alone.
pub uninterp spec fn bus_url_ok(s: Seq<char>) -> bool;

#[verifier::external_type_specification]
#[verifier::external_body]
pub struct ExRedisClient(redis::Client);

#[verifier::external_type_specification]
#[verifier::external_body]
pub struct ExRedisConnection(redis::Connection);

#[verifier::external_type_specification]
#[verifier::external_body]
pub struct ExRedisError(redis::RedisError);

/// Relies on `redis::Client::open`: parses the connection string into a lazy
/// client without touching the network, succeeding exactly on well-formed
/// Redis URLs.
#[verifier::external_body]
fn open_client(url: &str) -> (r: Result<redis::Client, redis::RedisError>)
    ensures
        r is Ok <==> bus_url_ok(url@),
{
    redis::Client::open(url)
}

/// Relies on `redis::Client::get_connection`: opens one fresh transport
/// connection to the bus. The outcome depends on the network, so nothing is
/// promised of it.
#[verifier::external_body]
fn connect(client: &redis::Client) -> Result<redis::Connection, redis::RedisError> {
    client.get_connection()
}

/// Relies on `redis::Commands::publish`: sends one message on one channel
/// over the given connection. The outcome depends on the network, so nothing
/// is promised of it.
#[verifier::external_body]
fn publish_on(
    conn: &mut redis::Connection,
    channel: &str,
    message: &str,
) -> Result<(), redis::RedisError> {
    redis::Commands::publish::<_, _, ()>(conn, channel, message)
}

/// Relies on `redis::RedisError`'s `Display` to describe a failure.
#[verifier::external_body]
fn error_detail(e: &redis::RedisError) -> String {
    format!("{}", e)
}

/// The shared handle to the external bus, owned for the whole lifetime of
/// the process. Holds no mutable state of its own: every publish call
/// acquires an independent connection, so the handle may be shared by
/// concurrently handled notifications.
pub struct RedisManager {
    client: redis::Client,
}

impl RedisManager {
    /// Prepares a client for the bus named by `redis_url`. Fails exactly
    /// when the connection string is rejected; failure here is fatal to
    /// startup, since the system has no degraded mode without a sink.
    pub fn new(redis_url: &str) -> (r: Result<RedisManager, ConnectionError>)
        ensures
            r is Ok <==> bus_url_ok(redis_url@),
    {
        match open_client(redis_url) {
            Ok(client) => Ok(RedisManager { client }),
            Err(e) => Err(ConnectionError { detail: error_detail(&e) }),
        }
    }

    /// Sends one message on one channel: one attempt, one outcome. A fresh
    /// connection is acquired for the call (reconnect-on-demand), and any
    /// failure — connecting or sending — is returned as a `PublishError`,
    /// never raised. Delivery is at-most-once and best-effort by design.
    pub fn publish(&self, channel: &str, message: &str) -> Result<(), PublishError> {
        let mut conn = match connect(&self.client) {
            Ok(c) => c,
            Err(e) => {
                return Err(PublishError { detail: error_detail(&e) });
            },
        };
        match publish_on(&mut conn, channel, message) {
            Ok(u) => Ok(u),
            Err(e) => Err(PublishError { detail: error_detail(&e) }),
        }
    }
}

} // verus!
