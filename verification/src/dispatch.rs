//! The notification dispatcher and the activation of the system.
//!
//! Activation turns the configuration into one context value holding the
//! target set and the bus handle; it succeeds entirely or not at all, so the
//! core never runs partially initialized. The dispatcher routes
//! transaction-shaped payloads into the filter-and-forward engine; every
//! other payload kind only reaches the logging collaborator, and deprecated
//! wire versions are an internal-consistency fault.

use vstd::prelude::*;
use crate::engine::{handle, handled, HandleOutcome, TransactionNotification};
use crate::errors::ActivationError;
use crate::ident::base58_decoded;
use crate::idset::IdentifierSet;
use crate::publisher::{bus_url_ok, RedisManager};

verus! {

/// The configuration, as plain values: where the bus lives, and the target
/// program identifiers in their canonical string form.
pub struct Config {
    /// Connection string for the pub/sub bus.
    pub redis_url: String,
    /// The identifiers to watch, one canonical string each.
    pub target_program_ids: Vec<String>,
}

/// Whether every configured identifier string decodes.
pub open spec fn all_ids_decode(c: Config) -> bool {
    forall|i: int|
        0 <= i < c.target_program_ids@.len() ==> base58_decoded(
            (#[trigger] c.target_program_ids@[i])@,
        ) is Some
}

/// The one instance of the system: the immutable target set and the shared
/// bus handle, created together and only ever read afterwards.
pub struct Context {
    /// The identifiers being watched.
    pub targets: IdentifierSet,
    /// The handle to the pub/sub bus.
    pub publisher: RedisManager,
}

/// Builds the context from the configuration: decodes every target
/// identifier and prepares the bus client. Aborts on the first undecodable
/// identifier or on a rejected connection string, producing no context at
/// all — the core never holds a target set without a sink, or a sink without
/// a target set.
pub fn activate(config: &Config) -> (r: Result<Context, ActivationError>)
    ensures
        r is Ok <==> (all_ids_decode(*config) && bus_url_ok(config.redis_url@)),
        r is Ok ==> r.unwrap().targets.wf(),
        r is Ok ==> r.unwrap().targets@.len() == config.target_program_ids@.len(),
        r is Ok ==> forall|i: int|
            0 <= i < config.target_program_ids@.len() ==> #[trigger] r.unwrap().targets@[i]
                == base58_decoded(config.target_program_ids@[i]@).unwrap(),
        (r matches Err(ActivationError::Config(e)) ==> {
            &&& e.index < config.target_program_ids@.len()
            &&& base58_decoded(config.target_program_ids@[e.index as int]@) is None
            &&& e.input@ == config.target_program_ids@[e.index as int]@
            &&& forall|j: int|
                0 <= j < e.index ==> base58_decoded(
                    (#[trigger] config.target_program_ids@[j])@,
                ) is Some
        }),
        (r matches Err(ActivationError::Connection(_)) ==> all_ids_decode(*config) && !bus_url_ok(
            config.redis_url@,
        )),
{
    let targets = match IdentifierSet::build(&config.target_program_ids) {
        Ok(t) => t,
        Err(e) => {
            return Err(ActivationError::Config(e));
        },
    };
    let publisher = match RedisManager::new(config.redis_url.as_str()) {
        Ok(p) => p,
        Err(e) => {
            return Err(ActivationError::Connection(e));
        },
    };
    Ok(Context { targets, publisher })
}

/// A transaction payload in one of the two supported wire versions. Both
/// carry the same information for this core and normalize to one value.
pub enum TransactionPayload {
    /// The first supported wire version.
    V1(TransactionNotification),
    /// The second supported wire version.
    V2(TransactionNotification),
}

/// The notification a transaction payload normalizes to.
pub open spec fn spec_normalized(p: TransactionPayload) -> TransactionNotification {
    match p {
        TransactionPayload::V1(n) => n,
        TransactionPayload::V2(n) => n,
    }
}

/// Normalizes either supported wire version into the single notification
/// value the engine consumes.
pub fn normalize(p: TransactionPayload) -> (n: TransactionNotification)
    ensures
        n == spec_normalized(p),
{
    match p {
        TransactionPayload::V1(n) => n,
        TransactionPayload::V2(n) => n,
    }
}

/// Wire versions of an account-update payload. Only the newest is supported;
/// the host guarantees the deprecated ones never arrive in a correctly
/// configured deployment.
pub enum AccountPayload {
    /// Deprecated first wire version.
    V1,
    /// Deprecated second wire version.
    V2,
    /// The supported wire version.
    V3,
}

/// One host-delivered notification payload, by kind and wire version.
pub enum Payload {
    /// A transaction, in a supported wire version.
    Transaction(TransactionPayload),
    /// An account update.
    Account(AccountPayload),
    /// A slot status change.
    SlotStatus,
    /// Block metadata.
    BlockMetadata,
    /// A ledger entry.
    Entry,
}

/// Transaction payloads must carry a well-formed notification.
pub open spec fn payload_wf(p: Payload) -> bool {
    p matches Payload::Transaction(t) ==> spec_normalized(t).wf()
}

/// Where one payload went.
pub enum Disposition {
    /// The payload was transaction-shaped and went through the
    /// filter-and-forward engine, with this outcome.
    Forwarded(HandleOutcome),
    /// The payload only goes to the logging collaborator; it never touches
    /// the target set or the bus.
    Logged,
    /// A deprecated wire version was delivered: an integration error, fatal
    /// to the process, not a condition to recover from.
    Fault,
}

/// Routes one host payload. Transaction payloads are normalized and handled
/// by the engine; deprecated account versions are a fault; every other
/// payload is only logged.
pub fn dispatch(payload: Payload, context: &Context) -> (r: Disposition)
    requires
        payload_wf(payload),
    ensures
        (payload matches Payload::Transaction(t) ==> r matches Disposition::Forwarded(o)
            && handled(spec_normalized(t), context.targets, o)),
        (payload matches Payload::Account(v) ==> (r is Fault <==> !(v is V3)) && (v is V3
            ==> r is Logged)),
        (payload is SlotStatus || payload is BlockMetadata || payload is Entry) ==> r is Logged,
{
    match payload {
        Payload::Transaction(t) => {
            let n = normalize(t);
            let outcome = handle(&n, &context.targets, &context.publisher);
            Disposition::Forwarded(outcome)
        },
        Payload::Account(AccountPayload::V3) => Disposition::Logged,
        Payload::Account(_) => Disposition::Fault,
        Payload::SlotStatus => Disposition::Logged,
        Payload::BlockMetadata => Disposition::Logged,
        Payload::Entry => Disposition::Logged,
    }
}

} // verus!
