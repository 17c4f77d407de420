//! The filter-and-forward engine: given one transaction notification, tests
//! its identifiers against the target set and, on a match, builds the publish
//! message and hands it to the bus.
//!
//! The engine holds no mutable state between invocations; notifications are
//! processed independently, with no ordering and no deduplication across
//! calls.

use vstd::prelude::*;
use vstd::string::StringExecFns;
use crate::decimal::{decimal_digits, u64_to_decimal};
use crate::errors::PublishError;
use crate::ident::Identifier;
use crate::idset::IdentifierSet;
use crate::publisher::RedisManager;

verus! {

/// The base58 rendering that the signature type's `Debug` gives to the 64
/// signature bytes.
pub uninterp spec fn signature_base58(b: Seq<u8>) -> Seq<char>;

/// Relies on `solana_sdk::signature::Signature`'s `Debug`: the base58
/// rendering of the 64 signature bytes, a function of the bytes alone.
#[verifier::external_body]
fn format_signature(signature: &Vec<u8>) -> (r: String)
    requires
        signature@.len() == 64,
    ensures
        r@ == signature_base58(signature@),
{
    let mut array = [0u8; 64];
    array.copy_from_slice(signature);
    let sig = solana_sdk::signature::Signature::from(array);
    format!("{:?}", sig)
}

/// One transaction notification, as the engine consumes it: the ordered
/// identifiers the transaction references, its slot, and its signature.
#[derive(Debug)]
pub struct TransactionNotification {
    /// Logical position of the transaction in the chain.
    pub slot: u64,
    /// Opaque byte token uniquely identifying the transaction.
    pub signature: Vec<u8>,
    /// The accounts and programs the transaction references, in wire order.
    pub identifiers: Vec<Identifier>,
}

impl TransactionNotification {
    /// The signature and every referenced identifier have their fixed sizes.
    pub open spec fn wf(self) -> bool {
        &&& self.signature@.len() == 64
        &&& forall|i: int|
            0 <= i < self.identifiers@.len() ==> (#[trigger] self.identifiers@[i]).wf()
    }
}

/// Whether the notification references at least one target: a non-empty
/// intersection of its identifier sequence with the target set.
pub open spec fn has_match(n: TransactionNotification, targets: IdentifierSet) -> bool {
    exists|i: int|
        0 <= i < n.identifiers@.len() && targets.spec_contains(#[trigger] n.identifiers@[i]@)
}

/// The textual form of a publish message: the slot in decimal and the
/// signature in base58, in a fixed human-diagnosable layout.
pub open spec fn message_text(slot: u64, signature: Seq<u8>) -> Seq<char> {
    "Slot: "@ + decimal_digits(slot as nat) + ", Signature: "@ + signature_base58(signature)
}

/// The name of the one channel matched notifications are published on.
pub fn channel_name() -> (r: &'static str)
    ensures
        r@ == "program_transactions"@,
{
    "program_transactions"
}

/// Whether the notification references at least one target, by scanning its
/// identifier sequence in order. Only non-emptiness of the intersection
/// matters, so the scan stops at the first hit.
pub fn references_target(n: &TransactionNotification, targets: &IdentifierSet) -> (r: bool)
    ensures
        r == has_match(*n, *targets),
{
    let mut i: usize = 0;
    while i < n.identifiers.len()
        invariant
            i <= n.identifiers@.len(),
            forall|j: int|
                0 <= j < i ==> !targets.spec_contains((#[trigger] n.identifiers@[j])@),
        decreases n.identifiers@.len() - i,
    {
        if targets.contains(&n.identifiers[i]) {
            return true;
        }
        i = i + 1;
    }
    false
}

/// Builds the publish message for a matched notification.
pub fn build_message(slot: u64, signature: &Vec<u8>) -> (r: String)
    requires
        signature@.len() == 64,
    ensures
        r@ == message_text(slot, signature@),
{
    let head = "Slot: ".to_owned();
    let with_slot = head.concat(u64_to_decimal(slot).as_str());
    let with_label = with_slot.concat(", Signature: ");
    let full = with_label.concat(format_signature(signature).as_str());
    proof {
        assert(full@ =~= message_text(slot, signature@));
    }
    full
}

/// How one notification was disposed of. Every failure is terminal to this
/// one notification: nothing is retried and nothing propagates.
#[derive(Debug)]
pub enum HandleOutcome {
    /// No identifier of the notification is a target; nothing was published.
    NoMatch,
    /// A target was hit and the bus accepted the message.
    Published {
        /// The message that was sent.
        message: String,
    },
    /// A target was hit but the publish attempt failed; the notification is
    /// still treated as fully handled.
    PublishFailed {
        /// The message that was attempted.
        message: String,
        /// What the bus reported.
        error: PublishError,
    },
}

/// What `handle` guarantees of its outcome: a publish is attempted if and
/// only if the notification intersects the target set, and any attempted
/// message is built from this notification's slot and signature alone.
pub open spec fn handled(
    n: TransactionNotification,
    targets: IdentifierSet,
    r: HandleOutcome,
) -> bool {
    &&& (r is NoMatch <==> !has_match(n, targets))
    &&& (r matches HandleOutcome::Published { message } ==> message@ == message_text(
        n.slot,
        n.signature@,
    ))
    &&& (r matches HandleOutcome::PublishFailed { message, error } ==> message@ == message_text(
        n.slot,
        n.signature@,
    ))
}

/// Filters one notification against the target set and forwards a match to
/// the bus. No error surfaces to the caller: a failed publish is reported in
/// the outcome and the notification counts as fully handled either way.
pub fn handle(
    notification: &TransactionNotification,
    identifiers: &IdentifierSet,
    sink: &RedisManager,
) -> (r: HandleOutcome)
    requires
        notification.wf(),
    ensures
        handled(*notification, *identifiers, r),
        r is NoMatch <==> !has_match(*notification, *identifiers),
{
    if !references_target(notification, identifiers) {
        return HandleOutcome::NoMatch;
    }
    let message = build_message(notification.slot, &notification.signature);
    match sink.publish(channel_name(), message.as_str()) {
        Ok(_) => HandleOutcome::Published { message },
        Err(error) => HandleOutcome::PublishFailed { message, error },
    }
}

/// An empty target set intersects no notification, so nothing is ever
/// published for any notification.
pub proof fn lemma_empty_targets_never_match(n: TransactionNotification, targets: IdentifierSet)
    requires
        targets@.len() == 0,
    ensures
        !has_match(n, targets),
{
}

/// A message handed to the bus is built from its own notification alone —
/// its slot and its signature — never from the state of another notification
/// being handled at the same time. So two handled notifications produce
/// byte-identical messages only where slot and signature render identically,
/// and no message ever mixes values of two notifications.
pub proof fn lemma_message_from_single_notification(
    n1: TransactionNotification,
    n2: TransactionNotification,
    targets: IdentifierSet,
    r1: HandleOutcome,
    r2: HandleOutcome,
)
    requires
        handled(n1, targets, r1),
        handled(n2, targets, r2),
    ensures
        (r1 matches HandleOutcome::Published { message } ==> message@ == message_text(
            n1.slot,
            n1.signature@,
        )),
        (r1 matches HandleOutcome::PublishFailed { message, error } ==> message@ == message_text(
            n1.slot,
            n1.signature@,
        )),
        (r2 matches HandleOutcome::Published { message } ==> message@ == message_text(
            n2.slot,
            n2.signature@,
        )),
        (r2 matches HandleOutcome::PublishFailed { message, error } ==> message@ == message_text(
            n2.slot,
            n2.signature@,
        )),
{
}

/// Filtering is deliberately not idempotent: two deliveries of the same
/// matching notification each make their own publish attempt — neither
/// outcome is `NoMatch`, and both attempts carry the message built from that
/// notification alone. No deduplication ties the two calls together.
pub proof fn lemma_repeated_delivery_attempts_twice(
    n: TransactionNotification,
    targets: IdentifierSet,
    first: HandleOutcome,
    second: HandleOutcome,
)
    requires
        has_match(n, targets),
        handled(n, targets, first),
        handled(n, targets, second),
    ensures
        !(first is NoMatch),
        !(second is NoMatch),
{
}

} // verus!
