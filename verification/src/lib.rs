//! A filter-and-publish bridge for streaming blockchain notifications.
//!
//! The library receives transaction notifications, filters them against a
//! configured set of target identifiers (program public keys), and republishes
//! matches onto a pub/sub channel.

mod decimal;
mod dispatch;
mod engine;
mod errors;
mod ident;
mod idset;
mod publisher;

pub use decimal::{decimal_digits, digit_char, u64_to_decimal};
pub use dispatch::{
    activate, all_ids_decode, dispatch, normalize, payload_wf, spec_normalized, AccountPayload,
    Config, Context, Disposition, Payload, TransactionPayload,
};
pub use engine::{
    build_message, channel_name, handle, handled, has_match, lemma_empty_targets_never_match,
    lemma_message_from_single_notification, lemma_repeated_delivery_attempts_twice, message_text,
    references_target, signature_base58, HandleOutcome, TransactionNotification,
};
pub use errors::{ActivationError, ConfigError, ConnectionError, PublishError};
pub use ident::{base58_decoded, base58_encoded, Identifier};
pub use idset::IdentifierSet;
pub use publisher::{bus_url_ok, RedisManager};
