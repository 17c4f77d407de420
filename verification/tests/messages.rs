use geyser_filter::{build_message, channel_name, u64_to_decimal};
use solana_sdk::signature::Signature;

#[test]
fn decimal_rendering_exact_values() {
    assert_eq!(u64_to_decimal(0), "0");
    assert_eq!(u64_to_decimal(7), "7");
    assert_eq!(u64_to_decimal(42), "42");
    assert_eq!(u64_to_decimal(1000), "1000");
    assert_eq!(u64_to_decimal(987654321), "987654321");
    assert_eq!(u64_to_decimal(u64::MAX), "18446744073709551615");
}

#[test]
fn message_has_the_fixed_textual_form() {
    let mut sig_bytes = [0u8; 64];
    sig_bytes[0] = 1;
    sig_bytes[63] = 255;
    let expected = format!(
        "Slot: {}, Signature: {:?}",
        314159u64,
        Signature::from(sig_bytes)
    );
    let message = build_message(314159, &sig_bytes.to_vec());
    assert_eq!(message, expected);
}

#[test]
fn message_renders_signature_in_base58_not_raw() {
    let message = build_message(1, &vec![0u8; 64]);
    // The all-zero signature renders as 64 ones in base58.
    assert_eq!(
        message,
        format!("Slot: 1, Signature: {}", "1".repeat(64))
    );
}

#[test]
fn channel_is_fixed() {
    assert_eq!(channel_name(), "program_transactions");
}
