use token_bridge_relayer::admin::{initialize, set_pause_for_transfers};
use token_bridge_relayer::error::TokenBridgeRelayerError;
use token_bridge_relayer::foreign_contract::ForeignContractRegistry;
use token_bridge_relayer::message::TokenBridgeRelayerMessage;
use token_bridge_relayer::redeem::{
    complete_native_transfer_with_relay, complete_wrapped_transfer_with_relay, Redemption,
};
use token_bridge_relayer::registered_token::TokenRegistry;
use token_bridge_relayer::sender_config::SenderConfig;
use token_bridge_relayer::signer_sequence::SignerSequence;
use token_bridge_relayer::transfer::transfer_native_tokens_with_relay;

const OWNER: [u8; 32] = [1; 32];
const ASSISTANT: [u8; 32] = [2; 32];
const FEE_RECIPIENT: [u8; 32] = [3; 32];
const SEQUENCE: [u8; 32] = [6; 32];
const MINT: [u8; 32] = [7; 32];
const NATIVE_MINT: [u8; 32] = [8; 32];
const RECIPIENT: [u8; 32] = [9; 32];
const PAYER: [u8; 32] = [10; 32];
const EMITTER: [u8; 32] = [0xcd; 32];
const ENDPOINT: [u8; 32] = [0xef; 32];
const CHAIN: u16 = 2;

/// A sender config, a registry holding `MINT` (at $1, native cap 10^9) and
/// the native mint, and a contract for `CHAIN` charging `fee` USD units.
fn setup(fee: u64) -> (SenderConfig, TokenRegistry, ForeignContractRegistry) {
    let (sender, _, _) =
        initialize(&OWNER, &FEE_RECIPIENT, &ASSISTANT, 0, 0, &SEQUENCE).unwrap();
    let mut tokens = TokenRegistry::new();
    tokens
        .register_token(&sender, &OWNER, &MINT, false, 100_000_000, 1_000_000_000)
        .unwrap();
    tokens
        .register_token(&sender, &OWNER, &NATIVE_MINT, true, 100_000_000, 0)
        .unwrap();
    let mut contracts = ForeignContractRegistry::new();
    contracts
        .register_foreign_contract(&sender, &OWNER, CHAIN, &EMITTER, &ENDPOINT, fee)
        .unwrap();
    (sender, tokens, contracts)
}

#[test]
fn outbound_requires_strict_excess() {
    // At $1 swap rate and equal precisions the token fee equals the USD fee.
    let (sender, tokens, contracts) = setup(1_000_000);
    let mut seq = SignerSequence { value: 0 };
    let to_native: u64 = 500;

    // Equality of amount and swap-plus-fee is not enough.
    let r = transfer_native_tokens_with_relay(
        &sender, &tokens, &contracts, &mut seq, &MINT, 8, false, 1_000_500, to_native, CHAIN,
        &RECIPIENT, false,
    );
    assert_eq!(r.unwrap_err(), TokenBridgeRelayerError::InsufficientFunds);
    assert_eq!(seq.value, 0);

    // One more unit leaves a positive remainder for the recipient.
    let r = transfer_native_tokens_with_relay(
        &sender, &tokens, &contracts, &mut seq, &MINT, 8, false, 1_000_501, to_native, CHAIN,
        &RECIPIENT, false,
    )
    .unwrap();
    assert_eq!(r.amount, 1_000_501);
    let TokenBridgeRelayerMessage::TransferWithRelay {
        target_relayer_fee,
        to_native_token_amount,
        recipient,
    } = r.message;
    assert_eq!(target_relayer_fee, 1_000_000);
    assert_eq!(to_native_token_amount, 500);
    assert_eq!(recipient, RECIPIENT);
    assert_eq!(seq.value, 1);
}

#[test]
fn outbound_truncates_and_normalizes() {
    let (sender, tokens, contracts) = setup(1_000_000);
    let mut seq = SignerSequence { value: 41 };
    let r = transfer_native_tokens_with_relay(
        &sender,
        &tokens,
        &contracts,
        &mut seq,
        &MINT,
        10,
        false,
        12_345_678_901,
        1_000,
        CHAIN,
        &RECIPIENT,
        false,
    )
    .unwrap();
    // The bridge carries 8 decimals: the two low digits are dropped.
    assert_eq!(r.amount, 12_345_678_900);
    let TokenBridgeRelayerMessage::TransferWithRelay {
        target_relayer_fee,
        to_native_token_amount,
        ..
    } = r.message;
    // The $1.00 fee in 10-decimal token units is 10^10 * 10^-2, normalized
    // back down by 10^2.
    assert_eq!(target_relayer_fee, 1_000_000);
    assert_eq!(to_native_token_amount, 10);
    assert_eq!(seq.value, 42);
}

#[test]
fn outbound_rejections() {
    let (mut sender, tokens, contracts) = setup(1_000_000);
    let mut seq = SignerSequence { value: 0 };

    // Paused transfers are rejected before anything else.
    set_pause_for_transfers(&mut sender, &OWNER, true).unwrap();
    let r = transfer_native_tokens_with_relay(
        &sender, &tokens, &contracts, &mut seq, &MINT, 8, false, 10_000_000, 0, CHAIN, &RECIPIENT,
        false,
    );
    assert_eq!(
        r.unwrap_err(),
        TokenBridgeRelayerError::OutboundTransfersPaused
    );
    set_pause_for_transfers(&mut sender, &OWNER, false).unwrap();

    // An unregistered mint.
    let r = transfer_native_tokens_with_relay(
        &sender,
        &tokens,
        &contracts,
        &mut seq,
        &[99; 32],
        8,
        false,
        10_000_000,
        0,
        CHAIN,
        &RECIPIENT,
        false,
    );
    assert_eq!(r.unwrap_err(), TokenBridgeRelayerError::TokenNotRegistered);

    // An unregistered destination chain.
    let r = transfer_native_tokens_with_relay(
        &sender, &tokens, &contracts, &mut seq, &MINT, 8, false, 10_000_000, 0, 3, &RECIPIENT,
        false,
    );
    assert_eq!(r.unwrap_err(), TokenBridgeRelayerError::ChainNotRegistered);

    // An amount that truncates to zero.
    let r = transfer_native_tokens_with_relay(
        &sender, &tokens, &contracts, &mut seq, &MINT, 10, false, 99, 0, CHAIN, &RECIPIENT, false,
    );
    assert_eq!(r.unwrap_err(), TokenBridgeRelayerError::ZeroBridgeAmount);

    // Wrapping the native currency demands the native mint.
    let r = transfer_native_tokens_with_relay(
        &sender, &tokens, &contracts, &mut seq, &MINT, 8, false, 10_000_000, 0, CHAIN, &RECIPIENT,
        true,
    );
    assert_eq!(r.unwrap_err(), TokenBridgeRelayerError::NativeMintRequired);

    // A zero recipient address.
    let r = transfer_native_tokens_with_relay(
        &sender, &tokens, &contracts, &mut seq, &MINT, 8, false, 10_000_000, 0, CHAIN, &[0; 32],
        false,
    );
    assert_eq!(r.unwrap_err(), TokenBridgeRelayerError::InvalidRecipient);

    // A nonzero swap request that normalizes to zero.
    let r = transfer_native_tokens_with_relay(
        &sender, &tokens, &contracts, &mut seq, &MINT, 10, false, 10_000_000_000, 50, CHAIN,
        &RECIPIENT, false,
    );
    assert_eq!(
        r.unwrap_err(),
        TokenBridgeRelayerError::InvalidToNativeAmount
    );

    // A fee too large to express in token units.
    let (sender2, mut tokens2, mut contracts2) = {
        let (s, _, _) = initialize(&OWNER, &FEE_RECIPIENT, &ASSISTANT, 0, 0, &SEQUENCE).unwrap();
        (s, TokenRegistry::new(), ForeignContractRegistry::new())
    };
    tokens2
        .register_token(&sender2, &OWNER, &MINT, false, 1, 0)
        .unwrap();
    contracts2
        .register_foreign_contract(&sender2, &OWNER, CHAIN, &EMITTER, &ENDPOINT, u64::MAX)
        .unwrap();
    let r = transfer_native_tokens_with_relay(
        &sender2, &tokens2, &contracts2, &mut seq, &MINT, 8, false, 10_000_000, 0, CHAIN,
        &RECIPIENT, false,
    );
    assert_eq!(
        r.unwrap_err(),
        TokenBridgeRelayerError::FeeCalculationError
    );

    // No rejection consumed a sequence number.
    assert_eq!(seq.value, 0);
}

fn relay_message(fee: u64, to_native: u64) -> TokenBridgeRelayerMessage {
    TokenBridgeRelayerMessage::TransferWithRelay {
        target_relayer_fee: fee,
        to_native_token_amount: to_native,
        recipient: RECIPIENT,
    }
}

#[test]
fn redeem_relayed_split_conserves_amount() {
    let (_, tokens, contracts) = setup(0);
    let message = relay_message(1_000_000, 50_000_000);
    let r = complete_wrapped_transfer_with_relay(
        &tokens,
        &contracts,
        &MINT,
        &NATIVE_MINT,
        8,
        false,
        CHAIN,
        &EMITTER,
        100_000_000,
        &message,
        &RECIPIENT,
        &PAYER,
    )
    .unwrap();
    // At $1 for both assets, 5*10^7 token units swap for 5*10^8 native base
    // units (the decimal difference is one digit).
    assert_eq!(
        r,
        Redemption::Relayed {
            native_amount_out: 500_000_000,
            amount_for_fee_recipient: 51_000_000,
            amount_for_recipient: 49_000_000,
        }
    );
    // The two token payments sum exactly to the transferred amount.
    match r {
        Redemption::Relayed {
            amount_for_fee_recipient,
            amount_for_recipient,
            ..
        } => assert_eq!(amount_for_fee_recipient + amount_for_recipient, 100_000_000),
        _ => unreachable!(),
    }
}

#[test]
fn redeem_self_redemption_pays_everything() {
    let (_, tokens, contracts) = setup(0);
    let message = relay_message(1_000_000, 50_000_000);
    let r = complete_wrapped_transfer_with_relay(
        &tokens,
        &contracts,
        &MINT,
        &NATIVE_MINT,
        8,
        false,
        CHAIN,
        &EMITTER,
        100_000_000,
        &message,
        &RECIPIENT,
        &RECIPIENT,
    )
    .unwrap();
    assert_eq!(r, Redemption::SelfRedeem { amount: 100_000_000 });
}

#[test]
fn redeem_native_mint_unwraps() {
    let (_, tokens, contracts) = setup(0);
    let message = TokenBridgeRelayerMessage::TransferWithRelay {
        target_relayer_fee: 1_000_000,
        to_native_token_amount: 0,
        recipient: RECIPIENT,
    };
    let r = complete_native_transfer_with_relay(
        &tokens,
        &contracts,
        &NATIVE_MINT,
        &NATIVE_MINT,
        9,
        false,
        CHAIN,
        &EMITTER,
        100_000_000,
        &message,
        &RECIPIENT,
        &PAYER,
    )
    .unwrap();
    // The 8-decimal amounts scale up by one digit for the 9-decimal native
    // mint; the payer forwards the amount less the fee.
    assert_eq!(
        r,
        Redemption::Unwrap {
            native_transfer_amount: 990_000_000
        }
    );

    // On self-redemption the payer keeps everything as the recipient.
    let r = complete_native_transfer_with_relay(
        &tokens,
        &contracts,
        &NATIVE_MINT,
        &NATIVE_MINT,
        9,
        false,
        CHAIN,
        &EMITTER,
        100_000_000,
        &message,
        &RECIPIENT,
        &RECIPIENT,
    )
    .unwrap();
    assert_eq!(
        r,
        Redemption::Unwrap {
            native_transfer_amount: 0
        }
    );
}

#[test]
fn redeem_rejections() {
    let (_, tokens, contracts) = setup(0);
    let message = relay_message(1_000_000, 0);

    // An already-claimed transfer.
    let r = complete_wrapped_transfer_with_relay(
        &tokens,
        &contracts,
        &MINT,
        &NATIVE_MINT,
        8,
        true,
        CHAIN,
        &EMITTER,
        100_000_000,
        &message,
        &RECIPIENT,
        &PAYER,
    );
    assert_eq!(r.unwrap_err(), TokenBridgeRelayerError::AlreadyRedeemed);

    // An emitter address that disagrees with the registered contract.
    let r = complete_wrapped_transfer_with_relay(
        &tokens,
        &contracts,
        &MINT,
        &NATIVE_MINT,
        8,
        false,
        CHAIN,
        &[0x11; 32],
        100_000_000,
        &message,
        &RECIPIENT,
        &PAYER,
    );
    assert_eq!(
        r.unwrap_err(),
        TokenBridgeRelayerError::InvalidForeignContract
    );

    // An emitter chain nobody registered.
    let r = complete_wrapped_transfer_with_relay(
        &tokens,
        &contracts,
        &MINT,
        &NATIVE_MINT,
        8,
        false,
        7,
        &EMITTER,
        100_000_000,
        &message,
        &RECIPIENT,
        &PAYER,
    );
    assert_eq!(
        r.unwrap_err(),
        TokenBridgeRelayerError::InvalidForeignContract
    );

    // A mint nobody registered.
    let r = complete_wrapped_transfer_with_relay(
        &tokens,
        &contracts,
        &[99; 32],
        &NATIVE_MINT,
        8,
        false,
        CHAIN,
        &EMITTER,
        100_000_000,
        &message,
        &RECIPIENT,
        &PAYER,
    );
    assert_eq!(r.unwrap_err(), TokenBridgeRelayerError::TokenNotRegistered);

    // A recipient account that is not the one the payload names.
    let r = complete_wrapped_transfer_with_relay(
        &tokens,
        &contracts,
        &MINT,
        &NATIVE_MINT,
        8,
        false,
        CHAIN,
        &EMITTER,
        100_000_000,
        &message,
        &PAYER,
        &PAYER,
    );
    assert_eq!(r.unwrap_err(), TokenBridgeRelayerError::InvalidRecipient);
}

#[test]
fn redeem_swap_overflow_is_reported() {
    // A token at the minimal swap rate against a maximal native rate makes
    // the native swap rate overflow 64 bits.
    let (sender, _, _) = initialize(&OWNER, &FEE_RECIPIENT, &ASSISTANT, 0, 0, &SEQUENCE).unwrap();
    let mut tokens = TokenRegistry::new();
    tokens
        .register_token(&sender, &OWNER, &MINT, false, 1, 1_000_000_000)
        .unwrap();
    tokens
        .register_token(&sender, &OWNER, &NATIVE_MINT, true, u64::MAX, 0)
        .unwrap();
    let mut contracts = ForeignContractRegistry::new();
    contracts
        .register_foreign_contract(&sender, &OWNER, CHAIN, &EMITTER, &ENDPOINT, 0)
        .unwrap();
    let message = relay_message(0, 50_000_000);
    let r = complete_wrapped_transfer_with_relay(
        &tokens,
        &contracts,
        &MINT,
        &NATIVE_MINT,
        8,
        false,
        CHAIN,
        &EMITTER,
        100_000_000,
        &message,
        &RECIPIENT,
        &PAYER,
    );
    assert_eq!(
        r.unwrap_err(),
        TokenBridgeRelayerError::InvalidSwapCalculation
    );
}
