//! Wire codec for the cross-chain relay payload.
//!
//! The payload is a tagged union with a single variant today. It serializes
//! to exactly 97 bytes: a 1-byte discriminant, then each 64-bit amount as a
//! 32-byte big-endian word (24 zero bytes followed by the 8 value bytes — the
//! 32-byte-word convention of the chains this payload crosses to), then the
//! 32-byte recipient. Decoding rejects any other length, any unknown
//! discriminant, and any nonzero padding byte, since nonzero padding would
//! mean a value that does not fit in 64 bits.

use vstd::prelude::*;

verus! {

broadcast use vstd::array::group_array_axioms;

/// Discriminant of the `TransferWithRelay` variant.
pub const PAYLOAD_ID_TRANSFER_WITH_RELAY: u8 = 1;

/// Width of the zero padding before each 8-byte big-endian amount.
pub const PAD_U64: usize = 24;

/// The cross-chain relay payload. The only valid payload today is
/// `TransferWithRelay`, discriminant 1.
#[derive(Clone, Copy, Debug)]
pub enum TokenBridgeRelayerMessage {
    TransferWithRelay {
        /// Relayer fee in bridge-normalized (8-decimal) token units.
        target_relayer_fee: u64,
        /// Amount to swap for native currency, bridge-normalized.
        to_native_token_amount: u64,
        /// Recipient address on the destination chain.
        recipient: [u8; 32],
    },
}

/// Why a payload fails to decode.
#[derive(Clone, Copy, Debug, PartialEq, Eq, Structural)]
pub enum MessageDecodeError {
    /// The buffer is not exactly 97 bytes long.
    InvalidPayloadSize,
    /// A padding word carries a value that does not fit in 64 bits.
    Overflow,
    /// The discriminant byte is unknown.
    InvalidPayloadId,
}

/// The eight bytes of `v`, most significant first.
pub open spec fn spec_u64_be_bytes(v: u64) -> Seq<u8> {
    seq![
        ((v >> 56) & 0xff) as u8,
        ((v >> 48) & 0xff) as u8,
        ((v >> 40) & 0xff) as u8,
        ((v >> 32) & 0xff) as u8,
        ((v >> 24) & 0xff) as u8,
        ((v >> 16) & 0xff) as u8,
        ((v >> 8) & 0xff) as u8,
        (v & 0xff) as u8,
    ]
}

/// Twenty-four zero bytes.
pub open spec fn spec_pad24() -> Seq<u8> {
    Seq::new(24, |i: int| 0u8)
}

/// The 97-byte wire form of a payload.
pub open spec fn spec_encode(m: TokenBridgeRelayerMessage) -> Seq<u8> {
    match m {
        TokenBridgeRelayerMessage::TransferWithRelay {
            target_relayer_fee,
            to_native_token_amount,
            recipient,
        } => seq![PAYLOAD_ID_TRANSFER_WITH_RELAY] + spec_pad24() + spec_u64_be_bytes(
            target_relayer_fee,
        ) + spec_pad24() + spec_u64_be_bytes(to_native_token_amount) + recipient@,
    }
}

/// Shape facts every encoding satisfies: its length, its discriminant, and
/// its zero padding.
proof fn lemma_encode_shape(m: TokenBridgeRelayerMessage)
    ensures
        spec_encode(m).len() == 97,
        spec_encode(m)[0] == PAYLOAD_ID_TRANSFER_WITH_RELAY,
        forall|i: int| 1 <= i < 25 ==> spec_encode(m)[i] == 0u8,
        forall|i: int| 33 <= i < 57 ==> spec_encode(m)[i] == 0u8,
{
}

/// Composing eight bytes big-endian and taking the bytes back round-trips.
proof fn lemma_be_compose(b0: u8, b1: u8, b2: u8, b3: u8, b4: u8, b5: u8, b6: u8, b7: u8, x: u64)
    requires
        x == (b0 as u64) << 56 | (b1 as u64) << 48 | (b2 as u64) << 40 | (b3 as u64) << 32 | (
        b4 as u64) << 24 | (b5 as u64) << 16 | (b6 as u64) << 8 | (b7 as u64),
    ensures
        spec_u64_be_bytes(x) == seq![b0, b1, b2, b3, b4, b5, b6, b7],
{
    assert((x >> 56) & 0xff == b0 as u64 && (x >> 48) & 0xff == b1 as u64 && (x >> 40) & 0xff
        == b2 as u64 && (x >> 32) & 0xff == b3 as u64 && (x >> 24) & 0xff == b4 as u64 && (x >> 16)
        & 0xff == b5 as u64 && (x >> 8) & 0xff == b6 as u64 && x & 0xff == b7 as u64) by (bit_vector)
        requires
            x == (b0 as u64) << 56 | (b1 as u64) << 48 | (b2 as u64) << 40 | (b3 as u64) << 32 | (
            b4 as u64) << 24 | (b5 as u64) << 16 | (b6 as u64) << 8 | (b7 as u64),
    ;
    assert(spec_u64_be_bytes(x) =~= seq![b0, b1, b2, b3, b4, b5, b6, b7]);
}

/// Two values with the same big-endian bytes are equal.
proof fn lemma_be_bytes_injective(v1: u64, v2: u64)
    requires
        spec_u64_be_bytes(v1) == spec_u64_be_bytes(v2),
    ensures
        v1 == v2,
{
    assert(spec_u64_be_bytes(v1)[0] == spec_u64_be_bytes(v2)[0]);
    assert(spec_u64_be_bytes(v1)[1] == spec_u64_be_bytes(v2)[1]);
    assert(spec_u64_be_bytes(v1)[2] == spec_u64_be_bytes(v2)[2]);
    assert(spec_u64_be_bytes(v1)[3] == spec_u64_be_bytes(v2)[3]);
    assert(spec_u64_be_bytes(v1)[4] == spec_u64_be_bytes(v2)[4]);
    assert(spec_u64_be_bytes(v1)[5] == spec_u64_be_bytes(v2)[5]);
    assert(spec_u64_be_bytes(v1)[6] == spec_u64_be_bytes(v2)[6]);
    assert(spec_u64_be_bytes(v1)[7] == spec_u64_be_bytes(v2)[7]);
    assert(((((v1 >> 56) & 0xff) as u8 == ((v2 >> 56) & 0xff) as u8) && (((v1 >> 48) & 0xff) as u8
        == ((v2 >> 48) & 0xff) as u8) && (((v1 >> 40) & 0xff) as u8 == ((v2 >> 40) & 0xff) as u8)
        && (((v1 >> 32) & 0xff) as u8 == ((v2 >> 32) & 0xff) as u8) && (((v1 >> 24) & 0xff) as u8
        == ((v2 >> 24) & 0xff) as u8) && (((v1 >> 16) & 0xff) as u8 == ((v2 >> 16) & 0xff) as u8)
        && (((v1 >> 8) & 0xff) as u8 == ((v2 >> 8) & 0xff) as u8) && ((v1 & 0xff) as u8 == (v2
        & 0xff) as u8)) ==> v1 == v2) by (bit_vector);
}

/// Distinct payloads have distinct encodings: the wire form determines the
/// fee, the swap amount and the recipient. Together with the contracts of
/// `serialize` and `deserialize` this says that encoding and then decoding
/// gives back a field-identical payload.
pub proof fn lemma_encode_injective(m1: TokenBridgeRelayerMessage, m2: TokenBridgeRelayerMessage)
    requires
        spec_encode(m1) == spec_encode(m2),
    ensures
        m1 == m2,
{
    let s1 = spec_encode(m1);
    let s2 = spec_encode(m2);
    match (m1, m2) {
        (
            TokenBridgeRelayerMessage::TransferWithRelay {
                target_relayer_fee: f1,
                to_native_token_amount: a1,
                recipient: r1,
            },
            TokenBridgeRelayerMessage::TransferWithRelay {
                target_relayer_fee: f2,
                to_native_token_amount: a2,
                recipient: r2,
            },
        ) => {
            assert(spec_u64_be_bytes(f1) =~= spec_u64_be_bytes(f2)) by {
                assert(forall|k: int|
                    0 <= k < 8 ==> spec_u64_be_bytes(f1)[k] == s1[25 + k] && spec_u64_be_bytes(
                        f2,
                    )[k] == s2[25 + k]);
            }
            lemma_be_bytes_injective(f1, f2);
            assert(spec_u64_be_bytes(a1) =~= spec_u64_be_bytes(a2)) by {
                assert(forall|k: int|
                    0 <= k < 8 ==> spec_u64_be_bytes(a1)[k] == s1[57 + k] && spec_u64_be_bytes(
                        a2,
                    )[k] == s2[57 + k]);
            }
            lemma_be_bytes_injective(a1, a2);
            assert(r1 =~= r2) by {
                assert(forall|k: int| 0 <= k < 32 ==> r1@[k] == s1[65 + k] && r2@[k] == s2[65 + k]);
            }
        },
    }
}

impl TokenBridgeRelayerMessage {
    /// The relayer fee carried by this payload, in bridge-normalized units.
    pub open spec fn spec_target_relayer_fee(self) -> u64 {
        match self {
            TokenBridgeRelayerMessage::TransferWithRelay { target_relayer_fee, .. } => target_relayer_fee,
        }
    }

    /// The swap-for-native amount carried by this payload, bridge-normalized.
    pub open spec fn spec_to_native_token_amount(self) -> u64 {
        match self {
            TokenBridgeRelayerMessage::TransferWithRelay { to_native_token_amount, .. } => to_native_token_amount,
        }
    }

    /// The recipient address carried by this payload.
    pub open spec fn spec_recipient(self) -> [u8; 32] {
        match self {
            TokenBridgeRelayerMessage::TransferWithRelay { recipient, .. } => recipient,
        }
    }

    /// Serializes this payload into its 97-byte wire form.
    pub fn serialize(&self) -> (r: Vec<u8>)
        ensures
            r@ == spec_encode(*self),
            r@.len() == 97,
    {
        match self {
            TokenBridgeRelayerMessage::TransferWithRelay {
                target_relayer_fee,
                to_native_token_amount,
                recipient,
            } => {
                let mut out: Vec<u8> = Vec::new();
                out.push(PAYLOAD_ID_TRANSFER_WITH_RELAY);
                push_pad24(&mut out);
                push_u64_be(&mut out, *target_relayer_fee);
                push_pad24(&mut out);
                push_u64_be(&mut out, *to_native_token_amount);
                let mut j: usize = 0;
                while j < 32
                    invariant
                        j <= 32,
                        out@.len() == 65 + j,
                        out@ == seq![PAYLOAD_ID_TRANSFER_WITH_RELAY] + spec_pad24()
                            + spec_u64_be_bytes(*target_relayer_fee) + spec_pad24()
                            + spec_u64_be_bytes(*to_native_token_amount) + recipient@.take(j as int),
                    decreases 32 - j,
                {
                    out.push(recipient[j]);
                    proof {
                        assert(recipient@.take(j + 1) =~= recipient@.take(j as int).push(
                            recipient@[j as int],
                        ));
                        assert(out@ =~= seq![PAYLOAD_ID_TRANSFER_WITH_RELAY] + spec_pad24()
                            + spec_u64_be_bytes(*target_relayer_fee) + spec_pad24()
                            + spec_u64_be_bytes(*to_native_token_amount) + recipient@.take(j + 1));
                    }
                    j += 1;
                }
                proof {
                    assert(recipient@.take(32) =~= recipient@);
                    assert(out@ =~= spec_encode(*self));
                }
                out
            },
        }
    }

    /// Decodes a payload from its wire form. Succeeds exactly on the
    /// encodings that `serialize` produces; a buffer of the wrong length, an
    /// unknown discriminant, or nonzero padding is rejected, and the error
    /// says which.
    pub fn deserialize(buf: &[u8]) -> (r: Result<TokenBridgeRelayerMessage, MessageDecodeError>)
        ensures
            match r {
                Ok(m) => buf@ == spec_encode(m),
                Err(e) => (forall|m: TokenBridgeRelayerMessage| buf@ != spec_encode(m)) && e == (
                if buf@.len() != 97 {
                    MessageDecodeError::InvalidPayloadSize
                } else if buf@[0] != PAYLOAD_ID_TRANSFER_WITH_RELAY {
                    MessageDecodeError::InvalidPayloadId
                } else {
                    MessageDecodeError::Overflow
                }),
            },
    {
        if buf.len() != 97 {
            proof {
                assert forall|m: TokenBridgeRelayerMessage| buf@ != spec_encode(m) by {
                    lemma_encode_shape(m);
                }
            }
            return Err(MessageDecodeError::InvalidPayloadSize);
        }
        if buf[0] != PAYLOAD_ID_TRANSFER_WITH_RELAY {
            proof {
                assert forall|m: TokenBridgeRelayerMessage| buf@ != spec_encode(m) by {
                    lemma_encode_shape(m);
                }
            }
            return Err(MessageDecodeError::InvalidPayloadId);
        }
        let mut i: usize = 1;
        while i < 25
            invariant
                1 <= i <= 25,
                buf@.len() == 97,
                buf@[0] == PAYLOAD_ID_TRANSFER_WITH_RELAY,
                forall|k: int| 1 <= k < i ==> buf@[k] == 0u8,
            decreases 25 - i,
        {
            if buf[i] != 0 {
                proof {
                    assert forall|m: TokenBridgeRelayerMessage| buf@ != spec_encode(m) by {
                        lemma_encode_shape(m);
                        assert(spec_encode(m)[i as int] == 0u8);
                    }
                }
                return Err(MessageDecodeError::Overflow);
            }
            i += 1;
        }
        let target_relayer_fee = read_u64_be(buf, 25);
        let mut i: usize = 33;
        while i < 57
            invariant
                33 <= i <= 57,
                buf@.len() == 97,
                buf@[0] == PAYLOAD_ID_TRANSFER_WITH_RELAY,
                forall|k: int| 33 <= k < i ==> buf@[k] == 0u8,
            decreases 57 - i,
        {
            if buf[i] != 0 {
                proof {
                    assert forall|m: TokenBridgeRelayerMessage| buf@ != spec_encode(m) by {
                        lemma_encode_shape(m);
                        assert(spec_encode(m)[i as int] == 0u8);
                    }
                }
                return Err(MessageDecodeError::Overflow);
            }
            i += 1;
        }
        let to_native_token_amount = read_u64_be(buf, 57);
        let mut recipient = [0u8; 32];
        let mut j: usize = 0;
        while j < 32
            invariant
                j <= 32,
                buf@.len() == 97,
                forall|k: int| 0 <= k < j ==> recipient@[k] == buf@[65 + k],
            decreases 32 - j,
        {
            recipient[j] = buf[65 + j];
            j += 1;
        }
        let m = TokenBridgeRelayerMessage::TransferWithRelay {
            target_relayer_fee,
            to_native_token_amount,
            recipient,
        };
        proof {
            assert(buf@ =~= spec_encode(m));
        }
        Ok(m)
    }
}

/// Appends 24 zero bytes.
fn push_pad24(out: &mut Vec<u8>)
    ensures
        final(out)@ == old(out)@ + spec_pad24(),
{
    let mut i: usize = 0;
    while i < 24
        invariant
            i <= 24,
            out@ == old(out)@ + spec_pad24().take(i as int),
        decreases 24 - i,
    {
        out.push(0);
        proof {
            assert(out@ =~= old(out)@ + spec_pad24().take(i + 1));
        }
        i += 1;
    }
    proof {
        assert(spec_pad24().take(24) =~= spec_pad24());
        assert(out@ =~= old(out)@ + spec_pad24());
    }
}

/// Appends the eight bytes of `v`, most significant first.
fn push_u64_be(out: &mut Vec<u8>, v: u64)
    ensures
        final(out)@ == old(out)@ + spec_u64_be_bytes(v),
{
    proof {
        assert((v >> 56) & 0xff < 256 && (v >> 48) & 0xff < 256 && (v >> 40) & 0xff < 256 && (v
            >> 32) & 0xff < 256 && (v >> 24) & 0xff < 256 && (v >> 16) & 0xff < 256 && (v >> 8)
            & 0xff < 256 && v & 0xff < 256) by (bit_vector);
    }
    out.push(((v >> 56) & 0xff) as u8);
    out.push(((v >> 48) & 0xff) as u8);
    out.push(((v >> 40) & 0xff) as u8);
    out.push(((v >> 32) & 0xff) as u8);
    out.push(((v >> 24) & 0xff) as u8);
    out.push(((v >> 16) & 0xff) as u8);
    out.push(((v >> 8) & 0xff) as u8);
    out.push((v & 0xff) as u8);
    proof {
        assert(out@ =~= old(out)@ + spec_u64_be_bytes(v));
    }
}

/// Reads the big-endian 64-bit value at `offset`.
fn read_u64_be(buf: &[u8], offset: usize) -> (x: u64)
    requires
        offset + 8 <= buf@.len(),
    ensures
        spec_u64_be_bytes(x) == buf@.subrange(offset as int, offset + 8),
{
    let b0 = buf[offset];
    let b1 = buf[offset + 1];
    let b2 = buf[offset + 2];
    let b3 = buf[offset + 3];
    let b4 = buf[offset + 4];
    let b5 = buf[offset + 5];
    let b6 = buf[offset + 6];
    let b7 = buf[offset + 7];
    let x = (b0 as u64) << 56 | (b1 as u64) << 48 | (b2 as u64) << 40 | (b3 as u64) << 32 | (
    b4 as u64) << 24 | (b5 as u64) << 16 | (b6 as u64) << 8 | (b7 as u64);
    proof {
        lemma_be_compose(b0, b1, b2, b3, b4, b5, b6, b7, x);
        assert(buf@.subrange(offset as int, offset + 8) =~= seq![b0, b1, b2, b3, b4, b5, b6, b7]);
    }
    x
}

} // verus!
