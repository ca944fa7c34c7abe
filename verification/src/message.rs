//! The protocol's data model: the body payloads, the message-data envelope,
//! the finished signed message, and the error vocabulary.
//!
//! Enum tags (message type, network, hash scheme, signature scheme) travel on
//! the wire as plain unsigned integers, so the envelope holds the raw value;
//! the closed enums here name the enumerators a builder may choose from.
//!
//! The payload types model what this core reads and serializes. The wire
//! schema defines a few further fields (a cast's embeds and mention
//! positions, the URL arms of the cast-parent and reaction-target unions)
//! that these types do not carry: a message using them cannot be expressed
//! here, and the encoder writes none of them.

use vstd::prelude::*;

verus! {

/// An account (fid) and message hash naming one cast on the network.
#[derive(Clone, Debug, PartialEq, Eq)]
pub struct CastId {
    pub fid: u64,
    pub hash: Vec<u8>,
}

/// Payload of a cast-add message: the cast's text with its mentions and,
/// for a reply, the cast it answers.
#[derive(Clone, Debug, PartialEq, Eq)]
pub struct CastAddBody {
    pub mentions: Vec<u64>,
    pub parent_cast_id: Option<CastId>,
    pub text: String,
}

/// Payload of a cast-remove message: the hash of the cast to remove.
#[derive(Clone, Debug, PartialEq, Eq)]
pub struct CastRemoveBody {
    pub target_hash: Vec<u8>,
}

/// Payload of a reaction-add or reaction-remove message.
#[derive(Clone, Debug, PartialEq, Eq)]
pub struct ReactionBody {
    pub reaction_type: u64,
    pub target_cast_id: Option<CastId>,
}

/// Payload claiming ownership of an Ethereum address.
#[derive(Clone, Debug, PartialEq, Eq)]
pub struct VerificationAddEthAddressBody {
    pub address: Vec<u8>,
    pub eth_signature: Vec<u8>,
    pub block_hash: Vec<u8>,
}

/// Payload removing a verification claim.
#[derive(Clone, Debug, PartialEq, Eq)]
pub struct VerificationRemoveBody {
    pub address: Vec<u8>,
}

/// Payload registering a new signer key for an account.
#[derive(Clone, Debug, PartialEq, Eq)]
pub struct SignerAddBody {
    pub signer: Vec<u8>,
    pub name: String,
}

/// Payload removing a signer key.
#[derive(Clone, Debug, PartialEq, Eq)]
pub struct SignerRemoveBody {
    pub signer: Vec<u8>,
}

/// Payload setting one user-data field (display name, bio, ...).
#[derive(Clone, Debug, PartialEq, Eq)]
pub struct UserDataBody {
    pub data_type: u64,
    pub value: String,
}

/// Payload adding or removing a social-graph link.
#[derive(Clone, Debug, PartialEq, Eq)]
pub struct LinkBody {
    pub link_type: String,
    pub display_timestamp: Option<u32>,
    pub target_fid: u64,
}

/// Payload proving ownership of a username.
#[derive(Clone, Debug, PartialEq, Eq)]
pub struct UserNameProof {
    pub timestamp: u64,
    pub name: Vec<u8>,
    pub owner: Vec<u8>,
    pub signature: Vec<u8>,
    pub fid: u64,
    pub proof_type: u64,
}

/// The envelope's body union: exactly one payload variant is active.
#[derive(Clone, Debug, PartialEq, Eq)]
pub enum Body {
    CastAddBody(CastAddBody),
    CastRemoveBody(CastRemoveBody),
    ReactionBody(ReactionBody),
    VerificationAddEthAddressBody(VerificationAddEthAddressBody),
    VerificationRemoveBody(VerificationRemoveBody),
    SignerAddBody(SignerAddBody),
    SignerRemoveBody(SignerRemoveBody),
    UserDataBody(UserDataBody),
    LinkBody(LinkBody),
    UsernameProofBody(UserNameProof),
}

/// The unsigned message-data envelope. `msg_type` and `network` hold the raw
/// wire enumerators so that a validator can inspect out-of-range values.
#[derive(Clone, Debug, PartialEq, Eq)]
pub struct MessageData {
    pub msg_type: u64,
    pub fid: u64,
    pub timestamp: u32,
    pub network: u64,
    pub body: Option<Body>,
}

/// A finished signed message: the envelope, its truncated digest, the
/// signature over that digest, and the signer's public key, each beside the
/// enumerator of the scheme that produced it.
#[derive(Clone, Debug, PartialEq, Eq)]
pub struct Message {
    pub data: Option<MessageData>,
    pub hash: Vec<u8>,
    pub hash_scheme: u64,
    pub signature: Vec<u8>,
    pub signature_scheme: u64,
    pub signer: Vec<u8>,
}

/// The known networks a builder may address.
#[derive(Clone, Copy, Debug, PartialEq, Eq, Structural)]
pub enum FarcasterNetwork {
    Mainnet,
    Testnet,
    Devnet,
}

/// The known message-type enumerators; each names the body variant it rides
/// beside.
#[derive(Clone, Copy, Debug, PartialEq, Eq, Structural)]
pub enum MessageType {
    CastAdd,
    CastRemove,
    ReactionAdd,
    ReactionRemove,
    LinkAdd,
    LinkRemove,
    VerificationAddEthAddress,
    VerificationRemove,
    SignerAdd,
    SignerRemove,
    UserDataAdd,
    UsernameProof,
}

/// Everything that can go wrong while building, signing or validating.
#[derive(Clone, Copy, Debug, PartialEq, Eq, Structural)]
pub enum HubError {
    /// The current protocol time could not be produced.
    TimestampUnavailable,
    /// Canonical serialization failed. The serializer in this crate is total,
    /// so this defensive variant is never produced here.
    EncodingError,
    /// The envelope's timestamp is more than ten minutes ahead of now.
    TimestampInFuture,
    /// The envelope's network enumerator is not a known one.
    InvalidNetwork,
    /// The envelope's message-type enumerator is not a known one.
    InvalidMessageType,
}

/// Wire enumerator of the blake3 hash scheme.
pub const HASH_SCHEME_BLAKE3: u64 = 1;

/// Wire enumerator of the Ed25519 signature scheme.
pub const SIGNATURE_SCHEME_ED25519: u64 = 1;

/// Wire value of a network enumerator.
pub open spec fn spec_network_value(n: FarcasterNetwork) -> u64 {
    match n {
        FarcasterNetwork::Mainnet => 1,
        FarcasterNetwork::Testnet => 2,
        FarcasterNetwork::Devnet => 3,
    }
}

/// Wire value of a message-type enumerator.
pub open spec fn spec_message_type_value(t: MessageType) -> u64 {
    match t {
        MessageType::CastAdd => 1,
        MessageType::CastRemove => 2,
        MessageType::ReactionAdd => 3,
        MessageType::ReactionRemove => 4,
        MessageType::LinkAdd => 5,
        MessageType::LinkRemove => 6,
        MessageType::VerificationAddEthAddress => 7,
        MessageType::VerificationRemove => 8,
        MessageType::SignerAdd => 9,
        MessageType::SignerRemove => 10,
        MessageType::UserDataAdd => 11,
        MessageType::UsernameProof => 12,
    }
}

/// A raw network enumerator is valid when it is one of the wire's defined
/// values: the unspecified marker 0 or a known network.
pub open spec fn valid_network(n: u64) -> bool {
    n <= 3
}

/// A raw message-type enumerator is valid when it is one of the wire's
/// defined values: the unspecified marker 0 or a known type.
pub open spec fn valid_message_type(t: u64) -> bool {
    t <= 12
}

impl FarcasterNetwork {
    /// The network's wire enumerator.
    pub fn value(self) -> (r: u64)
        ensures
            r == spec_network_value(self),
    {
        match self {
            FarcasterNetwork::Mainnet => 1,
            FarcasterNetwork::Testnet => 2,
            FarcasterNetwork::Devnet => 3,
        }
    }
}

impl MessageType {
    /// The message type's wire enumerator.
    pub fn value(self) -> (r: u64)
        ensures
            r == spec_message_type_value(self),
    {
        match self {
            MessageType::CastAdd => 1,
            MessageType::CastRemove => 2,
            MessageType::ReactionAdd => 3,
            MessageType::ReactionRemove => 4,
            MessageType::LinkAdd => 5,
            MessageType::LinkRemove => 6,
            MessageType::VerificationAddEthAddress => 7,
            MessageType::VerificationRemove => 8,
            MessageType::SignerAdd => 9,
            MessageType::SignerRemove => 10,
            MessageType::UserDataAdd => 11,
            MessageType::UsernameProof => 12,
        }
    }
}

/// A network enumerator built by this crate is always a valid one.
pub proof fn lemma_network_value_valid(n: FarcasterNetwork)
    ensures
        valid_network(spec_network_value(n)),
{
}

/// A message-type enumerator built by this crate is always a valid one.
pub proof fn lemma_message_type_value_valid(t: MessageType)
    ensures
        valid_message_type(spec_message_type_value(t)),
{
}

} // verus!
