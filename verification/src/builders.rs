//! The envelope builder, the signer and the validator.
//!
//! A builder combines a tagged body, a message-type tag and per-message
//! options into a message-data envelope; the signer serializes the envelope
//! canonically, hashes the bytes to a 20-byte digest, signs the digest and
//! assembles the finished message; the validator independently re-checks an
//! envelope's timestamp skew, network and message type.

use vstd::prelude::*;
use crate::codec::{encode_message_data, spec_encode_message_data};
use crate::crypto::{blake3_hash_20, blake3_20, ed25519_verifies, sign_digest};
use crate::message::{
    Body, CastAddBody, CastRemoveBody, FarcasterNetwork, HubError, LinkBody, Message, MessageData,
    MessageType, ReactionBody, SignerAddBody, SignerRemoveBody, UserDataBody, UserNameProof,
    VerificationAddEthAddressBody, VerificationRemoveBody, spec_message_type_value,
    spec_network_value, valid_message_type, valid_network, HASH_SCHEME_BLAKE3,
    SIGNATURE_SCHEME_ED25519,
};
use crate::time::get_farcaster_time;

verus! {

/// Per-message construction options: the account, the network, and an
/// optional explicit protocol timestamp. When the timestamp is omitted the
/// builder uses "now" in protocol time.
pub struct MessageDataOptions {
    pub fid: u64,
    pub network: FarcasterNetwork,
    pub timestamp: Option<u32>,
}

/// The tagged body a caller hands to the builder; each variant names the
/// union arm of the envelope it fills. The caller must pick a message type
/// consistent with the variant: the builder does not cross-check the two.
pub enum MessageBodyOptions {
    CastAddBody(CastAddBody),
    CastRemoveBody(CastRemoveBody),
    ReactionBody(ReactionBody),
    VerificationAddEthAddressBody(VerificationAddEthAddressBody),
    VerificationRemoveBody(VerificationRemoveBody),
    SignerAddBody(SignerAddBody),
    SignerRemoveBody(SignerRemoveBody),
    UserDataBody(UserDataBody),
    LinkBody(LinkBody),
    UsernameProofBody(UserNameProof),
}

/// The body-union arm that a tagged body fills.
pub open spec fn spec_body_of_options(o: MessageBodyOptions) -> Body {
    match o {
        MessageBodyOptions::CastAddBody(x) => Body::CastAddBody(x),
        MessageBodyOptions::CastRemoveBody(x) => Body::CastRemoveBody(x),
        MessageBodyOptions::ReactionBody(x) => Body::ReactionBody(x),
        MessageBodyOptions::VerificationAddEthAddressBody(x) => Body::VerificationAddEthAddressBody(
            x,
        ),
        MessageBodyOptions::VerificationRemoveBody(x) => Body::VerificationRemoveBody(x),
        MessageBodyOptions::SignerAddBody(x) => Body::SignerAddBody(x),
        MessageBodyOptions::SignerRemoveBody(x) => Body::SignerRemoveBody(x),
        MessageBodyOptions::UserDataBody(x) => Body::UserDataBody(x),
        MessageBodyOptions::LinkBody(x) => Body::LinkBody(x),
        MessageBodyOptions::UsernameProofBody(x) => Body::UsernameProofBody(x),
    }
}

/// The envelope that `make_message_data` builds once its timestamp `ts` is
/// resolved.
pub open spec fn spec_message_data(
    body_options: MessageBodyOptions,
    message_type: MessageType,
    data_options: MessageDataOptions,
    ts: u32,
) -> MessageData {
    MessageData {
        msg_type: spec_message_type_value(message_type),
        fid: data_options.fid,
        timestamp: ts,
        network: spec_network_value(data_options.network),
        body: Option::Some(spec_body_of_options(body_options)),
    }
}

/// What `resolve_timestamp` decides: an explicit timestamp is used as given;
/// an omitted one falls back to "now" in protocol time, which must exist and
/// fit the unsigned 32-bit wire field. Refusing a "now" outside that field —
/// a clock before the protocol epoch or past its reach, some 136 years on —
/// is a deliberate deviation: rather than truncate the value into a wrong
/// wire timestamp, the builder reports it as `TimestampUnavailable`.
pub open spec fn spec_resolve_timestamp(explicit: Option<u32>, now_fc: Option<i64>) -> Result<
    u32,
    HubError,
> {
    match explicit {
        Option::Some(ts) => Ok(ts),
        Option::None => match now_fc {
            Option::Some(fct) => if 0 <= fct <= u32::MAX {
                Ok(fct as u32)
            } else {
                Err(HubError::TimestampUnavailable)
            },
            Option::None => Err(HubError::TimestampUnavailable),
        },
    }
}

/// Resolves an envelope's timestamp from the caller's explicit choice and a
/// reading of "now" in protocol time.
pub fn resolve_timestamp(explicit: Option<u32>, now_fc: Option<i64>) -> (r: Result<u32, HubError>)
    ensures
        r == spec_resolve_timestamp(explicit, now_fc),
{
    match explicit {
        Some(ts) => Ok(ts),
        None => match now_fc {
            Some(fct) => if 0 <= fct && fct <= u32::MAX as i64 {
                Ok(fct as u32)
            } else {
                Err(HubError::TimestampUnavailable)
            },
            None => Err(HubError::TimestampUnavailable),
        },
    }
}

/// Builds a message-data envelope from a tagged body, a message-type tag and
/// the construction options. The timestamp is the explicit one when given,
/// else "now" in protocol time; only the missing-timestamp path can fail,
/// with `TimestampUnavailable` covering both a clock that cannot be read and
/// — deliberately, where a truncating cast would forge a wire timestamp — a
/// "now" outside the unsigned 32-bit wire field (see `resolve_timestamp`).
pub fn make_message_data(
    body_options: MessageBodyOptions,
    message_type: MessageType,
    data_options: MessageDataOptions,
) -> (r: Result<MessageData, HubError>)
    ensures
        data_options.timestamp is Some ==> r == Ok::<MessageData, HubError>(
            spec_message_data(
                body_options,
                message_type,
                data_options,
                data_options.timestamp->0,
            ),
        ),
        r is Ok ==> r->Ok_0 == spec_message_data(
            body_options,
            message_type,
            data_options,
            r->Ok_0.timestamp,
        ),
        r is Err ==> r == Err::<MessageData, HubError>(HubError::TimestampUnavailable)
            && data_options.timestamp is None,
{
    let now_fc = if data_options.timestamp.is_none() {
        get_farcaster_time()
    } else {
        None
    };
    let timestamp: u32 = match resolve_timestamp(data_options.timestamp, now_fc) {
        Ok(ts) => ts,
        Err(e) => {
            return Err(e);
        },
    };
    let body = match body_options {
        MessageBodyOptions::CastAddBody(x) => Body::CastAddBody(x),
        MessageBodyOptions::CastRemoveBody(x) => Body::CastRemoveBody(x),
        MessageBodyOptions::ReactionBody(x) => Body::ReactionBody(x),
        MessageBodyOptions::VerificationAddEthAddressBody(x) => Body::VerificationAddEthAddressBody(
            x,
        ),
        MessageBodyOptions::VerificationRemoveBody(x) => Body::VerificationRemoveBody(x),
        MessageBodyOptions::SignerAddBody(x) => Body::SignerAddBody(x),
        MessageBodyOptions::SignerRemoveBody(x) => Body::SignerRemoveBody(x),
        MessageBodyOptions::UserDataBody(x) => Body::UserDataBody(x),
        MessageBodyOptions::LinkBody(x) => Body::LinkBody(x),
        MessageBodyOptions::UsernameProofBody(x) => Body::UsernameProofBody(x),
    };
    Ok(
        MessageData {
            msg_type: message_type.value(),
            fid: data_options.fid,
            timestamp,
            network: data_options.network.value(),
            body: Some(body),
        },
    )
}

/// Builds a cast-add envelope: `make_message_data` under the cast-add tag.
pub fn make_cast_add_data(body: CastAddBody, data_options: MessageDataOptions) -> (r: Result<
    MessageData,
    HubError,
>)
    ensures
        data_options.timestamp is Some ==> r == Ok::<MessageData, HubError>(
            spec_message_data(
                MessageBodyOptions::CastAddBody(body),
                MessageType::CastAdd,
                data_options,
                data_options.timestamp->0,
            ),
        ),
        r is Ok ==> r->Ok_0 == spec_message_data(
            MessageBodyOptions::CastAddBody(body),
            MessageType::CastAdd,
            data_options,
            r->Ok_0.timestamp,
        ),
        r is Err ==> r == Err::<MessageData, HubError>(HubError::TimestampUnavailable)
            && data_options.timestamp is None,
{
    make_message_data(MessageBodyOptions::CastAddBody(body), MessageType::CastAdd, data_options)
}

/// What the signer promises of a finished message built over envelope `data`:
/// the envelope rides along unchanged; the digest is the 20-byte blake3
/// truncation of the canonical serialization of the envelope — whatever the
/// key; the signature verifies under the embedded public key over that
/// digest; and the scheme tags name blake3 and Ed25519.
pub open spec fn spec_signed_message(m: Message, data: MessageData) -> bool {
    &&& m.data == Option::Some(data)
    &&& m.hash@ == blake3_20(spec_encode_message_data(data))
    &&& m.hash@.len() == 20
    &&& m.hash_scheme == HASH_SCHEME_BLAKE3
    &&& ed25519_verifies(m.signer@, m.hash@, m.signature@)
    &&& m.signature@.len() == 64
    &&& m.signature_scheme == SIGNATURE_SCHEME_ED25519
    &&& m.signer@.len() == 32
}

/// Signs a message-data envelope: canonical serialization, 20-byte blake3
/// digest, Ed25519 signature over the digest, and assembly of the finished
/// message. Serialization here is total, so the defensive encoding error is
/// never returned.
pub fn make_message(data: MessageData, signer: &ed25519_dalek::SigningKey) -> (r: Result<
    Message,
    HubError,
>)
    ensures
        r is Ok,
        spec_signed_message(r->Ok_0, data),
{
    let encoded = encode_message_data(&data);
    let hash = blake3_hash_20(&encoded);
    let (signature, public_key) = sign_digest(signer, &hash);
    Ok(
        Message {
            data: Some(data),
            hash,
            hash_scheme: HASH_SCHEME_BLAKE3,
            signature,
            signature_scheme: SIGNATURE_SCHEME_ED25519,
            signer: public_key,
        },
    )
}

/// Builds and signs a cast-add message in one step.
pub fn make_cast_add(
    body: CastAddBody,
    data_options: MessageDataOptions,
    signer: ed25519_dalek::SigningKey,
) -> (r: Result<Message, HubError>)
    ensures
        data_options.timestamp is Some ==> r is Ok,
        r is Ok ==> r->Ok_0.data is Some && spec_signed_message(r->Ok_0, r->Ok_0.data->0),
        r is Ok ==> r->Ok_0.data->0 == spec_message_data(
            MessageBodyOptions::CastAddBody(body),
            MessageType::CastAdd,
            data_options,
            r->Ok_0.data->0.timestamp,
        ),
        r is Ok && data_options.timestamp is Some ==> r->Ok_0.data->0.timestamp
            == data_options.timestamp->0,
        r is Err ==> r == Err::<Message, HubError>(HubError::TimestampUnavailable)
            && data_options.timestamp is None,
{
    let data = match make_cast_add_data(body, data_options) {
        Ok(d) => d,
        Err(e) => {
            return Err(e);
        },
    };
    make_message(data, &signer)
}

/// Builds and signs a signer-add message in one step.
pub fn make_signer_add(
    body: SignerAddBody,
    data_options: MessageDataOptions,
    signer: ed25519_dalek::SigningKey,
) -> (r: Result<Message, HubError>)
    ensures
        data_options.timestamp is Some ==> r is Ok,
        r is Ok ==> r->Ok_0.data is Some && spec_signed_message(r->Ok_0, r->Ok_0.data->0),
        r is Ok ==> r->Ok_0.data->0 == spec_message_data(
            MessageBodyOptions::SignerAddBody(body),
            MessageType::SignerAdd,
            data_options,
            r->Ok_0.data->0.timestamp,
        ),
        r is Ok && data_options.timestamp is Some ==> r->Ok_0.data->0.timestamp
            == data_options.timestamp->0,
        r is Err ==> r == Err::<Message, HubError>(HubError::TimestampUnavailable)
            && data_options.timestamp is None,
{
    let data = match make_message_data(
        MessageBodyOptions::SignerAddBody(body),
        MessageType::SignerAdd,
        data_options,
    ) {
        Ok(d) => d,
        Err(e) => {
            return Err(e);
        },
    };
    make_message(data, &signer)
}

/// The validator's verdict on envelope `data` when "now" in protocol time is
/// `now_fc`: the first violated rule wins. An envelope more than ten minutes
/// ahead of now is rejected; one at exactly ten minutes ahead passes the skew
/// rule, and arbitrarily old ones do too (there is no staleness bound).
pub open spec fn spec_validate_at(data: MessageData, now_fc: i64) -> Result<
    MessageData,
    HubError,
> {
    if data.timestamp > now_fc + 600 {
        Err(HubError::TimestampInFuture)
    } else if !valid_network(data.network) {
        Err(HubError::InvalidNetwork)
    } else if !valid_message_type(data.msg_type) {
        Err(HubError::InvalidMessageType)
    } else {
        Ok(data)
    }
}

/// Validates an envelope against an explicit "now" in protocol time, checking
/// timestamp skew, network validity and message-type validity, and returning
/// the envelope unchanged when every rule passes.
pub fn validate_message_data_at(data: MessageData, now_fc: i64) -> (r: Result<
    MessageData,
    HubError,
>)
    ensures
        r == spec_validate_at(data, now_fc),
{
    if data.timestamp as i64 - 600 > now_fc {
        return Err(HubError::TimestampInFuture);
    }
    if !(data.network <= 3) {
        return Err(HubError::InvalidNetwork);
    }
    if !(data.msg_type <= 12) {
        return Err(HubError::InvalidMessageType);
    }
    Ok(data)
}

/// Validates an envelope's metadata against the current wall clock: rejects a
/// timestamp more than ten minutes in the future, an unknown network
/// enumerator and an unknown message-type enumerator, in that order, and
/// passes the envelope through unchanged otherwise.
pub fn validate_message_data(data: MessageData) -> (r: Result<MessageData, HubError>)
    ensures
        r is Ok ==> r->Ok_0 == data && valid_network(data.network) && valid_message_type(
            data.msg_type,
        ),
        !valid_network(data.network) || !valid_message_type(data.msg_type) ==> r is Err,
        r == Err::<MessageData, HubError>(HubError::InvalidNetwork) ==> !valid_network(
            data.network,
        ),
        r == Err::<MessageData, HubError>(HubError::InvalidMessageType) ==> valid_network(
            data.network,
        ) && !valid_message_type(data.msg_type),
        r is Err ==> r->Err_0 == HubError::TimestampInFuture || r->Err_0
            == HubError::InvalidNetwork || r->Err_0 == HubError::InvalidMessageType,
{
    let now_fc = get_farcaster_time().unwrap();
    validate_message_data_at(data, now_fc)
}

/// An envelope the builder produced always passes the validator's network and
/// message-type rules: the builder can only write in-range enumerators.
pub proof fn lemma_built_envelope_in_range(
    body_options: MessageBodyOptions,
    message_type: MessageType,
    data_options: MessageDataOptions,
    ts: u32,
)
    ensures
        valid_network(spec_message_data(body_options, message_type, data_options, ts).network),
        valid_message_type(
            spec_message_data(body_options, message_type, data_options, ts).msg_type,
        ),
{
    crate::message::lemma_network_value_valid(data_options.network);
    crate::message::lemma_message_type_value_valid(message_type);
}

/// The digest is a function of the envelope alone: two finished messages
/// over the same envelope carry the same digest, whatever keys signed them.
pub proof fn lemma_digest_independent_of_key(m1: Message, m2: Message, data: MessageData)
    requires
        spec_signed_message(m1, data),
        spec_signed_message(m2, data),
    ensures
        m1.hash@ == m2.hash@,
{
}

/// The skew rule exactly: against any "now", the validator rejects an
/// envelope whose timestamp exceeds now by more than 600 seconds with
/// `TimestampInFuture`, and the skew rule passes one at or under that bound —
/// in particular one at exactly now + 600.
pub proof fn lemma_validate_timestamp_skew(data: MessageData, now_fc: i64)
    ensures
        data.timestamp > now_fc + 600 <==> spec_validate_at(data, now_fc) == Err::<
            MessageData,
            HubError,
        >(HubError::TimestampInFuture),
{
}

/// The range rules exactly: against any "now" the envelope is not ahead of,
/// the validator accepts the envelope if and only if both its network and its
/// message-type enumerators are in range, and otherwise names the first
/// out-of-range one.
pub proof fn lemma_validate_ranges(data: MessageData, now_fc: i64)
    requires
        data.timestamp <= now_fc + 600,
    ensures
        spec_validate_at(data, now_fc) == Ok::<MessageData, HubError>(data) <==> valid_network(
            data.network,
        ) && valid_message_type(data.msg_type),
        !valid_network(data.network) ==> spec_validate_at(data, now_fc) == Err::<
            MessageData,
            HubError,
        >(HubError::InvalidNetwork),
        valid_network(data.network) && !valid_message_type(data.msg_type) ==> spec_validate_at(
            data,
            now_fc,
        ) == Err::<MessageData, HubError>(HubError::InvalidMessageType),
{
}

} // verus!
