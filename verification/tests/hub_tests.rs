use hub_rs::builders::{
    make_cast_add, make_cast_add_data, make_message, make_message_data, make_signer_add,
    resolve_timestamp, validate_message_data, validate_message_data_at, MessageBodyOptions,
    MessageDataOptions,
};
use hub_rs::codec::encode_message_data;
use hub_rs::hexstring::{bytes_to_hex_string, hex_string_to_bytes, HexError};
use hub_rs::message::{
    CastAddBody, FarcasterNetwork, HubError, MessageData, MessageType, SignerAddBody, UserDataBody,
};
use hub_rs::time::{
    from_farcaster_time, get_farcaster_time, to_farcaster_time, MAX_UNIX_MILLIS, MIN_UNIX_MILLIS,
};

use ed25519_dalek::{Signature, Signer, SigningKey, Verifier, VerifyingKey};

fn fresh_key() -> SigningKey {
    SigningKey::from_bytes(&[7u8; 32])
}

fn cast_add_hello() -> CastAddBody {
    CastAddBody { mentions: Vec::new(), parent_cast_id: None, text: String::from("hello") }
}

#[test]
fn test_farcaster_time() {
    let time = get_farcaster_time();
    let to_unix_time = from_farcaster_time(time.unwrap());
    let from_unix_time = to_farcaster_time(to_unix_time.unwrap());

    println!("{}", time.unwrap());
    println!("{}", to_unix_time.unwrap());
    println!("{}", from_unix_time.unwrap());

    assert!(time.is_some(), "Failed to get farcaster time");
    assert!(to_unix_time.is_some(), "Failed to convert the current time into a unix time");
    assert!(from_unix_time.is_some(), "Failed to convert the Unix time into a Farcaster time");
}

#[test]
fn time_conversion_concrete_round_trip() {
    assert_eq!(to_farcaster_time(1691407877000), Some(81948677));
    assert_eq!(from_farcaster_time(81948677), Some(1691407877000));
}

#[test]
fn time_conversion_discards_sub_second_part() {
    assert_eq!(to_farcaster_time(1691407877345), Some(81948677));
    assert_eq!(
        from_farcaster_time(to_farcaster_time(1691407877345).unwrap()),
        Some(1691407877000)
    );
}

#[test]
fn time_conversion_handles_instants_before_1970() {
    // 1969-12-31T23:59:59Z, one second before the Unix epoch.
    assert_eq!(to_farcaster_time(-1000), Some(-1609459201));
    // Sub-second parts round toward the earlier second.
    assert_eq!(to_farcaster_time(-1), Some(-1609459201));
    assert_eq!(from_farcaster_time(to_farcaster_time(-1).unwrap()), Some(-1000));
}

#[test]
fn time_conversion_rejects_unrepresentable_input() {
    assert_eq!(to_farcaster_time(i64::MIN), None);
    assert_eq!(to_farcaster_time(i64::MAX), None);
    assert_eq!(to_farcaster_time(MIN_UNIX_MILLIS - 1), None);
    assert_eq!(to_farcaster_time(MAX_UNIX_MILLIS + 1), None);
    assert_eq!(to_farcaster_time(MIN_UNIX_MILLIS), Some(-8336210688000));
    assert_eq!(to_farcaster_time(MAX_UNIX_MILLIS), Some(8208657417599));
    assert_eq!(from_farcaster_time(i64::MAX), None);
    assert_eq!(from_farcaster_time(i64::MIN), None);
    // Past either end of the calendar window the inverse conversion fails too.
    assert_eq!(from_farcaster_time(8208657417600), None);
    assert_eq!(from_farcaster_time(-8336210688001), None);
    // At the window's ends it succeeds and converts back exactly.
    assert_eq!(from_farcaster_time(8208657417599), Some(8210266876799000));
    assert_eq!(to_farcaster_time(8210266876799000), Some(8208657417599));
    assert_eq!(from_farcaster_time(-8336210688000), Some(MIN_UNIX_MILLIS));
    assert_eq!(to_farcaster_time(MIN_UNIX_MILLIS), Some(-8336210688000));
}

#[test]
fn build_and_sign_cast_add_scenario() {
    let options = MessageDataOptions {
        fid: 1117,
        network: FarcasterNetwork::Mainnet,
        timestamp: Some(81948677),
    };
    let message = make_cast_add(cast_add_hello(), options, fresh_key()).unwrap();

    assert_eq!(message.hash.len(), 20);
    let data = message.data.as_ref().unwrap();
    assert_eq!(data.timestamp, 81948677);
    assert_eq!(data.fid, 1117);
    assert_eq!(data.network, 1);
    assert_eq!(data.msg_type, 1);

    // Independent check of the embedded signature with the signature crate
    // itself, outside this library's own wrappers.
    let key_bytes: [u8; 32] = message.signer.as_slice().try_into().unwrap();
    let verifying_key = VerifyingKey::from_bytes(&key_bytes).unwrap();
    let signature = Signature::from_slice(&message.signature).unwrap();
    assert!(verifying_key.verify(&message.hash, &signature).is_ok());
}

#[test]
fn digest_is_blake3_xof_of_canonical_bytes() {
    let options = MessageDataOptions {
        fid: 1117,
        network: FarcasterNetwork::Mainnet,
        timestamp: Some(81948677),
    };
    let data = make_cast_add_data(cast_add_hello(), options).unwrap();
    let encoded = encode_message_data(&data);
    let message = make_message(data, &fresh_key()).unwrap();

    let mut hasher = blake3::Hasher::new();
    hasher.update(&encoded);
    let mut expected = [0u8; 20];
    hasher.finalize_xof().fill(&mut expected);
    assert_eq!(message.hash, expected.to_vec());
}

#[test]
fn digest_is_independent_of_the_signing_key() {
    let options = |ts| MessageDataOptions {
        fid: 1117,
        network: FarcasterNetwork::Mainnet,
        timestamp: Some(ts),
    };
    let m1 = make_cast_add(cast_add_hello(), options(81948677), fresh_key()).unwrap();
    let m2 = make_cast_add(
        cast_add_hello(),
        options(81948677),
        SigningKey::from_bytes(&[42u8; 32]),
    )
    .unwrap();
    assert_eq!(m1.hash, m2.hash);
    assert_ne!(m1.signer, m2.signer);
}

#[test]
fn canonical_encoding_exact_bytes() {
    let data = MessageData {
        msg_type: 1,
        fid: 1117,
        timestamp: 81948677,
        network: 1,
        body: Some(hub_rs::message::Body::CastAddBody(cast_add_hello())),
    };
    let expected: Vec<u8> = vec![
        0x08, 0x01, // type = 1
        0x10, 0xDD, 0x08, // fid = 1117
        0x18, 0x85, 0xE0, 0x89, 0x27, // timestamp = 81948677
        0x20, 0x01, // network = 1
        0x2A, 0x07, // cast_add_body, 7 bytes
        0x22, 0x05, 0x68, 0x65, 0x6C, 0x6C, 0x6F, // text = "hello"
    ];
    assert_eq!(encode_message_data(&data), expected);
}

#[test]
fn canonical_encoding_packed_and_nested_fields() {
    let body = CastAddBody {
        mentions: vec![1, 300],
        parent_cast_id: Some(hub_rs::message::CastId { fid: 2, hash: vec![0xAA, 0xBB] }),
        text: String::from("hi"),
    };
    let data = MessageData {
        msg_type: 1,
        fid: 1,
        timestamp: 1,
        network: 3,
        body: Some(hub_rs::message::Body::CastAddBody(body)),
    };
    let expected: Vec<u8> = vec![
        0x08, 0x01, // type = 1
        0x10, 0x01, // fid = 1
        0x18, 0x01, // timestamp = 1
        0x20, 0x03, // network = 3
        0x2A, 0x11, // cast_add_body, 17 bytes
        0x12, 0x03, 0x01, 0xAC, 0x02, // mentions = [1, 300], packed
        0x1A, 0x06, 0x08, 0x02, 0x12, 0x02, 0xAA, 0xBB, // parent cast id
        0x22, 0x02, 0x68, 0x69, // text = "hi"
    ];
    assert_eq!(encode_message_data(&data), expected);
}

#[test]
fn canonical_encoding_zero_fields_are_omitted_but_present_options_kept() {
    let body = hub_rs::message::LinkBody {
        link_type: String::from("follow"),
        display_timestamp: Some(0),
        target_fid: 5,
    };
    let data = MessageData {
        msg_type: 5,
        fid: 2,
        timestamp: 0,
        network: 1,
        body: Some(hub_rs::message::Body::LinkBody(body)),
    };
    let expected: Vec<u8> = vec![
        0x08, 0x05, // type = 5; zero timestamp omitted
        0x10, 0x02, // fid = 2
        0x20, 0x01, // network = 1
        0x72, 0x0C, // link_body, 12 bytes
        0x0A, 0x06, 0x66, 0x6F, 0x6C, 0x6C, 0x6F, 0x77, // link_type = "follow"
        0x10, 0x00, // display_timestamp present though zero
        0x18, 0x05, // target_fid = 5
    ];
    assert_eq!(encode_message_data(&data), expected);
}

#[test]
fn canonical_encoding_username_proof_multibyte_varint() {
    let body = hub_rs::message::UserNameProof {
        timestamp: 128,
        name: vec![0x61],
        owner: Vec::new(),
        signature: vec![0x01],
        fid: 0,
        proof_type: 1,
    };
    let data = MessageData {
        msg_type: 12,
        fid: 0,
        timestamp: 0,
        network: 0,
        body: Some(hub_rs::message::Body::UsernameProofBody(body)),
    };
    let expected: Vec<u8> = vec![
        0x08, 0x0C, // type = 12; zero fid, timestamp, network omitted
        0x7A, 0x0B, // username_proof_body, 11 bytes
        0x08, 0x80, 0x01, // timestamp = 128, two varint bytes
        0x12, 0x01, 0x61, // name; empty owner omitted
        0x22, 0x01, 0x01, // signature; zero fid omitted
        0x30, 0x01, // proof type = 1
    ];
    assert_eq!(encode_message_data(&data), expected);
}

#[test]
fn canonical_encoding_remaining_body_variants() {
    let envelope = |msg_type, body| MessageData {
        msg_type,
        fid: 1,
        timestamp: 1,
        network: 1,
        body: Some(body),
    };
    let head: Vec<u8> = vec![0x08, 0x00, 0x10, 0x01, 0x18, 0x01, 0x20, 0x01];
    let with_type = |t: u8, tail: &[u8]| {
        let mut v = head.clone();
        v[1] = t;
        v.extend_from_slice(tail);
        v
    };

    let cast_remove = hub_rs::message::Body::CastRemoveBody(hub_rs::message::CastRemoveBody {
        target_hash: vec![0x01, 0x02],
    });
    assert_eq!(
        encode_message_data(&envelope(2, cast_remove)),
        with_type(2, &[0x32, 0x04, 0x0A, 0x02, 0x01, 0x02])
    );

    let reaction = hub_rs::message::Body::ReactionBody(hub_rs::message::ReactionBody {
        reaction_type: 1,
        target_cast_id: Some(hub_rs::message::CastId { fid: 3, hash: vec![0xFF] }),
    });
    assert_eq!(
        encode_message_data(&envelope(3, reaction)),
        with_type(3, &[0x3A, 0x09, 0x08, 0x01, 0x12, 0x05, 0x08, 0x03, 0x12, 0x01, 0xFF])
    );

    let verification_add = hub_rs::message::Body::VerificationAddEthAddressBody(
        hub_rs::message::VerificationAddEthAddressBody {
            address: vec![0x0A],
            eth_signature: vec![0x0B],
            block_hash: Vec::new(),
        },
    );
    assert_eq!(
        encode_message_data(&envelope(7, verification_add)),
        with_type(7, &[0x4A, 0x06, 0x0A, 0x01, 0x0A, 0x12, 0x01, 0x0B])
    );

    let verification_remove = hub_rs::message::Body::VerificationRemoveBody(
        hub_rs::message::VerificationRemoveBody { address: vec![0x0C] },
    );
    assert_eq!(
        encode_message_data(&envelope(8, verification_remove)),
        with_type(8, &[0x52, 0x03, 0x0A, 0x01, 0x0C])
    );

    let signer_add = hub_rs::message::Body::SignerAddBody(SignerAddBody {
        signer: vec![0x01],
        name: String::from("k"),
    });
    assert_eq!(
        encode_message_data(&envelope(9, signer_add)),
        with_type(9, &[0x5A, 0x06, 0x0A, 0x01, 0x01, 0x12, 0x01, 0x6B])
    );

    let signer_remove = hub_rs::message::Body::SignerRemoveBody(
        hub_rs::message::SignerRemoveBody { signer: vec![0x02] },
    );
    assert_eq!(
        encode_message_data(&envelope(10, signer_remove)),
        with_type(10, &[0x62, 0x03, 0x0A, 0x01, 0x02])
    );

    let user_data = hub_rs::message::Body::UserDataBody(UserDataBody {
        data_type: 2,
        value: String::from("x"),
    });
    assert_eq!(
        encode_message_data(&envelope(11, user_data)),
        with_type(11, &[0x6A, 0x05, 0x08, 0x02, 0x12, 0x01, 0x78])
    );
}

#[test]
fn canonical_encoding_empty_values() {
    let all_zero = MessageData { msg_type: 0, fid: 0, timestamp: 0, network: 0, body: None };
    assert_eq!(encode_message_data(&all_zero), Vec::<u8>::new());

    let empty_body = MessageData {
        msg_type: 1,
        fid: 0,
        timestamp: 0,
        network: 0,
        body: Some(hub_rs::message::Body::CastAddBody(CastAddBody {
            mentions: Vec::new(),
            parent_cast_id: None,
            text: String::new(),
        })),
    };
    // The active union arm is written even when its payload is empty.
    assert_eq!(encode_message_data(&empty_body), vec![0x08, 0x01, 0x2A, 0x00]);
}

#[test]
fn sign_envelope_via_signer_crate_matches() {
    // The signature embedded in a finished message is the deterministic
    // Ed25519 signature of the digest.
    let options = MessageDataOptions {
        fid: 5,
        network: FarcasterNetwork::Devnet,
        timestamp: Some(123),
    };
    let key = fresh_key();
    let message = make_signer_add(
        SignerAddBody { signer: vec![1, 2, 3], name: String::from("key") },
        options,
        SigningKey::from_bytes(&[7u8; 32]),
    )
    .unwrap();
    let expected = key.sign(&message.hash);
    assert_eq!(message.signature, expected.to_vec());
    assert_eq!(message.signer, key.verifying_key().as_bytes().to_vec());
    assert_eq!(message.data.as_ref().unwrap().msg_type, 9);
    assert_eq!(message.hash_scheme, 1);
    assert_eq!(message.signature_scheme, 1);
}

#[test]
fn builder_uses_now_when_timestamp_is_omitted() {
    let options = MessageDataOptions {
        fid: 1,
        network: FarcasterNetwork::Testnet,
        timestamp: None,
    };
    let data = make_message_data(
        MessageBodyOptions::UserDataBody(UserDataBody { data_type: 1, value: String::from("x") }),
        MessageType::UserDataAdd,
        options,
    )
    .unwrap();
    let now = get_farcaster_time().unwrap();
    assert!(data.timestamp as i64 <= now);
    assert!(data.timestamp as i64 >= now - 5);
    assert_eq!(data.msg_type, 11);
    assert_eq!(data.network, 2);
}

#[test]
fn timestamp_resolution_rules() {
    assert_eq!(resolve_timestamp(Some(5), Some(100)), Ok(5));
    assert_eq!(resolve_timestamp(Some(5), None), Ok(5));
    assert_eq!(resolve_timestamp(None, Some(100)), Ok(100));
    assert_eq!(
        resolve_timestamp(None, Some(u32::MAX as i64 + 1)),
        Err(HubError::TimestampUnavailable)
    );
    assert_eq!(resolve_timestamp(None, Some(-1)), Err(HubError::TimestampUnavailable));
    assert_eq!(resolve_timestamp(None, None), Err(HubError::TimestampUnavailable));
}

#[test]
fn validator_accepts_at_exact_skew_bound_and_rejects_past_it() {
    let envelope = |ts| MessageData {
        msg_type: 1,
        fid: 1,
        timestamp: ts,
        network: 1,
        body: None,
    };
    assert!(validate_message_data_at(envelope(700), 100).is_ok());
    assert_eq!(
        validate_message_data_at(envelope(701), 100),
        Err(HubError::TimestampInFuture)
    );
}

#[test]
fn validator_rejects_future_timestamp_against_wall_clock() {
    let envelope = MessageData {
        msg_type: 1,
        fid: 1,
        timestamp: u32::MAX,
        network: 1,
        body: None,
    };
    assert_eq!(validate_message_data(envelope), Err(HubError::TimestampInFuture));
}

#[test]
fn validator_network_and_type_ranges() {
    let envelope = |network, msg_type| MessageData {
        msg_type,
        fid: 1,
        timestamp: 100,
        network,
        body: None,
    };
    for network in 0..=3u64 {
        for msg_type in 0..=12u64 {
            assert!(validate_message_data_at(envelope(network, msg_type), 100).is_ok());
        }
    }
    assert_eq!(
        validate_message_data_at(envelope(4, 1), 100),
        Err(HubError::InvalidNetwork)
    );
    assert_eq!(
        validate_message_data_at(envelope(1, 13), 100),
        Err(HubError::InvalidMessageType)
    );
}

#[test]
fn envelope_with_undefined_network_fails_validation() {
    let envelope = MessageData {
        msg_type: 1,
        fid: 1,
        timestamp: 0,
        network: 9999,
        body: None,
    };
    assert_eq!(validate_message_data(envelope), Err(HubError::InvalidNetwork));
}

#[test]
fn validator_passes_valid_envelope_through_unchanged() {
    let envelope = MessageData {
        msg_type: 2,
        fid: 77,
        timestamp: 0,
        network: 3,
        body: None,
    };
    let validated = validate_message_data(envelope).unwrap();
    assert_eq!(validated.msg_type, 2);
    assert_eq!(validated.fid, 77);
    assert_eq!(validated.timestamp, 0);
    assert_eq!(validated.network, 3);
}

#[test]
fn hex_encoding_renders_lowercase_pairs() {
    assert_eq!(bytes_to_hex_string(&vec![0xDE, 0xAD, 0xBE, 0xEF]), "deadbeef");
    assert_eq!(bytes_to_hex_string(&Vec::new()), "");
    assert_eq!(bytes_to_hex_string(&vec![0x00, 0x0F]), "000f");
}

#[test]
fn hex_decoding_reads_both_cases_and_round_trips() {
    assert_eq!(
        hex_string_to_bytes(String::from("deadbeef")).unwrap(),
        vec![0xDE, 0xAD, 0xBE, 0xEF]
    );
    assert_eq!(
        hex_string_to_bytes(String::from("DeadBEEF")).unwrap(),
        vec![0xDE, 0xAD, 0xBE, 0xEF]
    );
    let bytes = vec![0x01, 0x23, 0x45, 0x67, 0x89, 0xAB, 0xCD, 0xEF];
    assert_eq!(hex_string_to_bytes(bytes_to_hex_string(&bytes)).unwrap(), bytes);
}

#[test]
fn hex_decoding_rejects_bad_text() {
    assert_eq!(hex_string_to_bytes(String::from("abc")), Err(HexError::OddLength));
    assert_eq!(
        hex_string_to_bytes(String::from("zz")),
        Err(HexError::InvalidHexCharacter)
    );
}

#[test]
fn corrupted_signature_fails_verification() {
    let options = MessageDataOptions {
        fid: 9,
        network: FarcasterNetwork::Mainnet,
        timestamp: Some(1),
    };
    let message = make_cast_add(cast_add_hello(), options, fresh_key()).unwrap();
    let key_bytes: [u8; 32] = message.signer.as_slice().try_into().unwrap();
    let verifying_key = VerifyingKey::from_bytes(&key_bytes).unwrap();

    let mut bad_signature = message.signature.clone();
    bad_signature[0] ^= 0x01;
    let bad_signature = Signature::from_slice(&bad_signature).unwrap();
    assert!(verifying_key.verify(&message.hash, &bad_signature).is_err());

    let mut bad_digest = message.hash.clone();
    bad_digest[0] ^= 0x01;
    let signature = Signature::from_slice(&message.signature).unwrap();
    assert!(verifying_key.verify(&bad_digest, &signature).is_err());
}
