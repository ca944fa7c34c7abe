//! Canonical serialization of the message-data envelope.
//!
//! The wire format is the protocol-buffers binary encoding of the externally
//! fixed schema: base-128 varints, little-group-first, key bytes of
//! `field * 8 + wire_type`, length-delimited nested messages, and proto3
//! field presence (scalar fields are omitted when zero or empty; an active
//! union arm and a present optional message are always written). The spec
//! functions here define that byte sequence exactly, and every encoder is
//! proved to produce it.

use vstd::prelude::*;
use vstd::utf8::encode_utf8;
use crate::message::{
    Body, CastAddBody, CastId, CastRemoveBody, LinkBody, MessageData, ReactionBody, SignerAddBody,
    SignerRemoveBody, UserDataBody, UserNameProof, VerificationAddEthAddressBody,
    VerificationRemoveBody,
};

verus! {

/// The base-128 varint encoding of `n`: seven bits per byte, least
/// significant group first, high bit set on every byte but the last.
pub open spec fn spec_varint(n: u64) -> Seq<u8>
    decreases n,
{
    if n < 128 {
        seq![n as u8]
    } else {
        seq![(n % 128 + 128) as u8] + spec_varint(n / 128)
    }
}

/// The key byte(s) announcing field `field` with wire type `wire`.
pub open spec fn spec_key(field: u64, wire: u64) -> Seq<u8>
    recommends
        field <= 15,
        wire <= 5,
{
    spec_varint((field * 8 + wire) as u64)
}

/// A length-delimited field: key, payload length as a varint, payload.
pub open spec fn spec_len_delim(field: u64, payload: Seq<u8>) -> Seq<u8>
    recommends
        field <= 15,
{
    spec_key(field, 2) + spec_varint(payload.len() as u64) + payload
}

/// A varint scalar field under proto3 presence: omitted when zero.
pub open spec fn spec_u64_field(field: u64, v: u64) -> Seq<u8>
    recommends
        field <= 15,
{
    if v == 0 {
        Seq::empty()
    } else {
        spec_key(field, 0) + spec_varint(v)
    }
}

/// A bytes or string field under proto3 presence: omitted when empty.
pub open spec fn spec_bytes_field(field: u64, b: Seq<u8>) -> Seq<u8>
    recommends
        field <= 15,
{
    if b.len() == 0 {
        Seq::empty()
    } else {
        spec_len_delim(field, b)
    }
}

/// The varint encodings of a sequence of values, concatenated.
pub open spec fn spec_varint_concat(vs: Seq<u64>) -> Seq<u8>
    decreases vs.len(),
{
    if vs.len() == 0 {
        Seq::empty()
    } else {
        spec_varint(vs[0]) + spec_varint_concat(vs.drop_first())
    }
}

/// A packed repeated varint field: omitted when empty, else one
/// length-delimited run of all the encodings.
pub open spec fn spec_packed_u64_field(field: u64, vs: Seq<u64>) -> Seq<u8>
    recommends
        field <= 15,
{
    if vs.len() == 0 {
        Seq::empty()
    } else {
        spec_len_delim(field, spec_varint_concat(vs))
    }
}

/// An optional nested message: written whenever present, empty or not.
pub open spec fn spec_opt_msg_field(field: u64, inner: Option<Seq<u8>>) -> Seq<u8>
    recommends
        field <= 15,
{
    match inner {
        Option::Some(p) => spec_len_delim(field, p),
        Option::None => Seq::empty(),
    }
}

pub open spec fn spec_encode_cast_id(c: CastId) -> Seq<u8> {
    spec_u64_field(1, c.fid) + spec_bytes_field(2, c.hash@)
}

pub open spec fn spec_encode_cast_add(b: CastAddBody) -> Seq<u8> {
    spec_packed_u64_field(2, b.mentions@) + spec_opt_msg_field(
        3,
        match b.parent_cast_id {
            Option::Some(c) => Option::Some(spec_encode_cast_id(c)),
            Option::None => Option::None,
        },
    ) + spec_bytes_field(4, encode_utf8(b.text@))
}

pub open spec fn spec_encode_cast_remove(b: CastRemoveBody) -> Seq<u8> {
    spec_bytes_field(1, b.target_hash@)
}

pub open spec fn spec_encode_reaction(b: ReactionBody) -> Seq<u8> {
    spec_u64_field(1, b.reaction_type) + spec_opt_msg_field(
        2,
        match b.target_cast_id {
            Option::Some(c) => Option::Some(spec_encode_cast_id(c)),
            Option::None => Option::None,
        },
    )
}

pub open spec fn spec_encode_verification_add(b: VerificationAddEthAddressBody) -> Seq<u8> {
    spec_bytes_field(1, b.address@) + spec_bytes_field(2, b.eth_signature@) + spec_bytes_field(
        3,
        b.block_hash@,
    )
}

pub open spec fn spec_encode_verification_remove(b: VerificationRemoveBody) -> Seq<u8> {
    spec_bytes_field(1, b.address@)
}

pub open spec fn spec_encode_signer_add(b: SignerAddBody) -> Seq<u8> {
    spec_bytes_field(1, b.signer@) + spec_bytes_field(2, encode_utf8(b.name@))
}

pub open spec fn spec_encode_signer_remove(b: SignerRemoveBody) -> Seq<u8> {
    spec_bytes_field(1, b.signer@)
}

pub open spec fn spec_encode_user_data(b: UserDataBody) -> Seq<u8> {
    spec_u64_field(1, b.data_type) + spec_bytes_field(2, encode_utf8(b.value@))
}

pub open spec fn spec_encode_link(b: LinkBody) -> Seq<u8> {
    spec_bytes_field(1, encode_utf8(b.link_type@)) + (match b.display_timestamp {
        Option::Some(ts) => spec_key(2, 0) + spec_varint(ts as u64),
        Option::None => Seq::empty(),
    }) + spec_u64_field(3, b.target_fid)
}

pub open spec fn spec_encode_username_proof(b: UserNameProof) -> Seq<u8> {
    spec_u64_field(1, b.timestamp) + spec_bytes_field(2, b.name@) + spec_bytes_field(3, b.owner@)
        + spec_bytes_field(4, b.signature@) + spec_u64_field(5, b.fid) + spec_u64_field(
        6,
        b.proof_type,
    )
}

/// The active union arm of the envelope, as a length-delimited field under
/// the arm's own field number.
pub open spec fn spec_encode_body(b: Body) -> Seq<u8> {
    match b {
        Body::CastAddBody(x) => spec_len_delim(5, spec_encode_cast_add(x)),
        Body::CastRemoveBody(x) => spec_len_delim(6, spec_encode_cast_remove(x)),
        Body::ReactionBody(x) => spec_len_delim(7, spec_encode_reaction(x)),
        Body::VerificationAddEthAddressBody(x) => spec_len_delim(
            9,
            spec_encode_verification_add(x),
        ),
        Body::VerificationRemoveBody(x) => spec_len_delim(10, spec_encode_verification_remove(x)),
        Body::SignerAddBody(x) => spec_len_delim(11, spec_encode_signer_add(x)),
        Body::SignerRemoveBody(x) => spec_len_delim(12, spec_encode_signer_remove(x)),
        Body::UserDataBody(x) => spec_len_delim(13, spec_encode_user_data(x)),
        Body::LinkBody(x) => spec_len_delim(14, spec_encode_link(x)),
        Body::UsernameProofBody(x) => spec_len_delim(15, spec_encode_username_proof(x)),
    }
}

/// The canonical byte form of a message-data envelope.
pub open spec fn spec_encode_message_data(d: MessageData) -> Seq<u8> {
    spec_u64_field(1, d.msg_type) + spec_u64_field(2, d.fid) + spec_u64_field(
        3,
        d.timestamp as u64,
    ) + spec_u64_field(4, d.network) + (match d.body {
        Option::Some(b) => spec_encode_body(b),
        Option::None => Seq::empty(),
    })
}

/// Appends the varint encoding of `n` to `buf`.
fn write_varint(buf: &mut Vec<u8>, n: u64)
    ensures
        final(buf)@ == old(buf)@ + spec_varint(n),
{
    let mut x: u64 = n;
    while x >= 128
        invariant
            old(buf)@ + spec_varint(n) == buf@ + spec_varint(x),
        decreases x,
    {
        buf.push((x % 128 + 128) as u8);
        proof {
            assert(old(buf)@ + spec_varint(n) =~= buf@ + spec_varint(x / 128));
        }
        x = x / 128;
    }
    buf.push(x as u8);
    proof {
        assert(buf@ =~= old(buf)@ + spec_varint(n));
    }
}

/// Appends the key of field `field` with wire type `wire`.
fn write_key(buf: &mut Vec<u8>, field: u64, wire: u64)
    requires
        field <= 15,
        wire <= 5,
    ensures
        final(buf)@ == old(buf)@ + spec_key(field, wire),
{
    write_varint(buf, field * 8 + wire);
}

/// Appends every byte of `b` to `buf`.
fn write_bytes(buf: &mut Vec<u8>, b: &Vec<u8>)
    ensures
        final(buf)@ == old(buf)@ + b@,
{
    let mut i: usize = 0;
    while i < b.len()
        invariant
            i <= b@.len(),
            buf@ == old(buf)@ + b@.take(i as int),
        decreases b@.len() - i,
    {
        buf.push(b[i]);
        proof {
            assert(buf@ =~= old(buf)@ + b@.take(i + 1 as int));
        }
        i = i + 1;
    }
    proof {
        assert(b@.take(b@.len() as int) =~= b@);
    }
}

/// Appends a varint scalar field, omitting it when the value is zero.
fn write_u64_field(buf: &mut Vec<u8>, field: u64, v: u64)
    requires
        field <= 15,
    ensures
        final(buf)@ == old(buf)@ + spec_u64_field(field, v),
{
    if v != 0 {
        write_key(buf, field, 0);
        write_varint(buf, v);
        proof {
            assert(buf@ =~= old(buf)@ + spec_u64_field(field, v));
        }
    } else {
        proof {
            assert(buf@ =~= old(buf)@ + spec_u64_field(field, v));
        }
    }
}

/// Appends a length-delimited field holding `payload`.
fn write_len_delim(buf: &mut Vec<u8>, field: u64, payload: &Vec<u8>)
    requires
        field <= 15,
    ensures
        final(buf)@ == old(buf)@ + spec_len_delim(field, payload@),
{
    write_key(buf, field, 2);
    write_varint(buf, payload.len() as u64);
    write_bytes(buf, payload);
    proof {
        assert(buf@ =~= old(buf)@ + spec_len_delim(field, payload@));
    }
}

/// Appends a bytes field, omitting it when `b` is empty.
fn write_bytes_field(buf: &mut Vec<u8>, field: u64, b: &Vec<u8>)
    requires
        field <= 15,
    ensures
        final(buf)@ == old(buf)@ + spec_bytes_field(field, b@),
{
    if b.len() > 0 {
        write_len_delim(buf, field, b);
    } else {
        proof {
            assert(buf@ =~= old(buf)@ + spec_bytes_field(field, b@));
        }
    }
}

/// Appends a string field as its UTF-8 bytes, omitting it when empty.
fn write_string_field(buf: &mut Vec<u8>, field: u64, s: &String)
    requires
        field <= 15,
    ensures
        final(buf)@ == old(buf)@ + spec_bytes_field(field, encode_utf8(s@)),
{
    let bytes = s.as_str().as_bytes_vec();
    write_bytes_field(buf, field, &bytes);
}

proof fn lemma_varint_concat_snoc(vs: Seq<u64>, x: u64)
    ensures
        spec_varint_concat(vs.push(x)) == spec_varint_concat(vs) + spec_varint(x),
    decreases vs.len(),
{
    if vs.len() == 0 {
        assert(vs.push(x).drop_first() =~= Seq::<u64>::empty());
        assert(spec_varint_concat(Seq::<u64>::empty()) =~= Seq::<u8>::empty());
        assert(vs.push(x)[0] == x);
        assert(spec_varint_concat(vs.push(x)) == spec_varint(x) + spec_varint_concat(
            Seq::<u64>::empty(),
        ));
        assert(spec_varint_concat(vs.push(x)) =~= spec_varint_concat(vs) + spec_varint(x));
    } else {
        assert(vs.push(x).drop_first() =~= vs.drop_first().push(x));
        lemma_varint_concat_snoc(vs.drop_first(), x);
        assert(vs.push(x)[0] == vs[0]);
        assert(spec_varint_concat(vs.push(x)) == spec_varint(vs[0]) + spec_varint_concat(
            vs.drop_first().push(x),
        ));
        assert(spec_varint_concat(vs.push(x)) == spec_varint(vs[0]) + (spec_varint_concat(
            vs.drop_first(),
        ) + spec_varint(x)));
        assert(spec_varint_concat(vs.push(x)) =~= spec_varint_concat(vs) + spec_varint(x));
    }
}

/// Appends a packed repeated varint field, omitting it when `vs` is empty.
fn write_packed_u64_field(buf: &mut Vec<u8>, field: u64, vs: &Vec<u64>)
    requires
        field <= 15,
    ensures
        final(buf)@ == old(buf)@ + spec_packed_u64_field(field, vs@),
{
    if vs.len() == 0 {
        proof {
            assert(buf@ =~= old(buf)@ + spec_packed_u64_field(field, vs@));
        }
        return ;
    }
    let mut run: Vec<u8> = Vec::new();
    let mut i: usize = 0;
    while i < vs.len()
        invariant
            i <= vs@.len(),
            run@ == spec_varint_concat(vs@.take(i as int)),
        decreases vs@.len() - i,
    {
        write_varint(&mut run, vs[i]);
        proof {
            assert(vs@.take(i + 1 as int) =~= vs@.take(i as int).push(vs@[i as int]));
            lemma_varint_concat_snoc(vs@.take(i as int), vs@[i as int]);
        }
        i = i + 1;
    }
    proof {
        assert(vs@.take(vs@.len() as int) =~= vs@);
    }
    write_len_delim(buf, field, &run);
}

/// Encodes a cast id into its canonical byte form.
fn encode_cast_id(c: &CastId) -> (r: Vec<u8>)
    ensures
        r@ == spec_encode_cast_id(*c),
{
    let mut buf: Vec<u8> = Vec::new();
    write_u64_field(&mut buf, 1, c.fid);
    write_bytes_field(&mut buf, 2, &c.hash);
    proof {
        assert(buf@ =~= spec_encode_cast_id(*c));
    }
    buf
}

fn encode_cast_add(b: &CastAddBody) -> (r: Vec<u8>)
    ensures
        r@ == spec_encode_cast_add(*b),
{
    let mut buf: Vec<u8> = Vec::new();
    write_packed_u64_field(&mut buf, 2, &b.mentions);
    match &b.parent_cast_id {
        Option::Some(c) => {
            let inner = encode_cast_id(c);
            write_len_delim(&mut buf, 3, &inner);
        },
        Option::None => {},
    }
    write_string_field(&mut buf, 4, &b.text);
    proof {
        assert(buf@ =~= spec_encode_cast_add(*b));
    }
    buf
}

fn encode_cast_remove(b: &CastRemoveBody) -> (r: Vec<u8>)
    ensures
        r@ == spec_encode_cast_remove(*b),
{
    let mut buf: Vec<u8> = Vec::new();
    write_bytes_field(&mut buf, 1, &b.target_hash);
    proof {
        assert(buf@ =~= spec_encode_cast_remove(*b));
    }
    buf
}

fn encode_reaction(b: &ReactionBody) -> (r: Vec<u8>)
    ensures
        r@ == spec_encode_reaction(*b),
{
    let mut buf: Vec<u8> = Vec::new();
    write_u64_field(&mut buf, 1, b.reaction_type);
    match &b.target_cast_id {
        Option::Some(c) => {
            let inner = encode_cast_id(c);
            write_len_delim(&mut buf, 2, &inner);
        },
        Option::None => {},
    }
    proof {
        assert(buf@ =~= spec_encode_reaction(*b));
    }
    buf
}

fn encode_verification_add(b: &VerificationAddEthAddressBody) -> (r: Vec<u8>)
    ensures
        r@ == spec_encode_verification_add(*b),
{
    let mut buf: Vec<u8> = Vec::new();
    write_bytes_field(&mut buf, 1, &b.address);
    write_bytes_field(&mut buf, 2, &b.eth_signature);
    write_bytes_field(&mut buf, 3, &b.block_hash);
    proof {
        assert(buf@ =~= spec_encode_verification_add(*b));
    }
    buf
}

fn encode_verification_remove(b: &VerificationRemoveBody) -> (r: Vec<u8>)
    ensures
        r@ == spec_encode_verification_remove(*b),
{
    let mut buf: Vec<u8> = Vec::new();
    write_bytes_field(&mut buf, 1, &b.address);
    proof {
        assert(buf@ =~= spec_encode_verification_remove(*b));
    }
    buf
}

fn encode_signer_add(b: &SignerAddBody) -> (r: Vec<u8>)
    ensures
        r@ == spec_encode_signer_add(*b),
{
    let mut buf: Vec<u8> = Vec::new();
    write_bytes_field(&mut buf, 1, &b.signer);
    write_string_field(&mut buf, 2, &b.name);
    proof {
        assert(buf@ =~= spec_encode_signer_add(*b));
    }
    buf
}

fn encode_signer_remove(b: &SignerRemoveBody) -> (r: Vec<u8>)
    ensures
        r@ == spec_encode_signer_remove(*b),
{
    let mut buf: Vec<u8> = Vec::new();
    write_bytes_field(&mut buf, 1, &b.signer);
    proof {
        assert(buf@ =~= spec_encode_signer_remove(*b));
    }
    buf
}

fn encode_user_data(b: &UserDataBody) -> (r: Vec<u8>)
    ensures
        r@ == spec_encode_user_data(*b),
{
    let mut buf: Vec<u8> = Vec::new();
    write_u64_field(&mut buf, 1, b.data_type);
    write_string_field(&mut buf, 2, &b.value);
    proof {
        assert(buf@ =~= spec_encode_user_data(*b));
    }
    buf
}

fn encode_link(b: &LinkBody) -> (r: Vec<u8>)
    ensures
        r@ == spec_encode_link(*b),
{
    let mut buf: Vec<u8> = Vec::new();
    write_string_field(&mut buf, 1, &b.link_type);
    match &b.display_timestamp {
        Option::Some(ts) => {
            write_key(&mut buf, 2, 0);
            write_varint(&mut buf, *ts as u64);
        },
        Option::None => {},
    }
    write_u64_field(&mut buf, 3, b.target_fid);
    proof {
        assert(buf@ =~= spec_encode_link(*b));
    }
    buf
}

fn encode_username_proof(b: &UserNameProof) -> (r: Vec<u8>)
    ensures
        r@ == spec_encode_username_proof(*b),
{
    let mut buf: Vec<u8> = Vec::new();
    write_u64_field(&mut buf, 1, b.timestamp);
    write_bytes_field(&mut buf, 2, &b.name);
    write_bytes_field(&mut buf, 3, &b.owner);
    write_bytes_field(&mut buf, 4, &b.signature);
    write_u64_field(&mut buf, 5, b.fid);
    write_u64_field(&mut buf, 6, b.proof_type);
    proof {
        assert(buf@ =~= spec_encode_username_proof(*b));
    }
    buf
}

/// Appends the envelope's active union arm to `buf`.
fn write_body(buf: &mut Vec<u8>, b: &Body)
    ensures
        final(buf)@ == old(buf)@ + spec_encode_body(*b),
{
    match b {
        Body::CastAddBody(x) => {
            let inner = encode_cast_add(x);
            write_len_delim(buf, 5, &inner);
        },
        Body::CastRemoveBody(x) => {
            let inner = encode_cast_remove(x);
            write_len_delim(buf, 6, &inner);
        },
        Body::ReactionBody(x) => {
            let inner = encode_reaction(x);
            write_len_delim(buf, 7, &inner);
        },
        Body::VerificationAddEthAddressBody(x) => {
            let inner = encode_verification_add(x);
            write_len_delim(buf, 9, &inner);
        },
        Body::VerificationRemoveBody(x) => {
            let inner = encode_verification_remove(x);
            write_len_delim(buf, 10, &inner);
        },
        Body::SignerAddBody(x) => {
            let inner = encode_signer_add(x);
            write_len_delim(buf, 11, &inner);
        },
        Body::SignerRemoveBody(x) => {
            let inner = encode_signer_remove(x);
            write_len_delim(buf, 12, &inner);
        },
        Body::UserDataBody(x) => {
            let inner = encode_user_data(x);
            write_len_delim(buf, 13, &inner);
        },
        Body::LinkBody(x) => {
            let inner = encode_link(x);
            write_len_delim(buf, 14, &inner);
        },
        Body::UsernameProofBody(x) => {
            let inner = encode_username_proof(x);
            write_len_delim(buf, 15, &inner);
        },
    }
}

/// Serializes a message-data envelope into its canonical byte form.
pub fn encode_message_data(d: &MessageData) -> (r: Vec<u8>)
    ensures
        r@ == spec_encode_message_data(*d),
{
    let mut buf: Vec<u8> = Vec::new();
    write_u64_field(&mut buf, 1, d.msg_type);
    write_u64_field(&mut buf, 2, d.fid);
    write_u64_field(&mut buf, 3, d.timestamp as u64);
    write_u64_field(&mut buf, 4, d.network);
    match &d.body {
        Option::Some(b) => {
            write_body(&mut buf, b);
        },
        Option::None => {},
    }
    proof {
        assert(buf@ =~= spec_encode_message_data(*d));
    }
    buf
}

} // verus!
