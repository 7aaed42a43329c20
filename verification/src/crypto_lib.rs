//! Local signing of transaction byte buffers: double-SHA256 digest, ECDSA
//! signature, DER encoding, and the splice of the signature into the buffer
//! at the signature index.

use vstd::prelude::*;
use crate::errors::DesoError;
use crate::hexutil::{hex_decode, hex_decode_ok, hex_decode_spec, hex_encode, hex_encode_spec};

verus! {

/// The 32-byte double-SHA256 digest of a byte buffer.
pub uninterp spec fn sha256d_of(data: Seq<u8>) -> Seq<u8>;

/// Whether 32 bytes are a valid secp256k1 secret scalar: nonzero and below
/// the curve order.
pub uninterp spec fn is_secret_scalar(key: Seq<u8>) -> bool;

/// The DER encoding of the deterministic (RFC 6979) ECDSA signature of a
/// 32-byte digest under a secret key.
pub uninterp spec fn ecdsa_der_signature(key: Seq<u8>, digest: Seq<u8>) -> Seq<u8>;

/// Relies on bitcoin_hashes::sha256d::Hash::hash: the 32-byte double-SHA256
/// digest depends on the input bytes alone.
#[verifier::external_body]
fn sha256d(data: &Vec<u8>) -> (r: Vec<u8>)
    ensures
        r@ == sha256d_of(data@),
        r@.len() == 32,
{
    bitcoin_hashes::sha256d::Hash::hash(data.as_slice()).to_byte_array().to_vec()
}

/// Relies on secp256k1: `SecretKey::from_secret_bytes` accepts exactly the
/// 32-byte arrays that are a valid secret scalar, and `ecdsa::sign` with
/// `serialize_der` produces the RFC 6979 deterministic DER signature of the
/// digest under the key, at most 72 bytes (`SerializedSignature::MAX_LEN`).
#[verifier::external_body]
fn ecdsa_sign_der(key: &Vec<u8>, digest: &Vec<u8>) -> (r: Option<Vec<u8>>)
    requires
        key@.len() == 32,
        digest@.len() == 32,
    ensures
        r is Some <==> is_secret_scalar(key@),
        r matches Some(sig) ==> sig@ == ecdsa_der_signature(key@, digest@),
        r matches Some(sig) ==> sig@.len() <= 72,
{
    let key_arr: [u8; 32] = key.as_slice().try_into().unwrap();
    let secret_key = match secp256k1::SecretKey::from_secret_bytes(key_arr) {
        Ok(k) => k,
        Err(_) => return None,
    };
    let digest_arr: [u8; 32] = digest.as_slice().try_into().unwrap();
    let message = secp256k1::Message::from_digest(digest_arr);
    Some(secp256k1::ecdsa::sign(message, &secret_key).serialize_der().to_vec())
}

/// The bytes that carry the DER signature's length in the signed buffer:
/// the little-endian bytes of the length with the zero bytes stripped. For
/// a length below 256 that is the one length byte, or nothing for length
/// zero.
pub open spec fn der_length_bytes(n: nat) -> Seq<u8>
    recommends
        n < 256,
{
    if n == 0 {
        Seq::<u8>::empty()
    } else {
        seq![n as u8]
    }
}

/// The signed transaction buffer: the bytes before the signature index,
/// then the signature's length bytes and the DER signature in place of the
/// one placeholder byte, then the rest of the buffer.
pub open spec fn spliced_transaction(tx: Seq<u8>, sig: Seq<u8>, i: int) -> Seq<u8> {
    tx.take(i) + der_length_bytes(sig.len()) + sig + tx.skip(i + 1)
}

/// Whether `sign` accepts its inputs: both hex strings decode, the key is a
/// valid 32-byte secret scalar, and the signature index lies within the
/// transaction buffer.
pub open spec fn sign_accepts(tx_hex: Seq<char>, seed_hex: Seq<char>, i: int) -> bool {
    &&& hex_decode_ok(seed_hex)
    &&& hex_decode_spec(seed_hex).len() == 32
    &&& hex_decode_ok(tx_hex)
    &&& i < hex_decode_spec(tx_hex).len()
    &&& is_secret_scalar(hex_decode_spec(seed_hex))
}

/// The hex encoding of the signed transaction buffer, for inputs that
/// `sign` accepts: the whole original buffer is digested, signed under the
/// key, and the DER signature spliced in at the signature index.
pub open spec fn signed_transaction_hex(tx_hex: Seq<char>, seed_hex: Seq<char>, i: int) -> Seq<
    char,
> {
    let tx = hex_decode_spec(tx_hex);
    let key = hex_decode_spec(seed_hex);
    hex_encode_spec(spliced_transaction(tx, ecdsa_der_signature(key, sha256d_of(tx)), i))
}

/// Signs a hex-encoded transaction buffer with a hex-encoded secp256k1
/// secret key, splicing the DER signature in at the signature index.
///
/// Malformed hex, an invalid key and an out-of-bounds index each give a
/// typed error instead of a panic.
pub fn sign(tx: String, seed_hex: String, signature_index: usize) -> (r: Result<
    String,
    DesoError,
>)
    ensures
        r is Ok <==> sign_accepts(tx@, seed_hex@, signature_index as int),
        r matches Ok(s) ==> s@ == signed_transaction_hex(tx@, seed_hex@, signature_index as int),
        r matches Err(e) ==> e is SigningError,
        !hex_decode_ok(seed_hex@) ==> (r matches Err(DesoError::SigningError(m)) && m@
            == "Error decoding seed hex"@),
        (hex_decode_ok(seed_hex@) && hex_decode_spec(seed_hex@).len() != 32) ==> (r matches Err(
            DesoError::SigningError(m),
        ) && m@ == "Invalid secret key"@),
        (hex_decode_ok(seed_hex@) && hex_decode_spec(seed_hex@).len() == 32 && !hex_decode_ok(tx@))
            ==> (r matches Err(DesoError::SigningError(m)) && m@
            == "Problem decoding transaction"@),
        (hex_decode_ok(seed_hex@) && hex_decode_spec(seed_hex@).len() == 32 && hex_decode_ok(tx@)
            && signature_index >= hex_decode_spec(tx@).len()) ==> (r matches Err(
            DesoError::SigningError(m),
        ) && m@ == "Signature index out of bounds"@),
        (hex_decode_ok(seed_hex@) && hex_decode_spec(seed_hex@).len() == 32 && hex_decode_ok(tx@)
            && signature_index < hex_decode_spec(tx@).len() && !is_secret_scalar(
            hex_decode_spec(seed_hex@),
        )) ==> (r matches Err(DesoError::SigningError(m)) && m@ == "Invalid secret key"@),
{
    let private_key = match hex_decode(seed_hex.as_str()) {
        Ok(b) => b,
        Err(_) => {
            return Err(DesoError::SigningError("Error decoding seed hex".to_owned()));
        },
    };
    if private_key.len() != 32 {
        return Err(DesoError::SigningError("Invalid secret key".to_owned()));
    }
    let transaction_bytes = match hex_decode(tx.as_str()) {
        Ok(b) => b,
        Err(_) => {
            return Err(DesoError::SigningError("Problem decoding transaction".to_owned()));
        },
    };
    if signature_index >= transaction_bytes.len() {
        return Err(DesoError::SigningError("Signature index out of bounds".to_owned()));
    }

    // Double-hash the entire original buffer, placeholder included, and
    // sign the digest.
    let digest = sha256d(&transaction_bytes);
    let serialized_sig = match ecdsa_sign_der(&private_key, &digest) {
        Some(s) => s,
        None => {
            return Err(DesoError::SigningError("Invalid secret key".to_owned()));
        },
    };

    let ghost tx_seq = transaction_bytes@;
    let ghost sig_seq = serialized_sig@;
    let ghost idx = signature_index as int;

    let mut signed: Vec<u8> = Vec::new();
    proof {
        assert(signed@ =~= tx_seq.take(0));
    }
    let mut i: usize = 0;
    while i < signature_index
        invariant
            i <= signature_index,
            signature_index < transaction_bytes@.len(),
            transaction_bytes@ == tx_seq,
            signed@ == tx_seq.take(i as int),
        decreases signature_index - i,
    {
        signed.push(transaction_bytes[i]);
        proof {
            assert(signed@ =~= tx_seq.take(i + 1));
        }
        i = i + 1;
    }

    if serialized_sig.len() > 0 {
        signed.push(serialized_sig.len() as u8);
    }
    proof {
        assert(signed@ =~= tx_seq.take(idx) + der_length_bytes(sig_seq.len()));
        assert(signed@ =~= tx_seq.take(idx) + der_length_bytes(sig_seq.len()) + sig_seq.take(0));
    }

    let mut j: usize = 0;
    while j < serialized_sig.len()
        invariant
            j <= serialized_sig@.len(),
            serialized_sig@ == sig_seq,
            signed@ == tx_seq.take(idx) + der_length_bytes(sig_seq.len()) + sig_seq.take(j as int),
        decreases serialized_sig@.len() - j,
    {
        signed.push(serialized_sig[j]);
        proof {
            assert(signed@ =~= tx_seq.take(idx) + der_length_bytes(sig_seq.len()) + sig_seq.take(
                j + 1,
            ));
        }
        j = j + 1;
    }
    proof {
        assert(sig_seq.take(sig_seq.len() as int) =~= sig_seq);
    }

    proof {
        assert(signed@ =~= tx_seq.take(idx) + der_length_bytes(sig_seq.len()) + sig_seq
            + tx_seq.subrange(idx + 1, idx + 1));
    }
    let mut k: usize = signature_index + 1;
    while k < transaction_bytes.len()
        invariant
            idx + 1 <= k <= transaction_bytes@.len(),
            idx == signature_index,
            transaction_bytes@ == tx_seq,
            serialized_sig@ == sig_seq,
            signed@ == tx_seq.take(idx) + der_length_bytes(sig_seq.len()) + sig_seq
                + tx_seq.subrange(idx + 1, k as int),
        decreases transaction_bytes@.len() - k,
    {
        signed.push(transaction_bytes[k]);
        proof {
            let pre = tx_seq.take(idx) + der_length_bytes(sig_seq.len()) + sig_seq;
            assert(signed@ == (pre + tx_seq.subrange(idx + 1, k as int)).push(
                tx_seq[k as int],
            ));
            assert((pre + tx_seq.subrange(idx + 1, k as int)).push(tx_seq[k as int]) =~= pre
                + tx_seq.subrange(idx + 1, k + 1));
        }
        k = k + 1;
    }
    proof {
        assert(tx_seq.subrange(idx + 1, tx_seq.len() as int) =~= tx_seq.skip(idx + 1));
        assert(signed@ == spliced_transaction(tx_seq, sig_seq, idx));
    }

    Ok(hex_encode(&signed))
}

/// Signing is deterministic: the signed transaction is a function of the
/// transaction hex, the key hex and the signature index alone, so two
/// results for the same inputs agree.
pub proof fn lemma_sign_deterministic(
    tx_hex: Seq<char>,
    seed_hex: Seq<char>,
    i: int,
    r1: Seq<char>,
    r2: Seq<char>,
)
    requires
        r1 == signed_transaction_hex(tx_hex, seed_hex, i),
        r2 == signed_transaction_hex(tx_hex, seed_hex, i),
    ensures
        r1 == r2,
{
}

/// The signed transaction hex decodes losslessly back to the signed buffer:
/// the original bytes with the DER signature of their digest spliced in at
/// the signature index.
pub proof fn lemma_signed_transaction_decodes(tx_hex: Seq<char>, seed_hex: Seq<char>, i: int)
    ensures
        hex_decode_ok(signed_transaction_hex(tx_hex, seed_hex, i)),
        hex_decode_spec(signed_transaction_hex(tx_hex, seed_hex, i)) == spliced_transaction(
            hex_decode_spec(tx_hex),
            ecdsa_der_signature(
                hex_decode_spec(seed_hex),
                sha256d_of(hex_decode_spec(tx_hex)),
            ),
            i,
        ),
{
    let tx = hex_decode_spec(tx_hex);
    let key = hex_decode_spec(seed_hex);
    crate::hexutil::lemma_hex_round_trip(
        spliced_transaction(tx, ecdsa_der_signature(key, sha256d_of(tx)), i),
    );
}

/// The splice lands exactly at the signature index: the signed buffer keeps
/// the bytes before the index, then carries the length bytes and the DER
/// signature, then the bytes that followed the placeholder.
pub proof fn lemma_splice_position(tx: Seq<u8>, sig: Seq<u8>, i: int)
    requires
        0 <= i < tx.len(),
    ensures
        spliced_transaction(tx, sig, i).len() == tx.len() - 1 + der_length_bytes(sig.len()).len()
            + sig.len(),
        spliced_transaction(tx, sig, i).take(i) == tx.take(i),
        spliced_transaction(tx, sig, i).subrange(
            i + der_length_bytes(sig.len()).len(),
            i + der_length_bytes(sig.len()).len() + sig.len(),
        ) == sig,
        spliced_transaction(tx, sig, i).skip(
            i + der_length_bytes(sig.len()).len() + sig.len(),
        ) == tx.skip(i + 1),
{
    let s = spliced_transaction(tx, sig, i);
    let lb = der_length_bytes(sig.len());
    assert(s.take(i) =~= tx.take(i));
    assert(s.subrange(i + lb.len(), i + lb.len() + sig.len()) =~= sig);
    assert(s.skip(i + lb.len() + sig.len()) =~= tx.skip(i + 1));
}

} // verus!
