//! Secret key material: a fixed-length byte buffer with a deterministic
//! counter-mode key-derivation function and an HMAC operation.

use crate::crypto::{hmac_sha256, random_16, spec_hmac_sha256};
use crate::Error;
use vstd::bytes::{spec_u32_to_le_bytes, u32_to_le_bytes};
use vstd::prelude::*;

verus! {

/// Append every byte of `src` to `out`.
pub(crate) fn push_bytes(out: &mut Vec<u8>, src: &[u8])
    ensures
        final(out)@ == old(out)@ + src@,
{
    let mut i: usize = 0;
    while i < src.len()
        invariant
            i <= src@.len(),
            out@ == old(out)@ + src@.take(i as int),
        decreases src@.len() - i,
    {
        out.push(src[i]);
        i = i + 1;
        assert(old(out)@ + src@.take(i as int) =~= (old(out)@ + src@.take(i - 1)).push(
            src@[i - 1],
        ));
    }
    assert(src@.take(src@.len() as int) =~= src@);
}

/// Whether two byte slices hold the same bytes, compared in full.
pub(crate) fn bytes_eq(a: &[u8], b: &[u8]) -> (r: bool)
    ensures
        r == (a@ == b@),
{
    if a.len() != b.len() {
        return false;
    }
    let mut i: usize = 0;
    while i < a.len()
        invariant
            i <= a@.len(),
            a@.len() == b@.len(),
            forall|j: int| 0 <= j < i ==> a@[j] == b@[j],
        decreases a@.len() - i,
    {
        if a[i] != b[i] {
            return false;
        }
        i = i + 1;
    }
    proof {
        assert(a@ =~= b@);
    }
    true
}

/// An opaque secret byte buffer, its length fixed at construction. Owned
/// exclusively by its holder and never copied implicitly.
pub struct Key {
    bytes: Vec<u8>,
}

impl View for Key {
    type V = Seq<u8>;

    closed spec fn view(&self) -> Seq<u8> {
        self.bytes@
    }
}

/// The message that one block of the counter-mode KDF authenticates:
/// counter, then label, a zero separator, the caller's context, and the
/// total output length in bits; counter and bit length as little-endian
/// 32-bit values.
pub open spec fn spec_kdf_msg(label: Seq<u8>, context: Seq<u8>, out_bits: u32, counter: u32) -> Seq<
    u8,
> {
    spec_u32_to_le_bytes(counter) + label + seq![0u8] + context + spec_u32_to_le_bytes(out_bits)
}

/// One output block of the KDF: the HMAC-SHA-256 tag of the block message
/// under the secret.
pub open spec fn spec_kdf_block(
    secret: Seq<u8>,
    label: Seq<u8>,
    context: Seq<u8>,
    out_bits: u32,
    counter: u32,
) -> Seq<u8> {
    spec_hmac_sha256(secret, spec_kdf_msg(label, context, out_bits, counter))
}

/// The first `count` output blocks, concatenated; the counter starts at one.
pub open spec fn spec_kdf_blocks(
    secret: Seq<u8>,
    label: Seq<u8>,
    context: Seq<u8>,
    out_bits: u32,
    count: nat,
) -> Seq<u8>
    decreases count,
{
    if count == 0 {
        Seq::empty()
    } else {
        spec_kdf_blocks(secret, label, context, out_bits, (count - 1) as nat) + spec_kdf_block(
            secret,
            label,
            context,
            out_bits,
            count as u32,
        )
    }
}

/// How many 32-byte blocks cover `length` bytes.
pub open spec fn spec_num_blocks(length: nat) -> nat {
    (length + 31) / 32
}

/// `length` bytes derived from `secret` for the given context and label:
/// the concatenated KDF blocks, truncated to `length`.
pub open spec fn spec_kdf(secret: Seq<u8>, length: nat, context: Seq<u8>, label: Seq<u8>) -> Seq<
    u8,
>
    recommends
        8 * length <= u32::MAX,
{
    spec_kdf_blocks(secret, label, context, (8 * length) as u32, spec_num_blocks(length)).take(
        length as int,
    )
}

impl Key {
    /// Wrap the given bytes as key material.
    pub fn new(bytes: Vec<u8>) -> (r: Key)
        ensures
            r@ == bytes@,
    {
        Key { bytes }
    }

    /// Key material of `length` zero bytes.
    pub fn zeroed(length: usize) -> (r: Key)
        ensures
            r@.len() == length,
            forall|i: int| 0 <= i < length ==> r@[i] == 0u8,
    {
        let mut bytes: Vec<u8> = Vec::new();
        while bytes.len() < length
            invariant
                bytes@.len() <= length,
                forall|i: int| 0 <= i < bytes@.len() ==> bytes@[i] == 0u8,
            decreases length - bytes.len(),
        {
            bytes.push(0u8);
        }
        Key { bytes }
    }

    /// Key material of `length` bytes drawn from the hardware entropy
    /// source. Fails only when the source cannot supply entropy, and then
    /// produces nothing.
    pub fn random(length: usize) -> (r: Result<Key, Error>)
        ensures
            r matches Ok(k) ==> k@.len() == length,
            r matches Err(e) ==> e == Error::Rng,
    {
        let mut bytes: Vec<u8> = Vec::new();
        while bytes.len() < length
            invariant
                bytes@.len() <= length,
            decreases length - bytes.len(),
        {
            let chunk = match random_16() {
                Ok(chunk) => chunk,
                Err(_) => {
                    return Err(Error::Rng);
                },
            };
            let ghost start = bytes@.len();
            let mut i: usize = 0;
            while i < 16 && bytes.len() < length
                invariant
                    i <= 16,
                    start < length,
                    bytes@.len() == start + i,
                    bytes@.len() <= length,
                decreases 16 - i,
            {
                bytes.push(chunk[i]);
                i = i + 1;
            }
        }
        Ok(Key { bytes })
    }

    /// The HMAC-SHA-256 tag of `message` under this key.
    pub fn mac(&self, message: &[u8]) -> (r: Vec<u8>)
        ensures
            r@ == spec_hmac_sha256(self@, message@),
            r@.len() == 32,
    {
        hmac_sha256(self.bytes.as_slice(), message)
    }

    /// Derive `length` bytes of fresh key material from this key, bound to
    /// `context` and `label`: a counter-mode KDF whose pseudorandom function
    /// is HMAC-SHA-256. A pure, deterministic function of secret, length,
    /// context and label; two distinct labels over the same secret yield
    /// independent outputs.
    pub fn derive(&self, length: usize, context: &[u8], label: &[u8]) -> (r: Key)
        requires
            8 * length <= u32::MAX,
        ensures
            r@ == spec_kdf(self@, length as nat, context@, label@),
            r@.len() == length,
    {
        let out_bits: u32 = (length as u32) * 8;
        let mut out: Vec<u8> = Vec::new();
        let mut counter: u32 = 0;
        while out.len() < length
            invariant
                8 * length <= u32::MAX,
                out_bits == 8 * length,
                out@.len() == 32 * counter,
                counter == 0 || 32 * (counter - 1) < length,
                out@ == spec_kdf_blocks(self@, label@, context@, out_bits, counter as nat),
            decreases length + 32 - out.len(),
        {
            counter = counter + 1;
            let mut msg: Vec<u8> = Vec::new();
            let counter_bytes = u32_to_le_bytes(counter);
            push_bytes(&mut msg, counter_bytes.as_slice());
            push_bytes(&mut msg, label);
            let zero: [u8; 1] = [0u8];
            push_bytes(&mut msg, zero.as_slice());
            push_bytes(&mut msg, context);
            let bits_bytes = u32_to_le_bytes(out_bits);
            push_bytes(&mut msg, bits_bytes.as_slice());
            assert(msg@ =~= spec_kdf_msg(label@, context@, out_bits, counter));
            let tag = hmac_sha256(self.bytes.as_slice(), msg.as_slice());
            push_bytes(&mut out, tag.as_slice());
        }
        proof {
            assert(counter as nat == spec_num_blocks(length as nat)) by {
                if counter > 0 {
                    assert(32 * (counter - 1) < length && length <= 32 * counter);
                }
            }
        }
        out.truncate(length);
        Key { bytes: out }
    }

    /// The key material as a byte slice, for callers that feed it to a
    /// cipher or ship it inside a packet.
    pub fn as_slice(&self) -> (r: &[u8])
        ensures
            r@ == self@,
    {
        self.bytes.as_slice()
    }
}

} // verus!
