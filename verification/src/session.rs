//! The launch-session state machine.
//!
//! A session walks three phases, Initialized, Measuring and Verified, and
//! every transition consumes the prior value: a later-phase session can only
//! be produced from the earlier one, so a stale phase can never be reused.
//! The session derives the transport keys' wrapping, computes and checks the
//! agreed measurement, and encrypts secrets for injection.

use crate::crypto::{aes128_ctr, random_16, spec_aes128_ctr, spec_hmac_sha256, spec_sha256, sha256};
use crate::key::{bytes_eq, push_bytes, spec_kdf, Key};
use crate::Error;
use vstd::bytes::{
    lemma_auto_spec_u16_to_from_le_bytes, spec_u16_to_le_bytes, spec_u32_to_le_bytes,
    u16_to_le_bytes, u32_to_le_bytes,
};
use vstd::prelude::*;

verus! {

/// A firmware version: major and minor number.
#[derive(Copy, Clone, Debug, PartialEq, Eq, Structural)]
pub struct Version {
    /// The major version number.
    pub major: u8,
    /// The minor version number.
    pub minor: u8,
}

impl Default for Version {
    /// Version zero.
    fn default() -> (r: Self)
        ensures
            r.major == 0 && r.minor == 0,
    {
        Version { major: 0, minor: 0 }
    }
}

/// A firmware build: a version together with its build number.
#[derive(Copy, Clone, Debug, PartialEq, Eq, Structural)]
pub struct Build {
    /// The firmware version.
    pub version: Version,
    /// The build number.
    pub build: u8,
}

/// The guest policy of a launch: a flags word and the minimum firmware
/// version the guest requires. Immutable once a session is created from it.
#[derive(Copy, Clone, Debug, PartialEq, Eq, Structural)]
pub struct Policy {
    /// The policy flags word.
    pub flags: u16,
    /// The minimum firmware version.
    pub minfw: Version,
}

/// The fixed 4-byte wire representation of a policy: the flags word in
/// little-endian order, then the major and the minor version byte.
pub open spec fn spec_policy_bytes(p: Policy) -> Seq<u8> {
    spec_u16_to_le_bytes(p.flags) + seq![p.minfw.major, p.minfw.minor]
}

impl Policy {
    /// The policy's 4-byte wire representation, serialized field by field in
    /// little-endian order.
    pub fn bytes(&self) -> (r: Vec<u8>)
        ensures
            r@ == spec_policy_bytes(*self),
            r@.len() == 4,
    {
        proof {
            lemma_auto_spec_u16_to_from_le_bytes();
        }
        let mut r = u16_to_le_bytes(self.flags);
        r.push(self.minfw.major);
        r.push(self.minfw.minor);
        proof {
            assert(r@ =~= spec_policy_bytes(*self));
        }
        r
    }
}

impl Default for Policy {
    /// The empty policy: no flags, no minimum firmware version.
    fn default() -> (r: Self)
        ensures
            r.flags == 0 && r.minfw.major == 0 && r.minfw.minor == 0,
    {
        Policy { flags: 0, minfw: Version { major: 0, minor: 0 } }
    }
}

/// The flags word of a secret packet's header, with its fixed 4-byte
/// little-endian wire representation.
#[derive(Copy, Clone, Debug, PartialEq, Eq, Structural)]
pub struct HeaderFlags(pub u32);

impl Default for HeaderFlags {
    /// No flags set.
    fn default() -> (r: Self)
        ensures
            r.0 == 0,
    {
        HeaderFlags(0)
    }
}

/// The measurement the security processor returns: a 32-byte MAC binding
/// firmware version, policy and launch digest, and the 16-byte nonce it was
/// computed with.
#[derive(Clone, Debug, PartialEq, Eq)]
pub struct Measurement {
    /// The measurement MAC.
    pub measure: Vec<u8>,
    /// The nonce mixed into the measurement.
    pub mnonce: Vec<u8>,
}

/// The session descriptor of a start packet: the wrapped transport keys and
/// the MACs that bind them to the policy.
#[derive(Clone, Debug, PartialEq, Eq)]
pub struct SessionData {
    /// MAC over the policy's wire bytes under the transport integrity key.
    pub policy_mac: Vec<u8>,
    /// MAC over the wrapped transport keys under the key-integrity key.
    pub wrap_mac: Vec<u8>,
    /// The transport keys, wrapped under the key-encryption key.
    pub wrap_tk: Vec<u8>,
    /// The fresh counter block the wrapping was computed with.
    pub wrap_iv: Vec<u8>,
    /// The fresh nonce the master secret was derived with.
    pub nonce: Vec<u8>,
}

/// The data that initiates a launch: the policy and the session descriptor.
/// The ephemeral public-key certificate produced by the platform
/// Diffie-Hellman collaborator travels beside this packet; certificates are
/// outside this library.
#[derive(Clone, Debug, PartialEq, Eq)]
pub struct Start {
    /// The policy the session was created from.
    pub policy: Policy,
    /// The session descriptor.
    pub session: SessionData,
}

/// The header of a secret packet.
#[derive(Clone, Debug, PartialEq, Eq)]
pub struct Header {
    /// The caller's flags, carried verbatim.
    pub flags: HeaderFlags,
    /// The fresh counter block the secret was enciphered with.
    pub iv: Vec<u8>,
    /// MAC binding flags, counter block, lengths, ciphertext and the agreed
    /// measurement under the transport integrity key.
    pub mac: Vec<u8>,
}

/// A packet carrying an encrypted secret for injection into the guest. The
/// ciphertext is exactly as long as the plaintext.
#[derive(Clone, Debug, PartialEq, Eq)]
pub struct Secret {
    /// The packet header.
    pub header: Header,
    /// The enciphered secret.
    pub ciphertext: Vec<u8>,
}

/// The KDF label of the master secret.
pub open spec fn spec_label_master() -> Seq<u8> {
    seq![115u8, 101, 118, 45, 109, 97, 115, 116, 101, 114, 45, 115, 101, 99, 114, 101, 116]
}

/// The KDF label of the key-encryption key.
pub open spec fn spec_label_kek() -> Seq<u8> {
    seq![115u8, 101, 118, 45, 107, 101, 107]
}

/// The KDF label of the key-integrity key.
pub open spec fn spec_label_kik() -> Seq<u8> {
    seq![115u8, 101, 118, 45, 107, 105, 107]
}

/// The label "sev-master-secret" as bytes.
fn label_master() -> (r: [u8; 17])
    ensures
        r@ == spec_label_master(),
{
    let r: [u8; 17] = [115u8, 101, 118, 45, 109, 97, 115, 116, 101, 114, 45, 115, 101, 99, 114, 101, 116];
    proof {
        assert(r@ =~= spec_label_master());
    }
    r
}

/// The label "sev-kek" as bytes.
fn label_kek() -> (r: [u8; 7])
    ensures
        r@ == spec_label_kek(),
{
    let r: [u8; 7] = [115u8, 101, 118, 45, 107, 101, 107];
    proof {
        assert(r@ =~= spec_label_kek());
    }
    r
}

/// The label "sev-kik" as bytes.
fn label_kik() -> (r: [u8; 7])
    ensures
        r@ == spec_label_kik(),
{
    let r: [u8; 7] = [115u8, 101, 118, 45, 107, 105, 107];
    proof {
        assert(r@ =~= spec_label_kik());
    }
    r
}

/// The master secret of a launch: sixteen bytes derived from the ECDH shared
/// secret, bound to the session nonce.
pub open spec fn spec_master_secret(z: Seq<u8>, nonce: Seq<u8>) -> Seq<u8> {
    spec_kdf(z, 16, nonce, spec_label_master())
}

/// The key-encryption key: sixteen bytes derived from the master secret.
pub open spec fn spec_kek(z: Seq<u8>, nonce: Seq<u8>) -> Seq<u8> {
    spec_kdf(spec_master_secret(z, nonce), 16, Seq::empty(), spec_label_kek())
}

/// The key-integrity key: sixteen bytes derived from the master secret.
pub open spec fn spec_kik(z: Seq<u8>, nonce: Seq<u8>) -> Seq<u8> {
    spec_kdf(spec_master_secret(z, nonce), 16, Seq::empty(), spec_label_kik())
}

/// The wrapped transport keys: TEK then TIK, enciphered under the
/// key-encryption key with the given counter block.
pub open spec fn spec_wrap_tk(
    z: Seq<u8>,
    nonce: Seq<u8>,
    iv: Seq<u8>,
    tek: Seq<u8>,
    tik: Seq<u8>,
) -> Seq<u8> {
    spec_aes128_ctr(spec_kek(z, nonce), iv, tek + tik)
}

/// The MAC over the wrapped transport keys, under the key-integrity key.
pub open spec fn spec_wrap_mac(
    z: Seq<u8>,
    nonce: Seq<u8>,
    iv: Seq<u8>,
    tek: Seq<u8>,
    tik: Seq<u8>,
) -> Seq<u8> {
    spec_hmac_sha256(spec_kik(z, nonce), spec_wrap_tk(z, nonce, iv, tek, tik))
}

/// The MAC over a policy's wire bytes, under the transport integrity key.
pub open spec fn spec_policy_mac(tik: Seq<u8>, policy: Policy) -> Seq<u8> {
    spec_hmac_sha256(tik, spec_policy_bytes(policy))
}

/// A brand-new secure channel, before any measurement work.
pub struct Initialized;

/// A session that is accumulating the data whose digest will be compared
/// against the security processor's measurement.
pub struct Measuring(Vec<u8>);

/// A session whose measurement agreed with the security processor's.
pub struct Verified(Measurement);

/// A secure channel with the security processor, phase-tagged by `T`. Every
/// phase transition consumes the session, so a later phase can only be
/// reached through the earlier one.
pub struct Session<T> {
    policy: Policy,
    /// Transport encryption key.
    tek: Key,
    /// Transport integrity key.
    tik: Key,
    data: T,
}

impl<T> Session<T> {
    /// The policy this session was created from.
    pub closed spec fn spec_policy(&self) -> Policy {
        self.policy
    }

    /// The transport encryption key's bytes.
    pub closed spec fn spec_tek(&self) -> Seq<u8> {
        self.tek@
    }

    /// The transport integrity key's bytes.
    pub closed spec fn spec_tik(&self) -> Seq<u8> {
        self.tik@
    }

    /// Whether the session is well formed: both transport keys are sixteen
    /// bytes, as construction established.
    pub open spec fn wf(&self) -> bool {
        self.spec_tek().len() == 16 && self.spec_tik().len() == 16
    }
}

impl Session<Initialized> {
    /// A session over `policy` with the given transport keys. Constructing
    /// from chosen keys serves deterministic tests and callers that manage
    /// their own entropy; `try_from` draws fresh keys instead.
    pub fn from_keys(policy: Policy, tek: Key, tik: Key) -> (r: Self)
        requires
            tek@.len() == 16,
            tik@.len() == 16,
        ensures
            r.spec_policy() == policy,
            r.spec_tek() == tek@,
            r.spec_tik() == tik@,
            r.wf(),
    {
        Session { policy, tek, tik, data: Initialized }
    }

    /// A session over `policy` with fresh random transport keys, sixteen
    /// bytes each. Fails exactly when the entropy source fails, and then
    /// produces nothing.
    pub fn try_from(policy: Policy) -> (r: Result<Self, Error>)
        ensures
            r matches Ok(s) ==> s.spec_policy() == policy && s.wf(),
            r matches Err(e) ==> e == Error::Rng,
    {
        let tek = match Key::random(16) {
            Ok(k) => k,
            Err(e) => {
                return Err(e);
            },
        };
        let tik = match Key::random(16) {
            Ok(k) => k,
            Err(e) => {
                return Err(e);
            },
        };
        Ok(Session { policy, tek, tik, data: Initialized })
    }

    /// The session descriptor for the start packet: derives the master
    /// secret from the ECDH shared secret `z` and the nonce, derives the
    /// key-encryption and key-integrity keys, wraps TEK and TIK under the
    /// key-encryption key with the counter block `iv`, and MACs the wrapped
    /// keys and the policy's wire bytes.
    pub fn session(&self, nonce: [u8; 16], iv: [u8; 16], z: Key) -> (r: SessionData)
        requires
            self.wf(),
        ensures
            r.nonce@ == nonce@,
            r.wrap_iv@ == iv@,
            r.wrap_tk@ == spec_wrap_tk(z@, nonce@, iv@, self.spec_tek(), self.spec_tik()),
            r.wrap_mac@ == spec_wrap_mac(z@, nonce@, iv@, self.spec_tek(), self.spec_tik()),
            r.policy_mac@ == spec_policy_mac(self.spec_tik(), self.spec_policy()),
            r.wrap_tk@.len() == 32,
            r.wrap_mac@.len() == 32,
            r.policy_mac@.len() == 32,
    {
        let empty: Vec<u8> = Vec::new();
        let master_label = label_master();
        let kek_label = label_kek();
        let kik_label = label_kik();
        let master = z.derive(16, nonce.as_slice(), master_label.as_slice());
        let kek = master.derive(16, empty.as_slice(), kek_label.as_slice());
        let kik = master.derive(16, empty.as_slice(), kik_label.as_slice());

        let mut keys: Vec<u8> = Vec::new();
        push_bytes(&mut keys, self.tek.as_slice());
        push_bytes(&mut keys, self.tik.as_slice());
        let wrap = aes128_ctr(kek.as_slice(), iv.as_slice(), keys.as_slice());

        let wmac = kik.mac(wrap.as_slice());
        let policy_bytes = self.policy.bytes();
        let pmac = self.tik.mac(policy_bytes.as_slice());

        let mut nonce_vec: Vec<u8> = Vec::new();
        push_bytes(&mut nonce_vec, nonce.as_slice());
        let mut iv_vec: Vec<u8> = Vec::new();
        push_bytes(&mut iv_vec, iv.as_slice());

        SessionData {
            policy_mac: pmac,
            wrap_mac: wmac,
            wrap_tk: wrap,
            wrap_iv: iv_vec,
            nonce: nonce_vec,
        }
    }
}

/// The message whose HMAC-SHA-256 tag under the transport integrity key is
/// the agreed measurement: a leading 0x04, the firmware major, minor and
/// build bytes, the policy's wire bytes, the launch digest, and the
/// measurement nonce.
pub open spec fn spec_measure_msg(
    build: Build,
    policy: Policy,
    digest: Seq<u8>,
    mnonce: Seq<u8>,
) -> Seq<u8> {
    seq![4u8, build.version.major, build.version.minor, build.build] + spec_policy_bytes(policy)
        + digest + mnonce
}

/// The agreed measurement for the given session inputs.
pub open spec fn spec_measure_mac(
    tik: Seq<u8>,
    build: Build,
    policy: Policy,
    digest: Seq<u8>,
    mnonce: Seq<u8>,
) -> Seq<u8> {
    spec_hmac_sha256(tik, spec_measure_msg(build, policy, digest, mnonce))
}

/// The message whose HMAC-SHA-256 tag under the transport integrity key
/// authenticates a secret packet: a leading 0x01, the flags' wire bytes,
/// the counter block, the plaintext and ciphertext lengths as little-endian
/// 32-bit values (equal, since the cipher is a stream cipher), the
/// ciphertext, and the agreed measurement.
pub open spec fn spec_secret_msg(
    flags: HeaderFlags,
    iv: Seq<u8>,
    ciphertext: Seq<u8>,
    measure: Seq<u8>,
) -> Seq<u8>
    recommends
        ciphertext.len() <= u32::MAX,
{
    seq![1u8] + spec_u32_to_le_bytes(flags.0) + iv + spec_u32_to_le_bytes(
        ciphertext.len() as u32,
    ) + spec_u32_to_le_bytes(ciphertext.len() as u32) + ciphertext + measure
}

/// The MAC of a secret packet for the given session inputs.
pub open spec fn spec_secret_mac(
    tik: Seq<u8>,
    flags: HeaderFlags,
    iv: Seq<u8>,
    ciphertext: Seq<u8>,
    measure: Seq<u8>,
) -> Seq<u8> {
    spec_hmac_sha256(tik, spec_secret_msg(flags, iv, ciphertext, measure))
}

impl Session<Initialized> {
    /// Produce the data needed to initiate the launch sequence: draw a
    /// fresh random nonce and counter block, one pair per call, and compute
    /// the session descriptor over the ECDH shared secret `z`. The caller
    /// obtains `z` from the platform Diffie-Hellman collaborator after that
    /// collaborator has validated the platform's certificate chain;
    /// certificates and the key agreement itself are outside this library.
    /// Fails exactly when the entropy source fails, and then produces
    /// nothing.
    pub fn start(&self, z: Key) -> (r: Result<Start, Error>)
        requires
            self.wf(),
        ensures
            r matches Ok(st) ==> {
                &&& st.policy == self.spec_policy()
                &&& st.session.nonce@.len() == 16
                &&& st.session.wrap_iv@.len() == 16
                &&& st.session.wrap_tk@ == spec_wrap_tk(
                    z@,
                    st.session.nonce@,
                    st.session.wrap_iv@,
                    self.spec_tek(),
                    self.spec_tik(),
                )
                &&& st.session.wrap_mac@ == spec_wrap_mac(
                    z@,
                    st.session.nonce@,
                    st.session.wrap_iv@,
                    self.spec_tek(),
                    self.spec_tik(),
                )
                &&& st.session.policy_mac@ == spec_policy_mac(
                    self.spec_tik(),
                    self.spec_policy(),
                )
            },
            r matches Err(e) ==> e == Error::Rng,
    {
        let nonce = match random_16() {
            Ok(nonce) => nonce,
            Err(_) => {
                return Err(Error::Rng);
            },
        };
        let iv = match random_16() {
            Ok(iv) => iv,
            Err(_) => {
                return Err(Error::Rng);
            },
        };
        let session = self.session(nonce, iv, z);
        Ok(Start { policy: self.policy, session })
    }

    /// Transition to the measuring phase, consuming this session. The
    /// accumulator starts empty; everything the security processor measures
    /// must be fed to `update_data` in the same order.
    pub fn measure(self) -> (r: Session<Measuring>)
        ensures
            r.spec_policy() == self.spec_policy(),
            r.spec_tek() == self.spec_tek(),
            r.spec_tik() == self.spec_tik(),
            r.spec_buffer() == Seq::<u8>::empty(),
    {
        Session { policy: self.policy, tek: self.tek, tik: self.tik, data: Measuring(Vec::new()) }
    }

    /// Verify the security processor's measurement against the one this
    /// session computes from `digest`: the agreed measurement is the
    /// HMAC-SHA-256 tag, under the transport integrity key, over the
    /// firmware build, the policy's wire bytes, the digest and the nonce
    /// the processor supplied. Succeeds exactly when `msr.measure` equals
    /// that tag; on mismatch the session is consumed and nothing is
    /// produced, so the launch attempt is terminal.
    pub fn verify(self, digest: &[u8], build: Build, msr: Measurement) -> (r: Result<
        Session<Verified>,
        Error,
    >)
        requires
            self.wf(),
        ensures
            r is Ok <==> msr.measure@ == spec_measure_mac(
                self.spec_tik(),
                build,
                self.spec_policy(),
                digest@,
                msr.mnonce@,
            ),
            r matches Ok(s) ==> {
                &&& s.spec_policy() == self.spec_policy()
                &&& s.spec_tek() == self.spec_tek()
                &&& s.spec_tik() == self.spec_tik()
                &&& s.spec_measurement() == msr
            },
            r matches Err(e) ==> e == Error::Verification,
    {
        let mut msg: Vec<u8> = Vec::new();
        msg.push(0x04u8);
        msg.push(build.version.major);
        msg.push(build.version.minor);
        msg.push(build.build);
        let policy_bytes = self.policy.bytes();
        push_bytes(&mut msg, policy_bytes.as_slice());
        push_bytes(&mut msg, digest);
        push_bytes(&mut msg, msr.mnonce.as_slice());
        proof {
            assert(msg@ =~= spec_measure_msg(build, self.spec_policy(), digest@, msr.mnonce@));
        }
        let expected = self.tik.mac(msg.as_slice());
        if bytes_eq(expected.as_slice(), msr.measure.as_slice()) {
            Ok(Session { policy: self.policy, tek: self.tek, tik: self.tik, data: Verified(msr) })
        } else {
            Err(Error::Verification)
        }
    }

    /// Accept `msr` as the agreed measurement without comparing anything.
    ///
    /// This bypass skips the measurement check entirely. It exists for
    /// tests and unattested workflows only, and a production control flow
    /// must never reach it except by deliberate, visible opt-in.
    pub fn mock_verify(self, msr: Measurement) -> (r: Session<Verified>)
        ensures
            r.spec_policy() == self.spec_policy(),
            r.spec_tek() == self.spec_tek(),
            r.spec_tik() == self.spec_tik(),
            r.spec_measurement() == msr,
    {
        Session { policy: self.policy, tek: self.tek, tik: self.tik, data: Verified(msr) }
    }
}

impl Session<Measuring> {
    /// The bytes fed for measurement so far, in order.
    pub closed spec fn spec_buffer(&self) -> Seq<u8> {
        self.data.0@
    }

    /// Append data to the measurement. Everything the security processor
    /// measures must also pass through here, in the same order: the digest
    /// is order-sensitive, and only the caller can know that order.
    pub fn update_data(&mut self, data: &[u8])
        ensures
            final(self).spec_policy() == old(self).spec_policy(),
            final(self).spec_tek() == old(self).spec_tek(),
            final(self).spec_tik() == old(self).spec_tik(),
            final(self).spec_buffer() == old(self).spec_buffer() + data@,
    {
        push_bytes(&mut self.data.0, data);
    }

    /// Verify the security processor's measurement against this session's:
    /// the digest is the SHA-256 hash of everything fed to `update_data`,
    /// and the comparison is the one `Session::<Initialized>::verify`
    /// states. Succeeds exactly when `msr.measure` is the agreed
    /// measurement over that digest.
    pub fn verify(self, build: Build, msr: Measurement) -> (r: Result<Session<Verified>, Error>)
        requires
            self.wf(),
        ensures
            r is Ok <==> msr.measure@ == spec_measure_mac(
                self.spec_tik(),
                build,
                self.spec_policy(),
                spec_sha256(self.spec_buffer()),
                msr.mnonce@,
            ),
            r matches Ok(s) ==> {
                &&& s.spec_policy() == self.spec_policy()
                &&& s.spec_tek() == self.spec_tek()
                &&& s.spec_tik() == self.spec_tik()
                &&& s.spec_measurement() == msr
            },
            r matches Err(e) ==> e == Error::Verification,
    {
        let digest = sha256(self.data.0.as_slice());
        let session = Session {
            policy: self.policy,
            tek: self.tek,
            tik: self.tik,
            data: Initialized,
        };
        session.verify(digest.as_slice(), build, msr)
    }

    /// Verify the security processor's measurement against an externally
    /// computed digest, leaving this session's own accumulator aside.
    pub fn verify_with_digest(self, build: Build, msr: Measurement, digest: &[u8]) -> (r: Result<
        Session<Verified>,
        Error,
    >)
        requires
            self.wf(),
        ensures
            r is Ok <==> msr.measure@ == spec_measure_mac(
                self.spec_tik(),
                build,
                self.spec_policy(),
                digest@,
                msr.mnonce@,
            ),
            r matches Ok(s) ==> {
                &&& s.spec_policy() == self.spec_policy()
                &&& s.spec_tek() == self.spec_tek()
                &&& s.spec_tik() == self.spec_tik()
                &&& s.spec_measurement() == msr
            },
            r matches Err(e) ==> e == Error::Verification,
    {
        let session = Session {
            policy: self.policy,
            tek: self.tek,
            tik: self.tik,
            data: Initialized,
        };
        session.verify(digest, build, msr)
    }
}

impl Session<Verified> {
    /// The measurement this session and the security processor agreed on.
    pub closed spec fn spec_measurement(&self) -> Measurement {
        self.data.0
    }

    /// The secret packet for `data` under a caller-chosen counter block:
    /// the plaintext enciphered under the transport encryption key, and the
    /// packet MAC binding flags, counter block, lengths, ciphertext and the
    /// agreed measurement under the transport integrity key. Deterministic
    /// in the session, the flags, the counter block and the plaintext; the
    /// plaintext is never truncated or padded.
    pub fn secret_with_iv(&self, flags: HeaderFlags, iv: [u8; 16], data: &[u8]) -> (r: Secret)
        requires
            self.wf(),
            data@.len() <= u32::MAX,
        ensures
            r.header.flags == flags,
            r.header.iv@ == iv@,
            r.ciphertext@ == spec_aes128_ctr(self.spec_tek(), iv@, data@),
            r.ciphertext@.len() == data@.len(),
            r.header.mac@ == spec_secret_mac(
                self.spec_tik(),
                flags,
                iv@,
                r.ciphertext@,
                self.spec_measurement().measure@,
            ),
    {
        let ciphertext = aes128_ctr(self.tek.as_slice(), iv.as_slice(), data);
        let mut msg: Vec<u8> = Vec::new();
        msg.push(0x01u8);
        let flag_bytes = u32_to_le_bytes(flags.0);
        push_bytes(&mut msg, flag_bytes.as_slice());
        push_bytes(&mut msg, iv.as_slice());
        let data_len = u32_to_le_bytes(data.len() as u32);
        push_bytes(&mut msg, data_len.as_slice());
        let cipher_len = u32_to_le_bytes(ciphertext.len() as u32);
        push_bytes(&mut msg, cipher_len.as_slice());
        push_bytes(&mut msg, ciphertext.as_slice());
        push_bytes(&mut msg, self.data.0.measure.as_slice());
        proof {
            assert(msg@ =~= spec_secret_msg(
                flags,
                iv@,
                ciphertext@,
                self.spec_measurement().measure@,
            ));
        }
        let mac = self.tik.mac(msg.as_slice());
        let mut iv_vec: Vec<u8> = Vec::new();
        push_bytes(&mut iv_vec, iv.as_slice());
        Secret { header: Header { flags, iv: iv_vec, mac }, ciphertext }
    }

    /// The secret packet for `data` under a fresh random counter block,
    /// drawn per call: reusing a counter block across packets is a protocol
    /// violation. Fails exactly when the entropy source fails, and then
    /// produces nothing.
    pub fn secret(&self, flags: HeaderFlags, data: &[u8]) -> (r: Result<Secret, Error>)
        requires
            self.wf(),
            data@.len() <= u32::MAX,
        ensures
            r matches Ok(s) ==> {
                &&& s.header.flags == flags
                &&& s.header.iv@.len() == 16
                &&& s.ciphertext@ == spec_aes128_ctr(self.spec_tek(), s.header.iv@, data@)
                &&& s.ciphertext@.len() == data@.len()
                &&& s.header.mac@ == spec_secret_mac(
                    self.spec_tik(),
                    flags,
                    s.header.iv@,
                    s.ciphertext@,
                    self.spec_measurement().measure@,
                )
            },
            r matches Err(e) ==> e == Error::Rng,
    {
        let iv = match random_16() {
            Ok(iv) => iv,
            Err(_) => {
                return Err(Error::Rng);
            },
        };
        Ok(self.secret_with_iv(flags, iv, data))
    }
}

} // verus!
