//! Delegation of signing authority from a long-lived key to short-lived session keys.
//!
//! A chain is a flat, ordered list of signed delegations. The first is signed by the
//! root key; each later one by the key that the one before it delegated to. A chain is
//! trusted only after every signature has been checked and no link has expired.
use vstd::prelude::*;

use crate::clock::unix_time_nanos;
use crate::crypto::{
    ecdsa_signature, ecdsa_verifies, jwk_of_secret, jwk_secret, principal_text, public_key_der,
    random_secret_key, secp256k1_public_key_der, secret_from_jwk, secret_to_jwk,
    self_authenticating_principal, sign_message, verify_signature,
};

verus! {

/// Maximum age of a standard session delegation: seven days, in nanoseconds.
pub const DELEGATION_MAX_AGE_NS: u64 = 604_800_000_000_000;

/// Maximum age of a short-lived session delegation: one day, in nanoseconds.
pub const SHORT_LIVED_MAX_AGE_NS: u64 = 86_400_000_000_000;

#[derive(Clone, Debug, PartialEq, Eq)]
pub enum DelegationError {
    /// A chain with no link delegates nothing.
    EmptyChain,
    /// The signature of link `index` does not verify under its signer's key.
    InvalidSignature { index: usize },
    /// Link `index` has expired.
    Expired { index: usize },
    /// Key material could not be decoded or used.
    MalformedKey,
    /// The identity's secret key is not the key that the last link delegated to.
    SessionKeyMismatch,
}

// ---------------------------------------------------------------- data

/// What a delegation states, as plain values.
pub struct DelegationModel {
    pub pubkey: Seq<u8>,
    pub expiration: u64,
    pub targets: Option<Seq<Seq<u8>>>,
}

/// `pubkey` (DER) may sign with the delegator's authority until `expiration`
/// (nanoseconds since the Unix epoch), for the `targets` only where they are given.
#[derive(Debug)]
pub struct Delegation {
    pub pubkey: Vec<u8>,
    pub expiration: u64,
    pub targets: Option<Vec<Vec<u8>>>,
}

pub open spec fn byte_strings_view(v: Seq<Vec<u8>>) -> Seq<Seq<u8>> {
    v.map_values(|x: Vec<u8>| x@)
}

impl View for Delegation {
    type V = DelegationModel;

    open spec fn view(&self) -> DelegationModel {
        DelegationModel {
            pubkey: self.pubkey@,
            expiration: self.expiration,
            targets: match self.targets {
                Some(t) => Some(byte_strings_view(t@)),
                None => None,
            },
        }
    }
}

fn copy_bytes(b: &Vec<u8>) -> (r: Vec<u8>)
    ensures
        r@ == b@,
{
    let r = b.clone();
    assert(r@ =~= b@);
    r
}

fn copy_byte_strings(v: &Vec<Vec<u8>>) -> (r: Vec<Vec<u8>>)
    ensures
        byte_strings_view(r@) == byte_strings_view(v@),
{
    let mut r: Vec<Vec<u8>> = Vec::new();
    let mut i: usize = 0;
    while i < v.len()
        invariant
            0 <= i <= v@.len(),
            r@.len() == i,
            forall|k: int| 0 <= k < i ==> (#[trigger] r@[k])@ == v@[k]@,
        decreases v@.len() - i,
    {
        r.push(copy_bytes(&v[i]));
        i = i + 1;
    }
    assert(byte_strings_view(r@) =~= byte_strings_view(v@));
    r
}

impl Clone for Delegation {
    fn clone(&self) -> (r: Self)
        ensures
            r@ == self@,
    {
        let targets = match &self.targets {
            Some(t) => Some(copy_byte_strings(t)),
            None => None,
        };
        Delegation { pubkey: copy_bytes(&self.pubkey), expiration: self.expiration, targets }
    }
}

/// What a signed delegation holds, as plain values.
pub struct SignedModel {
    pub delegation: DelegationModel,
    pub signature: Seq<u8>,
}

/// A delegation with the delegator's signature over `delegation_message` of it.
#[derive(Debug)]
pub struct SignedDelegation {
    pub delegation: Delegation,
    pub signature: Vec<u8>,
}

impl View for SignedDelegation {
    type V = SignedModel;

    open spec fn view(&self) -> SignedModel {
        SignedModel { delegation: self.delegation@, signature: self.signature@ }
    }
}

impl Clone for SignedDelegation {
    fn clone(&self) -> (r: Self)
        ensures
            r@ == self@,
    {
        SignedDelegation { delegation: self.delegation.clone(), signature: copy_bytes(&self.signature) }
    }
}

pub open spec fn chain_view(c: Seq<SignedDelegation>) -> Seq<SignedModel> {
    c.map_values(|s: SignedDelegation| s@)
}

pub fn copy_chain(c: &Vec<SignedDelegation>) -> (r: Vec<SignedDelegation>)
    ensures
        chain_view(r@) == chain_view(c@),
{
    let mut r: Vec<SignedDelegation> = Vec::new();
    let mut i: usize = 0;
    while i < c.len()
        invariant
            0 <= i <= c@.len(),
            r@.len() == i,
            forall|k: int| 0 <= k < i ==> (#[trigger] r@[k])@ == c@[k]@,
        decreases c@.len() - i,
    {
        r.push(c[i].clone());
        i = i + 1;
    }
    assert(chain_view(r@) =~= chain_view(c@));
    r
}

// ---------------------------------------------------------------- signed message

/// The eight big-endian bytes of `x`.
pub open spec fn u64_be(x: u64) -> Seq<u8> {
    seq![
        (x >> 56u64) as u8,
        (x >> 48u64) as u8,
        (x >> 40u64) as u8,
        (x >> 32u64) as u8,
        (x >> 24u64) as u8,
        (x >> 16u64) as u8,
        (x >> 8u64) as u8,
        x as u8,
    ]
}

pub open spec fn length_prefixed(b: Seq<u8>) -> Seq<u8> {
    u64_be(b.len() as u64) + b
}

pub open spec fn byte_strings_bytes(ts: Seq<Seq<u8>>) -> Seq<u8>
    decreases ts.len(),
{
    if ts.len() == 0 {
        Seq::empty()
    } else {
        byte_strings_bytes(ts.drop_last()) + length_prefixed(ts.last())
    }
}

/// The domain separator that starts every signed delegation: `"\x1Aic-request-auth-delegation"`.
pub open spec fn delegation_domain() -> Seq<u8> {
    seq![
        0x1au8, 105u8, 99u8, 45u8, 114u8, 101u8, 113u8, 117u8, 101u8, 115u8, 116u8, 45u8, 97u8,
        117u8, 116u8, 104u8, 45u8, 100u8, 101u8, 108u8, 101u8, 103u8, 97u8, 116u8, 105u8, 111u8,
        110u8,
    ]
}

/// The bytes a delegator signs: the domain separator, the expiration, the delegated key,
/// and the target restriction, each length-prefixed where its length varies.
///
/// This framing is this library's own. It borrows the Internet Computer's domain
/// separator but not its representation-independent hash of the delegation, so a replica
/// would not accept chains signed over it; they verify only with `verify_chain`.
pub open spec fn delegation_message(d: DelegationModel) -> Seq<u8> {
    delegation_domain() + u64_be(d.expiration) + length_prefixed(d.pubkey) + match d.targets {
        None => seq![0u8],
        Some(ts) => seq![1u8] + u64_be(ts.len() as u64) + byte_strings_bytes(ts),
    }
}

fn push_u64_be(v: &mut Vec<u8>, x: u64)
    ensures
        final(v)@ == old(v)@ + u64_be(x),
{
    v.push((x >> 56u64) as u8);
    v.push((x >> 48u64) as u8);
    v.push((x >> 40u64) as u8);
    v.push((x >> 32u64) as u8);
    v.push((x >> 24u64) as u8);
    v.push((x >> 16u64) as u8);
    v.push((x >> 8u64) as u8);
    v.push(x as u8);
    assert(final(v)@ =~= old(v)@ + u64_be(x));
}

fn push_bytes(v: &mut Vec<u8>, b: &Vec<u8>)
    ensures
        final(v)@ == old(v)@ + b@,
{
    let mut i: usize = 0;
    while i < b.len()
        invariant
            0 <= i <= b@.len(),
            v@ =~= old(v)@ + b@.subrange(0, i as int),
        decreases b@.len() - i,
    {
        v.push(b[i]);
        i = i + 1;
    }
    assert(b@.subrange(0, i as int) =~= b@);
}

fn push_length_prefixed(v: &mut Vec<u8>, b: &Vec<u8>)
    ensures
        final(v)@ == old(v)@ + length_prefixed(b@),
{
    push_u64_be(v, b.len() as u64);
    push_bytes(v, b);
    assert(final(v)@ =~= old(v)@ + length_prefixed(b@));
}

/// The bytes that the delegator of `d` signs.
pub fn delegation_message_bytes(d: &Delegation) -> (r: Vec<u8>)
    ensures
        r@ == delegation_message(d@),
{
    let mut m: Vec<u8> = vec![
        0x1a, 105, 99, 45, 114, 101, 113, 117, 101, 115, 116, 45, 97, 117, 116, 104, 45, 100,
        101, 108, 101, 103, 97, 116, 105, 111, 110,
    ];
    assert(m@ =~= delegation_domain());
    push_u64_be(&mut m, d.expiration);
    push_length_prefixed(&mut m, &d.pubkey);
    let ghost head = m@;
    match &d.targets {
        None => {
            m.push(0u8);
            assert(m@ =~= head + seq![0u8]);
        },
        Some(ts) => {
            m.push(1u8);
            push_u64_be(&mut m, ts.len() as u64);
            let ghost mid = m@;
            let mut i: usize = 0;
            while i < ts.len()
                invariant
                    0 <= i <= ts@.len(),
                    m@ == mid + byte_strings_bytes(byte_strings_view(ts@.subrange(0, i as int))),
                decreases ts@.len() - i,
            {
                let ghost before = m@;
                push_length_prefixed(&mut m, &ts[i]);
                proof {
                    let s = byte_strings_view(ts@.subrange(0, i + 1));
                    assert(s.drop_last() =~= byte_strings_view(ts@.subrange(0, i as int)));
                    assert(s.last() == ts@[i as int]@);
                }
                i = i + 1;
            }
            assert(ts@.subrange(0, i as int) =~= ts@);
            assert(m@ =~= head + (seq![1u8] + u64_be(ts@.len() as u64) + byte_strings_bytes(
                byte_strings_view(ts@),
            )));
        },
    }
    m
}

// ---------------------------------------------------------------- verification

/// The key that must have signed link `i`: the root key for the first link, else the key
/// that the link before delegated to.
pub open spec fn link_signer(root: Seq<u8>, chain: Seq<SignedModel>, i: int) -> Seq<u8> {
    if i == 0 {
        root
    } else {
        chain[i - 1].delegation.pubkey
    }
}

pub open spec fn link_signed(root: Seq<u8>, chain: Seq<SignedModel>, i: int) -> bool {
    ecdsa_verifies(
        link_signer(root, chain, i),
        delegation_message(chain[i].delegation),
        chain[i].signature,
    )
}

pub open spec fn link_live(chain: Seq<SignedModel>, i: int, now: u64) -> bool {
    now < chain[i].delegation.expiration
}

pub open spec fn link_ok(root: Seq<u8>, chain: Seq<SignedModel>, i: int, now: u64) -> bool {
    link_signed(root, chain, i) && link_live(chain, i, now)
}

pub open spec fn links_ok_before(root: Seq<u8>, chain: Seq<SignedModel>, k: int, now: u64) -> bool {
    forall|i: int| 0 <= i < k ==> #[trigger] link_ok(root, chain, i, now)
}

/// A chain is valid at `now` when it has a link, every signature verifies under the key
/// before it, and no link has expired.
pub open spec fn chain_valid(root: Seq<u8>, chain: Seq<SignedModel>, now: u64) -> bool {
    chain.len() > 0 && links_ok_before(root, chain, chain.len() as int, now)
}

/// Replays `chain` front to back from `root` (a DER public key) at time `now`
/// (nanoseconds since the Unix epoch), and names the first link that fails.
pub fn verify_chain(root: &Vec<u8>, chain: &Vec<SignedDelegation>, now: u64) -> (r: Result<
    (),
    DelegationError,
>)
    ensures
        r is Ok <==> chain_valid(root@, chain_view(chain@), now),
        r == Err::<(), DelegationError>(DelegationError::EmptyChain) <==> chain@.len() == 0,
        r matches Err(DelegationError::InvalidSignature { index }) ==> index < chain@.len()
            && links_ok_before(root@, chain_view(chain@), index as int, now) && !link_signed(
            root@,
            chain_view(chain@),
            index as int,
        ),
        r matches Err(DelegationError::Expired { index }) ==> index < chain@.len()
            && links_ok_before(root@, chain_view(chain@), index as int, now) && link_signed(
            root@,
            chain_view(chain@),
            index as int,
        ) && !link_live(chain_view(chain@), index as int, now),
        r != Err::<(), DelegationError>(DelegationError::MalformedKey),
        r != Err::<(), DelegationError>(DelegationError::SessionKeyMismatch),
{
    let ghost cv = chain_view(chain@);
    if chain.len() == 0 {
        return Err(DelegationError::EmptyChain);
    }
    let mut i: usize = 0;
    while i < chain.len()
        invariant
            cv == chain_view(chain@),
            0 <= i <= chain@.len(),
            links_ok_before(root@, cv, i as int, now),
        decreases chain@.len() - i,
    {
        let signer = if i == 0 {
            root
        } else {
            &chain[i - 1].delegation.pubkey
        };
        assert(signer@ == link_signer(root@, cv, i as int));
        let msg = delegation_message_bytes(&chain[i].delegation);
        if !verify_signature(signer, &msg, &chain[i].signature) {
            proof {
                lemma_bad_link_rejects_chain(root@, cv, now, i as int);
            }
            return Err(DelegationError::InvalidSignature { index: i });
        }
        if chain[i].delegation.expiration <= now {
            proof {
                lemma_bad_link_rejects_chain(root@, cv, now, i as int);
            }
            return Err(DelegationError::Expired { index: i });
        }
        assert(link_ok(root@, cv, i as int, now));
        i = i + 1;
    }
    Ok(())
}

/// A chain with one forged or expired link is rejected, wherever that link stands.
pub proof fn lemma_bad_link_rejects_chain(root: Seq<u8>, chain: Seq<SignedModel>, now: u64, i: int)
    requires
        0 <= i < chain.len(),
        !link_signed(root, chain, i) || !link_live(chain, i, now),
    ensures
        !chain_valid(root, chain, now),
{
    assert(!link_ok(root, chain, i, now));
}

// ---------------------------------------------------------------- expiry

/// The earliest expiration in a chain; the largest `u64` for an empty chain.
pub open spec fn min_expiration(chain: Seq<SignedModel>) -> u64
    decreases chain.len(),
{
    if chain.len() == 0 {
        u64::MAX
    } else {
        let m = min_expiration(chain.drop_last());
        let e = chain.last().delegation.expiration;
        if e < m {
            e
        } else {
            m
        }
    }
}

/// The earliest expiration is below every link's and is some link's.
pub proof fn lemma_min_expiration(chain: Seq<SignedModel>)
    ensures
        forall|i: int|
            0 <= i < chain.len() ==> min_expiration(chain) <= #[trigger] chain[i].delegation.expiration,
        chain.len() > 0 ==> exists|i: int|
            0 <= i < chain.len() && min_expiration(chain) == #[trigger] chain[i].delegation.expiration,
    decreases chain.len(),
{
    if chain.len() > 0 {
        let p = chain.drop_last();
        lemma_min_expiration(p);
        assert forall|i: int| 0 <= i < chain.len() implies min_expiration(chain)
            <= #[trigger] chain[i].delegation.expiration by {
            if i < chain.len() - 1 {
                assert(p[i] == chain[i]);
            }
        }
        if p.len() > 0 && min_expiration(chain) == min_expiration(p) {
            let j = choose|j: int| 0 <= j < p.len() && min_expiration(p) == #[trigger] p[j].delegation.expiration;
            assert(chain[j] == p[j]);
        } else {
            assert(min_expiration(chain) == chain[chain.len() - 1].delegation.expiration);
        }
    }
}

/// The effective expiry of a chain: the minimum expiration over its links.
pub fn effective_expiry(chain: &Vec<SignedDelegation>) -> (r: u64)
    ensures
        r == min_expiration(chain_view(chain@)),
        forall|i: int| 0 <= i < chain@.len() ==> r <= #[trigger] chain@[i].delegation.expiration,
        chain@.len() > 0 ==> exists|i: int|
            0 <= i < chain@.len() && r == #[trigger] chain@[i].delegation.expiration,
{
    let ghost cv = chain_view(chain@);
    let mut acc: u64 = u64::MAX;
    let mut i: usize = 0;
    while i < chain.len()
        invariant
            cv == chain_view(chain@),
            0 <= i <= chain@.len(),
            acc == min_expiration(cv.subrange(0, i as int)),
        decreases chain@.len() - i,
    {
        proof {
            assert(cv.subrange(0, i + 1).drop_last() =~= cv.subrange(0, i as int));
        }
        let e = chain[i].delegation.expiration;
        if e < acc {
            acc = e;
        }
        i = i + 1;
    }
    proof {
        assert(cv.subrange(0, i as int) =~= cv);
        lemma_min_expiration(cv);
        assert forall|k: int| 0 <= k < chain@.len() implies acc <= #[trigger] chain@[k].delegation.expiration by {
            assert(cv[k].delegation.expiration == chain@[k].delegation.expiration);
        }
        if chain@.len() > 0 {
            let j = choose|j: int| 0 <= j < cv.len() && min_expiration(cv) == #[trigger] cv[j].delegation.expiration;
            assert(cv[j] == chain@[j]@);
        }
    }
    acc
}

// ---------------------------------------------------------------- identities

/// What a wire identity holds, as plain values.
pub struct WireModel {
    pub from_key: Seq<u8>,
    pub to_secret: Seq<char>,
    pub chain: Seq<SignedModel>,
}

/// The transfer form of a delegated identity: the originating public key (DER), the
/// session secret key as a JSON Web Key, and the chain from the first to the session key.
///
/// The session key is a bearer credential for as long as the chain is valid.
#[derive(Debug)]
pub struct DelegatedIdentityWire {
    from_key: Vec<u8>,
    to_secret: String,
    delegation_chain: Vec<SignedDelegation>,
}

impl View for DelegatedIdentityWire {
    type V = WireModel;

    closed spec fn view(&self) -> WireModel {
        WireModel {
            from_key: self.from_key@,
            to_secret: self.to_secret@,
            chain: chain_view(self.delegation_chain@),
        }
    }
}

impl Clone for DelegatedIdentityWire {
    fn clone(&self) -> (r: Self)
        ensures
            r@ == self@,
    {
        DelegatedIdentityWire {
            from_key: copy_bytes(&self.from_key),
            to_secret: self.to_secret.clone(),
            delegation_chain: copy_chain(&self.delegation_chain),
        }
    }
}

/// What a signing identity holds, as plain values.
pub struct IdentityModel {
    pub from_key: Seq<u8>,
    pub secret: Seq<u8>,
    pub chain: Seq<SignedModel>,
}

/// A signing identity: a secret key, and the chain that lets it act for `from_key`.
/// A root identity has an empty chain and acts for its own public key.
#[derive(Debug)]
pub struct DelegatedIdentity {
    from_key: Vec<u8>,
    secret: Vec<u8>,
    chain: Vec<SignedDelegation>,
}

impl View for DelegatedIdentity {
    type V = IdentityModel;

    closed spec fn view(&self) -> IdentityModel {
        IdentityModel { from_key: self.from_key@, secret: self.secret@, chain: chain_view(self.chain@) }
    }
}

impl Clone for DelegatedIdentity {
    fn clone(&self) -> (r: Self)
        ensures
            r@ == self@,
    {
        DelegatedIdentity {
            from_key: copy_bytes(&self.from_key),
            secret: copy_bytes(&self.secret),
            chain: copy_chain(&self.chain),
        }
    }
}

pub open spec fn saturating_sum(a: u64, b: u64) -> u64 {
    if a + b > u64::MAX {
        u64::MAX
    } else {
        (a + b) as u64
    }
}

/// The wire identity that delegating from `from` to the secret key `to_secret` at `now`
/// for `max_age` (nanoseconds) gives, or `None` where some key cannot be used.
pub open spec fn delegated_wire(from: IdentityModel, to_secret: Seq<u8>, now: u64, max_age: u64) -> Option<
    WireModel,
> {
    match secp256k1_public_key_der(to_secret) {
        None => None,
        Some(pubkey) => {
            let d = DelegationModel { pubkey, expiration: saturating_sum(now, max_age), targets: None };
            match ecdsa_signature(from.secret, delegation_message(d)) {
                None => None,
                Some(signature) => match jwk_of_secret(to_secret) {
                    None => None,
                    Some(jwk) => Some(
                        WireModel {
                            from_key: from.from_key,
                            to_secret: jwk,
                            chain: from.chain.push(SignedModel { delegation: d, signature }),
                        },
                    ),
                },
            }
        },
    }
}

/// The identity holds the secret key of the key that its chain's last link delegated to.
pub open spec fn session_key_bound(id: IdentityModel) -> bool {
    id.chain.len() > 0 && secp256k1_public_key_der(id.secret) == Some(id.chain.last().delegation.pubkey)
}

/// The wire form's session key decodes to the key that its chain's last link delegated to.
pub open spec fn wire_session_bound(w: WireModel) -> bool {
    w.chain.len() > 0 && jwk_secret(w.to_secret) is Some && secp256k1_public_key_der(
        jwk_secret(w.to_secret)->Some_0,
    ) == Some(w.chain.last().delegation.pubkey)
}

fn bytes_equal(a: &Vec<u8>, b: &Vec<u8>) -> (r: bool)
    ensures
        r == (a@ == b@),
{
    if a.len() != b.len() {
        return false;
    }
    let mut i: usize = 0;
    while i < a.len()
        invariant
            a@.len() == b@.len(),
            0 <= i <= a@.len(),
            forall|k: int| 0 <= k < i ==> a@[k] == b@[k],
        decreases a@.len() - i,
    {
        if a[i] != b[i] {
            return false;
        }
        i = i + 1;
    }
    assert(a@ =~= b@);
    true
}

impl DelegatedIdentityWire {
    pub fn new(from_key: Vec<u8>, to_secret: String, delegation_chain: Vec<SignedDelegation>) -> (r:
        Self)
        ensures
            r@ == (WireModel {
                from_key: from_key@,
                to_secret: to_secret@,
                chain: chain_view(delegation_chain@),
            }),
    {
        DelegatedIdentityWire { from_key, to_secret, delegation_chain }
    }

    pub fn from_key(&self) -> (r: &Vec<u8>)
        ensures
            r@ == self@.from_key,
    {
        &self.from_key
    }

    pub fn to_secret(&self) -> (r: &str)
        ensures
            r@ == self@.to_secret,
    {
        self.to_secret.as_str()
    }

    pub fn delegation_chain(&self) -> (r: &Vec<SignedDelegation>)
        ensures
            chain_view(r@) == self@.chain,
    {
        &self.delegation_chain
    }

    /// The time until which the identity may act: the earliest expiration in its chain.
    pub fn expiry_ns(&self) -> (r: u64)
        ensures
            r == min_expiration(self@.chain),
    {
        effective_expiry(&self.delegation_chain)
    }

    /// Delegates from `from` to the session key `to_secret`, valid from `now` for
    /// `max_age` (nanoseconds, the sum saturating), appending the new link to `from`'s chain.
    pub fn delegate_at(from: &DelegatedIdentity, to_secret: &Vec<u8>, now: u64, max_age: u64) -> (r:
        Result<Self, DelegationError>)
        ensures
            r matches Ok(w) ==> delegated_wire(from@, to_secret@, now, max_age) == Some(w@),
            r matches Ok(w) ==> (secp256k1_public_key_der(from@.secret) matches Some(pk)
                ==> ecdsa_verifies(
                pk,
                delegation_message(w@.chain.last().delegation),
                w@.chain.last().signature,
            )),
            r matches Ok(w) ==> (to_secret@.len() == 32 ==> wire_session_bound(w@)),
            r is Err ==> delegated_wire(from@, to_secret@, now, max_age) is None && r
                == Err::<Self, DelegationError>(DelegationError::MalformedKey),
    {
        let pubkey = match public_key_der(to_secret) {
            Some(k) => k,
            None => return Err(DelegationError::MalformedKey),
        };
        let delegation = Delegation { pubkey, expiration: now.saturating_add(max_age), targets: None };
        let msg = delegation_message_bytes(&delegation);
        let signature = match sign_message(&from.secret, &msg) {
            Some(s) => s,
            None => return Err(DelegationError::MalformedKey),
        };
        let jwk = match secret_to_jwk(to_secret) {
            Some(j) => j,
            None => return Err(DelegationError::MalformedKey),
        };
        let mut delegation_chain = copy_chain(&from.chain);
        let ghost before = delegation_chain@;
        delegation_chain.push(SignedDelegation { delegation, signature });
        proof {
            assert(chain_view(delegation_chain@) =~= chain_view(before).push(
                delegation_chain@.last()@,
            ));
        }
        Ok(DelegatedIdentityWire { from_key: copy_bytes(&from.from_key), to_secret: jwk, delegation_chain })
    }

    /// Delegates from `from` to a fresh session key, valid from now for `max_age`
    /// nanoseconds.
    fn delegate_with_max_age(from: &DelegatedIdentity, max_age: u64) -> (r: Result<
        Self,
        DelegationError,
    >)
        ensures
            r matches Ok(w) ==> w@.from_key == from@.from_key && w@.chain.len() == from@.chain.len()
                + 1 && w@.chain.subrange(0, from@.chain.len() as int) == from@.chain,
            r matches Ok(w) ==> exists|k: Seq<u8>, now: u64|
                k.len() == 32 && #[trigger] delegated_wire(from@, k, now, max_age) == Some(w@),
    {
        let to_secret = random_secret_key();
        let now = unix_time_nanos();
        let r = DelegatedIdentityWire::delegate_at(from, &to_secret, now, max_age);
        proof {
            if r is Ok {
                let w = r->Ok_0@;
                assert(w.chain.subrange(0, from@.chain.len() as int) =~= from@.chain);
                assert(delegated_wire(from@, to_secret@, now, max_age) == Some(w));
            }
        }
        r
    }

    /// A standard session: a fresh key delegated for seven days.
    pub fn delegate(from: &DelegatedIdentity) -> (r: Result<Self, DelegationError>)
        ensures
            r matches Ok(w) ==> w@.from_key == from@.from_key && w@.chain.len() == from@.chain.len()
                + 1 && w@.chain.subrange(0, from@.chain.len() as int) == from@.chain,
            r matches Ok(w) ==> exists|k: Seq<u8>, now: u64|
                k.len() == 32 && #[trigger] delegated_wire(from@, k, now, DELEGATION_MAX_AGE_NS) == Some(w@),
    {
        DelegatedIdentityWire::delegate_with_max_age(from, DELEGATION_MAX_AGE_NS)
    }

    /// A short-lived session: a fresh key delegated for one day.
    pub fn delegate_short_lived_identity(from: &DelegatedIdentity) -> (r: Result<
        Self,
        DelegationError,
    >)
        ensures
            r matches Ok(w) ==> w@.from_key == from@.from_key && w@.chain.len() == from@.chain.len()
                + 1 && w@.chain.subrange(0, from@.chain.len() as int) == from@.chain,
            r matches Ok(w) ==> exists|k: Seq<u8>, now: u64|
                k.len() == 32 && #[trigger] delegated_wire(from@, k, now, SHORT_LIVED_MAX_AGE_NS) == Some(w@),
    {
        DelegatedIdentityWire::delegate_with_max_age(from, SHORT_LIVED_MAX_AGE_NS)
    }
}

impl DelegatedIdentity {
    /// The root identity of a secret key: it acts for its own public key.
    pub fn from_secret(secret: Vec<u8>) -> (r: Option<Self>)
        ensures
            r is None <==> secp256k1_public_key_der(secret@) is None,
            r matches Some(id) ==> secp256k1_public_key_der(secret@) == Some(id@.from_key)
                && id@.secret == secret@ && id@.chain.len() == 0,
    {
        match public_key_der(&secret) {
            Some(from_key) => {
                let chain: Vec<SignedDelegation> = Vec::new();
                assert(chain_view(chain@) =~= Seq::<SignedModel>::empty());
                Some(DelegatedIdentity { from_key, secret, chain })
            },
            None => None,
        }
    }

    /// Rebuilds the signing identity of a wire form: fails with `MalformedKey` exactly
    /// when the session key does not decode.
    pub fn try_from(identity: DelegatedIdentityWire) -> (r: Result<Self, DelegationError>)
        ensures
            r is Err <==> jwk_secret(identity@.to_secret) is None,
            r is Err ==> r == Err::<Self, DelegationError>(DelegationError::MalformedKey),
            r matches Ok(id) ==> jwk_secret(identity@.to_secret) == Some(id@.secret)
                && id@.from_key == identity@.from_key && id@.chain == identity@.chain,
    {
        match secret_from_jwk(identity.to_secret.as_str()) {
            Some(secret) => Ok(
                DelegatedIdentity {
                    from_key: identity.from_key,
                    secret,
                    chain: identity.delegation_chain,
                },
            ),
            None => Err(DelegationError::MalformedKey),
        }
    }

    pub fn from_key(&self) -> (r: &Vec<u8>)
        ensures
            r@ == self@.from_key,
    {
        &self.from_key
    }

    pub fn secret_key(&self) -> (r: &Vec<u8>)
        ensures
            r@ == self@.secret,
    {
        &self.secret
    }

    pub fn delegation_chain(&self) -> (r: &Vec<SignedDelegation>)
        ensures
            chain_view(r@) == self@.chain,
    {
        &self.chain
    }

    /// The principal the identity acts as: the self-authenticating principal of `from_key`.
    pub fn sender(&self) -> (r: String)
        ensures
            r@ == self_authenticating_principal(self@.from_key),
    {
        principal_text(&self.from_key)
    }

    /// Whether the identity's secret key is the one its chain's last link delegated to.
    pub fn holds_session_key(&self) -> (r: bool)
        ensures
            r == session_key_bound(self@),
    {
        let n = self.chain.len();
        if n == 0 {
            return false;
        }
        let ghost cv = chain_view(self.chain@);
        assert(cv.last() == self.chain@[n - 1]@);
        match public_key_der(&self.secret) {
            Some(k) => bytes_equal(&k, &self.chain[n - 1].delegation.pubkey),
            None => false,
        }
    }

    /// Checks every link of the identity's chain at `now`; see `verify_chain`.
    pub fn verify_at(&self, now: u64) -> (r: Result<(), DelegationError>)
        ensures
            r is Ok <==> chain_valid(self@.from_key, self@.chain, now),
            r != Err::<(), DelegationError>(DelegationError::MalformedKey),
            r != Err::<(), DelegationError>(DelegationError::SessionKeyMismatch),
    {
        verify_chain(&self.from_key, &self.chain, now)
    }
}

/// The standard session identity delegated from a secret key, if the key is one.
pub fn extract_identity(secret: Option<Vec<u8>>) -> (r: Option<DelegatedIdentityWire>)
    ensures
        secret is None ==> r is None,
        r matches Some(w) ==> secret matches Some(k) && secp256k1_public_key_der(k@) == Some(
            w@.from_key,
        ) && w@.chain.len() == 1,
        secret matches Some(k) ==> (secp256k1_public_key_der(k@) is None ==> r is None),
        r matches Some(w) ==> (secret matches Some(k) && exists|s: Seq<u8>, now: u64|
            s.len() == 32 && #[trigger] delegated_wire(
                IdentityModel {
                    from_key: secp256k1_public_key_der(k@)->Some_0,
                    secret: k@,
                    chain: Seq::empty(),
                },
                s,
                now,
                DELEGATION_MAX_AGE_NS,
            ) == Some(w@)),
{
    let base = match secret {
        Some(k) => match DelegatedIdentity::from_secret(k) {
            Some(id) => id,
            None => return None,
        },
        None => return None,
    };
    proof {
        let k = secret->Some_0@;
        assert(base@.chain =~= Seq::<SignedModel>::empty());
        assert(base@ == IdentityModel {
            from_key: secp256k1_public_key_der(k)->Some_0,
            secret: k,
            chain: Seq::empty(),
        });
    }
    match DelegatedIdentityWire::delegate(&base) {
        Ok(w) => Some(w),
        Err(_) => None,
    }
}

/// Delegating appends exactly one link, and the new chain's effective expiry is the
/// earlier of the delegator's and the new link's expiration.
pub proof fn lemma_delegated_expiry(from: IdentityModel, to_secret: Seq<u8>, now: u64, max_age: u64)
    requires
        delegated_wire(from, to_secret, now, max_age) is Some,
    ensures
        ({
            let w = delegated_wire(from, to_secret, now, max_age)->Some_0;
            let m = min_expiration(from.chain);
            let e = saturating_sum(now, max_age);
            &&& w.chain.len() == from.chain.len() + 1
            &&& min_expiration(w.chain) == if e < m {
                e
            } else {
                m
            }
        }),
{
    let w = delegated_wire(from, to_secret, now, max_age)->Some_0;
    assert(w.chain.drop_last() =~= from.chain);
}

/// A delegation made by a root identity gives a valid chain until it expires, once its
/// signature verifies under the root key (which `delegate_at` ensures of what it makes).
pub proof fn lemma_root_delegation_valid(
    from: IdentityModel,
    to_secret: Seq<u8>,
    now: u64,
    max_age: u64,
    t: u64,
)
    requires
        delegated_wire(from, to_secret, now, max_age) is Some,
        from.chain.len() == 0,
        ecdsa_verifies(
            from.from_key,
            delegation_message(delegated_wire(from, to_secret, now, max_age)->Some_0.chain.last().delegation),
            delegated_wire(from, to_secret, now, max_age)->Some_0.chain.last().signature,
        ),
        t < saturating_sum(now, max_age),
    ensures
        ({
            let w = delegated_wire(from, to_secret, now, max_age)->Some_0;
            chain_valid(w.from_key, w.chain, t)
        }),
{
    let w = delegated_wire(from, to_secret, now, max_age)->Some_0;
    assert(w.chain.len() == 1);
    assert(link_ok(w.from_key, w.chain, 0, t));
}

} // verus!
