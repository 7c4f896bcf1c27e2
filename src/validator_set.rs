use vstd::prelude::*;

use crate::account::AccountAddress;
use crate::encoding::{bytes_equal, push_u64, u64_be};

verus! {

/// The public half of a validator's consensus key.
#[derive(Clone, Copy, Debug, PartialEq, Eq, Structural, Hash)]
pub struct PublicKey(pub u64);

/// A model of a signature, not cryptography: it names the key it claims and the
/// bytes it covers, and checking it compares the two. Its fields are public, so
/// anyone can build one; the safety rules only decide which bytes this
/// validator's signing capability is asked to cover.
#[derive(Clone, Debug, PartialEq, Eq)]
pub struct Signature {
    pub signer: PublicKey,
    pub message: Vec<u8>,
}

/// Whether `sig` is `key`'s signature of `msg`.
pub open spec fn signs(sig: Signature, key: PublicKey, msg: Seq<u8>) -> bool {
    sig.signer == key && sig.message@ == msg
}

impl Signature {
    /// Checks the signature against a key and a message.
    pub fn verify(&self, key: PublicKey, msg: &Vec<u8>) -> (r: bool)
        ensures
            r == signs(*self, key, msg@),
    {
        self.signer == key && bytes_equal(&self.message, msg)
    }
}

/// The signing capability of one validator: its identity and the key it holds.
#[derive(Clone, Copy, Debug, PartialEq, Eq, Structural)]
pub struct ValidatorSigner {
    pub author: AccountAddress,
    pub public_key: PublicKey,
}

impl ValidatorSigner {
    pub fn new(author: AccountAddress, public_key: PublicKey) -> (r: ValidatorSigner)
        ensures
            r.author == author,
            r.public_key == public_key,
    {
        ValidatorSigner { author, public_key }
    }

    /// Signs `message` with this validator's key.
    pub fn sign(&self, message: Vec<u8>) -> (r: Signature)
        ensures
            signs(r, self.public_key, message@),
    {
        Signature { signer: self.public_key, message }
    }
}

/// One member of a validator set.
#[derive(Clone, Copy, Debug, PartialEq, Eq, Structural)]
pub struct ValidatorInfo {
    pub account_address: AccountAddress,
    pub consensus_public_key: PublicKey,
    pub consensus_voting_power: u64,
}

/// The signature schemes a validator set may use.
#[derive(Clone, Copy, Debug, PartialEq, Eq, Structural)]
pub enum ConsensusScheme {
    Ed25519,
}

/// The validators of one epoch, in order.
#[derive(Clone, Debug, PartialEq, Eq)]
pub struct ValidatorSet {
    scheme: ConsensusScheme,
    payload: Vec<ValidatorInfo>,
}

/// The first member of `s` with address `a`, if any.
pub open spec fn lookup(s: Seq<ValidatorInfo>, a: AccountAddress) -> Option<ValidatorInfo>
    decreases s.len(),
{
    if s.len() == 0 {
        None
    } else if s[0].account_address == a {
        Some(s[0])
    } else {
        lookup(s.drop_first(), a)
    }
}

/// The voting power of all members together.
pub open spec fn total_power(s: Seq<ValidatorInfo>) -> nat
    decreases s.len(),
{
    if s.len() == 0 {
        0
    } else {
        total_power(s.drop_last()) + s.last().consensus_voting_power as nat
    }
}

/// The voting power a set of signers needs: more than two thirds of the total.
pub open spec fn quorum_power(s: Seq<ValidatorInfo>) -> nat {
    total_power(s) * 2 / 3 + 1
}

/// Encoding of one validator.
pub open spec fn validator_enc(v: ValidatorInfo) -> Seq<u8> {
    u64_be((v.account_address.0 >> 64u128) as u64) + u64_be(v.account_address.0 as u64) + u64_be(
        v.consensus_public_key.0,
    ) + u64_be(v.consensus_voting_power)
}

/// Encoding of the validators, one after another.
pub open spec fn validators_enc(s: Seq<ValidatorInfo>) -> Seq<u8>
    decreases s.len(),
{
    if s.len() == 0 {
        Seq::empty()
    } else {
        validators_enc(s.drop_last()) + validator_enc(s.last())
    }
}

/// Encoding of a validator set: the count, then the validators.
pub open spec fn validator_set_enc(s: Seq<ValidatorInfo>) -> Seq<u8> {
    u64_be(s.len() as u64) + validators_enc(s)
}

proof fn lemma_total_power_bound(s: Seq<ValidatorInfo>)
    ensures
        total_power(s) <= s.len() * 0xffff_ffff_ffff_ffff,
    decreases s.len(),
{
    if s.len() > 0 {
        lemma_total_power_bound(s.drop_last());
        assert(total_power(s) <= s.len() * 0xffff_ffff_ffff_ffff) by (nonlinear_arith)
            requires
                total_power(s) == total_power(s.drop_last()) + s.last().consensus_voting_power,
                total_power(s.drop_last()) <= (s.len() - 1) * 0xffff_ffff_ffff_ffff,
                s.last().consensus_voting_power <= 0xffff_ffff_ffff_ffff,
        ;
    }
}

impl View for ValidatorSet {
    type V = Seq<ValidatorInfo>;

    closed spec fn view(&self) -> Seq<ValidatorInfo> {
        self.payload@
    }
}

impl ValidatorSet {
    /// A validator set of the given members.
    pub fn new(payload: Vec<ValidatorInfo>) -> (r: ValidatorSet)
        ensures
            r@ == payload@,
            r.scheme() == ConsensusScheme::Ed25519,
    {
        ValidatorSet { scheme: ConsensusScheme::Ed25519, payload }
    }

    pub closed spec fn scheme(&self) -> ConsensusScheme {
        self.scheme
    }

    /// The members.
    pub fn payload(&self) -> (r: &[ValidatorInfo])
        ensures
            r@ == self@,
    {
        self.payload.as_slice()
    }

    /// The set without members.
    pub fn empty() -> (r: ValidatorSet)
        ensures
            r@ == Seq::<ValidatorInfo>::empty(),
            r.scheme() == ConsensusScheme::Ed25519,
    {
        ValidatorSet::new(Vec::new())
    }

    /// A copy with the same members.
    pub fn duplicate(&self) -> (r: ValidatorSet)
        ensures
            r@ == self@,
            r.scheme() == self.scheme(),
    {
        let mut payload: Vec<ValidatorInfo> = Vec::with_capacity(self.payload.len());
        let mut i: usize = 0;
        while i < self.payload.len()
            invariant
                i <= self.payload@.len(),
                payload@ == self.payload@.subrange(0, i as int),
            decreases self.payload@.len() - i,
        {
            payload.push(self.payload[i]);
            i = i + 1;
            assert(payload@ =~= self.payload@.subrange(0, i as int));
        }
        assert(self.payload@.subrange(0, i as int) =~= self.payload@);
        ValidatorSet { scheme: self.scheme, payload }
    }

    /// The first member with address `a`.
    pub fn lookup(&self, a: AccountAddress) -> (r: Option<ValidatorInfo>)
        ensures
            r == lookup(self@, a),
    {
        let mut i: usize = 0;
        assert(self.payload@.subrange(0, self.payload@.len() as int) =~= self.payload@);
        while i < self.payload.len()
            invariant
                i <= self.payload@.len(),
                lookup(self.payload@, a) == lookup(self.payload@.subrange(i as int, self.payload@.len() as int), a),
            decreases self.payload@.len() - i,
        {
            let ghost rest = self.payload@.subrange(i as int, self.payload@.len() as int);
            assert(rest[0] == self.payload@[i as int]);
            if self.payload[i].account_address == a {
                return Some(self.payload[i]);
            }
            assert(rest.drop_first() =~= self.payload@.subrange(i + 1, self.payload@.len() as int));
            i = i + 1;
        }
        None
    }

    /// The voting power of all members together.
    pub fn total_voting_power(&self) -> (r: u128)
        ensures
            r == total_power(self@),
    {
        let mut total: u128 = 0;
        let mut i: usize = 0;
        while i < self.payload.len()
            invariant
                i <= self.payload@.len(),
                total == total_power(self.payload@.subrange(0, i as int)),
            decreases self.payload@.len() - i,
        {
            let ghost prefix = self.payload@.subrange(0, i + 1);
            assert(prefix.drop_last() =~= self.payload@.subrange(0, i as int));
            proof {
                lemma_total_power_bound(prefix);
                assert(prefix.len() * 0xffff_ffff_ffff_ffff <= 0xffff_ffff_ffff_ffff
                    * 0xffff_ffff_ffff_ffff) by (nonlinear_arith)
                    requires
                        prefix.len() <= 0xffff_ffff_ffff_ffff,
                ;
            }
            total = total + self.payload[i].consensus_voting_power as u128;
            i = i + 1;
        }
        assert(self.payload@.subrange(0, i as int) =~= self.payload@);
        total
    }

    /// The voting power that a quorum of this set needs.
    pub fn quorum_voting_power(&self) -> (r: u128)
        ensures
            r == quorum_power(self@),
    {
        let total = self.total_voting_power();
        let n = self.payload.len();
        proof {
            lemma_total_power_bound(self@);
            assert(self@.len() * 0xffff_ffff_ffff_ffff <= 0xffff_ffff_ffff_ffff
                * 0xffff_ffff_ffff_ffff) by (nonlinear_arith)
                requires
                    self@.len() <= 0xffff_ffff_ffff_ffff,
            ;
        }
        total / 3 * 2 + (total % 3) * 2 / 3 + 1
    }

    /// Appends the encoding of the set.
    pub fn encode_into(&self, out: &mut Vec<u8>)
        ensures
            final(out)@ == old(out)@ + validator_set_enc(self@),
    {
        push_u64(out, self.payload.len() as u64);
        let ghost start = out@;
        let mut i: usize = 0;
        while i < self.payload.len()
            invariant
                i <= self.payload@.len(),
                out@ == start + validators_enc(self.payload@.subrange(0, i as int)),
            decreases self.payload@.len() - i,
        {
            let v = self.payload[i];
            let ghost prefix = self.payload@.subrange(0, i + 1);
            assert(prefix.drop_last() =~= self.payload@.subrange(0, i as int));
            push_u64(out, (v.account_address.0 >> 64u128) as u64);
            push_u64(out, v.account_address.0 as u64);
            push_u64(out, v.consensus_public_key.0);
            push_u64(out, v.consensus_voting_power);
            i = i + 1;
            assert(out@ =~= start + validators_enc(self.payload@.subrange(0, i as int)));
        }
        assert(self.payload@.subrange(0, i as int) =~= self.payload@);
        assert(out@ =~= old(out)@ + validator_set_enc(self@));
    }
}

} // verus!
