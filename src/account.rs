use vstd::prelude::*;

verus! {

/// The address of an account: sixteen bytes, read as one big-endian number.
#[derive(Clone, Copy, Debug, PartialEq, Eq, Structural, Hash, PartialOrd, Ord)]
pub struct AccountAddress(pub u128);

/// `0x0101...01`: one in each of the sixteen bytes.
pub const BYTE_ONES: u128 = 0x0101_0101_0101_0101_0101_0101_0101_0101;

impl AccountAddress {
    pub fn new(value: u128) -> (r: AccountAddress)
        ensures
            r.0 == value,
    {
        AccountAddress(value)
    }

    /// The address whose sixteen bytes all equal `b`.
    pub fn repeat_byte(b: u8) -> (r: AccountAddress)
        ensures
            r.0 == b as u128 * BYTE_ONES,
    {
        assert(b as u128 * BYTE_ONES <= 255 * BYTE_ONES) by (nonlinear_arith);
        AccountAddress(b as u128 * BYTE_ONES)
    }
}

/// How an account orders its transactions.
#[derive(Clone, Copy, Debug, PartialEq, Eq, Structural, Hash)]
pub enum AccountSequenceInfo {
    /// One sequence number after another.
    Sequential(u64),
    /// A sliding window of `size` nonces starting at `min_nonce`.
    CRSN { min_nonce: u64, size: u64 },
}

impl AccountSequenceInfo {
    /// The lowest sequence number the account accepts.
    pub fn min_seq(&self) -> (r: u64)
        ensures
            r == match *self {
                AccountSequenceInfo::Sequential(s) => s,
                AccountSequenceInfo::CRSN { min_nonce, .. } => min_nonce,
            },
    {
        match self {
            AccountSequenceInfo::Sequential(seqno) => *seqno,
            AccountSequenceInfo::CRSN { min_nonce, .. } => *min_nonce,
        }
    }
}

/// The on-chain record of a nonce window. The length of `slots` need not be `size`.
#[derive(Clone, Debug)]
pub struct CRSNResource {
    min_nonce: u64,
    size: u64,
    slots: Vec<u8>,
}

impl CRSNResource {
    pub fn new(min_nonce: u64, size: u64, slots: Vec<u8>) -> (r: CRSNResource)
        ensures
            r.min_nonce_spec() == min_nonce,
            r.size_spec() == size,
            r.slots_spec() == slots@,
    {
        CRSNResource { min_nonce, size, slots }
    }

    pub closed spec fn min_nonce_spec(&self) -> u64 {
        self.min_nonce
    }

    pub closed spec fn size_spec(&self) -> u64 {
        self.size
    }

    pub closed spec fn slots_spec(&self) -> Seq<u8> {
        self.slots@
    }

    pub fn min_nonce(&self) -> (r: u64)
        ensures
            r == self.min_nonce_spec(),
    {
        self.min_nonce
    }

    pub fn size(&self) -> (r: u64)
        ensures
            r == self.size_spec(),
    {
        self.size
    }
}

/// The on-chain record of a parent VASP account.
#[derive(Debug)]
pub struct ParentVASP {
    pub num_children: u64,
}

impl ParentVASP {
    pub fn num_children(&self) -> (r: u64)
        ensures
            r == self.num_children,
    {
        self.num_children
    }
}

/// The on-chain record of a child VASP account.
#[derive(Debug)]
pub struct ChildVASP {
    pub parent_vasp_addr: AccountAddress,
}

impl ChildVASP {
    pub fn parent_vasp_addr(&self) -> (r: AccountAddress)
        ensures
            r == self.parent_vasp_addr,
    {
        self.parent_vasp_addr
    }
}

/// The capability to rotate the authentication key of `account_address`.
#[derive(Debug)]
pub struct KeyRotationCapabilityResource {
    pub account_address: AccountAddress,
}

/// Whether an account is known on chain.
#[derive(Clone, Copy, Debug, PartialEq, Eq, Structural)]
pub enum AccountStatus {
    /// Known only to the local cache.
    Local,
    /// Persisted on chain.
    Persisted,
    /// Could not be checked.
    Unknown,
}

/// The encoded parts of a freshly generated key pair.
#[derive(Clone, Debug)]
pub struct GenerateKeypairResponse {
    pub private_key: String,
    pub public_key: String,
    pub diem_auth_key: String,
    pub diem_account_address: String,
}

} // verus!
