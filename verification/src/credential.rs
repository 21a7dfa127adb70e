//! Credentials: what is asked of the provider when a credential is
//! acquired, and what comes back.

use crate::error::{Error, SEC_E_OK};
use vstd::prelude::*;

verus! {

/// The version of the credential description handed to the provider.
pub const SCHANNEL_CRED_VERSION: u32 = 4;

/// The policy flag that bars weak cryptographic algorithms. It is set on
/// every credential.
pub const SCH_USE_STRONG_CRYPTO: u32 = 0x0040_0000;

/// The credential use of the accepting side of a session.
pub const SECPKG_CRED_INBOUND: u32 = 1;

/// The credential use of the connecting side of a session.
pub const SECPKG_CRED_OUTBOUND: u32 = 2;

/// The side of a session that a credential is for.
#[derive(Clone, Copy, Debug, PartialEq, Eq, Structural)]
pub enum Direction {
    /// The credential accepts sessions: the server side.
    Inbound,
    /// The credential opens sessions: the client side.
    Outbound,
}

impl Direction {
    /// The credential use that the provider knows this direction by.
    pub open spec fn usage_spec(self) -> u32 {
        match self {
            Direction::Inbound => SECPKG_CRED_INBOUND,
            Direction::Outbound => SECPKG_CRED_OUTBOUND,
        }
    }

    /// Computes [`Direction::usage_spec`].
    #[verifier::when_used_as_spec(usage_spec)]
    pub fn usage(self) -> (usage: u32)
        ensures
            usage == self.usage_spec(),
    {
        match self {
            Direction::Inbound => SECPKG_CRED_INBOUND,
            Direction::Outbound => SECPKG_CRED_OUTBOUND,
        }
    }
}

/// A cryptographic algorithm that a credential can be pinned to. The stream
/// logic does not interpret it: its identifier is forwarded to the provider.
#[derive(Clone, Copy, Debug, PartialEq, Eq, Structural)]
pub enum Algorithm {
    /// Advanced Encryption Standard (AES).
    Aes,
    /// 128 bit AES.
    Aes128,
    /// 192 bit AES.
    Aes192,
    /// 256 bit AES.
    Aes256,
    /// Temporary identifier for handles of Diffie-Hellman agreed keys.
    AgreedkeyAny,
    /// A 40 bit DES key with parity bits and zeroed key bits, 64 bits long.
    CylinkMek,
    /// DES encryption.
    Des,
    /// DESX encryption.
    Desx,
    /// Diffie-Hellman ephemeral key exchange.
    DhEphem,
    /// Diffie-Hellman store and forward key exchange.
    DhSf,
    /// DSA public key signature.
    DssSign,
    /// Elliptic curve Diffie-Hellman key exchange.
    Ecdh,
    /// Elliptic curve digital signature.
    Ecdsa,
    /// One way function hashing.
    HashReplaceOwf,
    /// Hughes MD5 hashing.
    HughesMd5,
    /// HMAC keyed hash.
    Hmac,
    /// MAC keyed hash.
    Mac,
    /// MD2 hashing.
    Md2,
    /// MD4 hashing.
    Md4,
    /// MD5 hashing.
    Md5,
    /// No signature.
    NoSign,
    /// RC2 block encryption.
    Rc2,
    /// RC4 stream encryption.
    Rc4,
    /// RC5 block encryption.
    Rc5,
    /// RSA public key exchange.
    RsaKeyx,
    /// RSA public key signature.
    RsaSign,
    /// SHA hashing.
    Sha1,
    /// 256 bit SHA hashing.
    Sha256,
    /// 384 bit SHA hashing.
    Sha384,
    /// 512 bit SHA hashing.
    Sha512,
    /// Triple DES encryption.
    TripleDes,
    /// Two-key triple DES encryption, with an effective key length of 112 bits.
    TripleDes112,
}

impl Algorithm {
    /// The identifier that the provider knows the algorithm by.
    pub open spec fn id_spec(self) -> u32 {
        match self {
            Algorithm::Aes => 0x6611,
            Algorithm::Aes128 => 0x660E,
            Algorithm::Aes192 => 0x660F,
            Algorithm::Aes256 => 0x6610,
            Algorithm::AgreedkeyAny => 0xAA03,
            Algorithm::CylinkMek => 0x660C,
            Algorithm::Des => 0x6601,
            Algorithm::Desx => 0x6604,
            Algorithm::DhEphem => 0xAA02,
            Algorithm::DhSf => 0xAA01,
            Algorithm::DssSign => 0x2200,
            Algorithm::Ecdh => 0xAA05,
            Algorithm::Ecdsa => 0x2203,
            Algorithm::HashReplaceOwf => 0x800B,
            Algorithm::HughesMd5 => 0xA003,
            Algorithm::Hmac => 0x8009,
            Algorithm::Mac => 0x8005,
            Algorithm::Md2 => 0x8001,
            Algorithm::Md4 => 0x8002,
            Algorithm::Md5 => 0x8003,
            Algorithm::NoSign => 0x2000,
            Algorithm::Rc2 => 0x6602,
            Algorithm::Rc4 => 0x6801,
            Algorithm::Rc5 => 0x660D,
            Algorithm::RsaKeyx => 0xA400,
            Algorithm::RsaSign => 0x2400,
            Algorithm::Sha1 => 0x8004,
            Algorithm::Sha256 => 0x800C,
            Algorithm::Sha384 => 0x800D,
            Algorithm::Sha512 => 0x800E,
            Algorithm::TripleDes => 0x6603,
            Algorithm::TripleDes112 => 0x6609,
        }
    }

    /// Computes [`Algorithm::id_spec`].
    #[verifier::when_used_as_spec(id_spec)]
    pub fn id(self) -> (id: u32)
        ensures
            id == self.id_spec(),
    {
        match self {
            Algorithm::Aes => 0x6611,
            Algorithm::Aes128 => 0x660E,
            Algorithm::Aes192 => 0x660F,
            Algorithm::Aes256 => 0x6610,
            Algorithm::AgreedkeyAny => 0xAA03,
            Algorithm::CylinkMek => 0x660C,
            Algorithm::Des => 0x6601,
            Algorithm::Desx => 0x6604,
            Algorithm::DhEphem => 0xAA02,
            Algorithm::DhSf => 0xAA01,
            Algorithm::DssSign => 0x2200,
            Algorithm::Ecdh => 0xAA05,
            Algorithm::Ecdsa => 0x2203,
            Algorithm::HashReplaceOwf => 0x800B,
            Algorithm::HughesMd5 => 0xA003,
            Algorithm::Hmac => 0x8009,
            Algorithm::Mac => 0x8005,
            Algorithm::Md2 => 0x8001,
            Algorithm::Md4 => 0x8002,
            Algorithm::Md5 => 0x8003,
            Algorithm::NoSign => 0x2000,
            Algorithm::Rc2 => 0x6602,
            Algorithm::Rc4 => 0x6801,
            Algorithm::Rc5 => 0x660D,
            Algorithm::RsaKeyx => 0xA400,
            Algorithm::RsaSign => 0x2400,
            Algorithm::Sha1 => 0x8004,
            Algorithm::Sha256 => 0x800C,
            Algorithm::Sha384 => 0x800D,
            Algorithm::Sha512 => 0x800E,
            Algorithm::TripleDes => 0x6603,
            Algorithm::TripleDes112 => 0x6609,
        }
    }
}

/// The identifiers of a list of algorithms, in the order of the list.
pub open spec fn algorithm_ids(algorithms: Seq<Algorithm>) -> Seq<u32> {
    algorithms.map_values(|a: Algorithm| a.id_spec())
}

/// What the provider is asked for when a credential is acquired.
#[derive(Debug)]
pub struct CredentialRequest {
    /// The version of the credential description.
    pub version: u32,
    /// The policy flags.
    pub flags: u32,
    /// The credential use: inbound or outbound.
    pub usage: u32,
    /// The identifiers of the pinned algorithms. Where the list is empty the
    /// provider applies its defaults.
    pub algorithms: Vec<u32>,
}

/// A provider handle as two plain machine words.
#[derive(Clone, Copy, Debug, PartialEq, Eq, Structural)]
pub struct Handle {
    /// The lower word of the handle.
    pub lower: usize,
    /// The upper word of the handle.
    pub upper: usize,
}

/// An acquired credential: the handle by which the provider knows it, and
/// the direction it was acquired for. It can be moved but not copied.
#[derive(Debug)]
pub struct SchannelCred {
    handle: Handle,
    direction: Direction,
}

impl SchannelCred {
    /// The handle by which the provider knows the credential.
    pub closed spec fn handle_spec(&self) -> Handle {
        self.handle
    }

    /// The direction that the credential was acquired for.
    pub closed spec fn direction_spec(&self) -> Direction {
        self.direction
    }

    /// Computes [`SchannelCred::handle_spec`].
    #[verifier::when_used_as_spec(handle_spec)]
    pub fn handle(&self) -> (handle: Handle)
        ensures
            handle == self.handle_spec(),
    {
        self.handle
    }

    /// Computes [`SchannelCred::direction_spec`].
    #[verifier::when_used_as_spec(direction_spec)]
    pub fn direction(&self) -> (direction: Direction)
        ensures
            direction == self.direction_spec(),
    {
        self.direction
    }
}

/// Collects what a credential is to be acquired with.
#[derive(Debug)]
pub struct SchannelCredBuilder {
    supported_algorithms: Option<Vec<Algorithm>>,
}

impl View for SchannelCredBuilder {
    type V = Option<Seq<Algorithm>>;

    closed spec fn view(&self) -> Option<Seq<Algorithm>> {
        match self.supported_algorithms {
            Some(algorithms) => Some(algorithms@),
            None => None,
        }
    }
}

impl SchannelCredBuilder {
    /// A builder that pins no algorithm.
    pub fn new() -> (builder: SchannelCredBuilder)
        ensures
            builder@ == None::<Seq<Algorithm>>,
    {
        SchannelCredBuilder { supported_algorithms: None }
    }

    /// Pins the algorithms of sessions made with the credential. Where the
    /// list is empty, as where this is never called, the provider applies
    /// its defaults.
    pub fn with_supported_algorithms(self, supported_algorithms: Vec<Algorithm>) -> (builder:
        SchannelCredBuilder)
        ensures
            builder@ == Some(supported_algorithms@),
    {
        SchannelCredBuilder { supported_algorithms: Some(supported_algorithms) }
    }

    /// The identifiers that a request of this builder pins: those of its
    /// list, in order, and none where it has no list.
    pub open spec fn pinned(self) -> Seq<u32> {
        match self@ {
            Some(algorithms) => algorithm_ids(algorithms),
            None => Seq::empty(),
        }
    }

    /// What to ask of the provider to acquire a credential for `direction`:
    /// the pinned algorithms are passed on as they are, and strong
    /// cryptography is always demanded.
    pub fn request(&self, direction: Direction) -> (request: CredentialRequest)
        ensures
            request.version == SCHANNEL_CRED_VERSION,
            request.flags == SCH_USE_STRONG_CRYPTO,
            request.usage == direction.usage_spec(),
            request.algorithms@ == self.pinned(),
    {
        let mut algorithms: Vec<u32> = Vec::new();
        if let Some(list) = &self.supported_algorithms {
            let mut i: usize = 0;
            while i < list.len()
                invariant
                    i <= list@.len(),
                    algorithms@ == algorithm_ids(list@.take(i as int)),
                decreases list@.len() - i,
            {
                algorithms.push(list[i].id());
                assert(algorithms@ =~= algorithm_ids(list@.take(i + 1)));
                i = i + 1;
            }
            assert(list@.take(i as int) =~= list@);
        }
        CredentialRequest {
            version: SCHANNEL_CRED_VERSION,
            flags: SCH_USE_STRONG_CRYPTO,
            usage: direction.usage(),
            algorithms,
        }
    }

    /// Takes in the provider's answer to the request for a credential for
    /// `direction`: its status and the handle that it filled in. The
    /// credential exists exactly if the provider reported success.
    pub fn acquire(&self, direction: Direction, status: i32, handle: Handle) -> (r: Result<
        SchannelCred,
        Error,
    >)
        ensures
            status == SEC_E_OK ==> r is Ok && r->Ok_0.handle_spec() == handle
                && r->Ok_0.direction_spec() == direction,
            status != SEC_E_OK ==> r is Err && r->Err_0 == Error(status),
    {
        if status == SEC_E_OK {
            Ok(SchannelCred { handle, direction })
        } else {
            Err(Error(status))
        }
    }
}

} // verus!
