//! How sessions, peers and files are set up.

use crate::types::ids::ObjectId;
use vstd::prelude::*;

verus! {

/// How many layers of encryption a message gets.
#[derive(Debug, Clone, Copy, PartialEq, Eq, Structural)]
pub enum SecurityLevel {
    Standard,
    Reinforced,
    High,
    Ultra,
    Extreme,
    Custom(u8),
}

/// Whether a connection has a datagram channel.
#[derive(Debug, Clone, Copy, PartialEq, Eq, Structural)]
pub enum UdpMode {
    Disabled,
    Enabled,
}

/// How to log in; `force_login` ends sessions of the account that are open elsewhere.
#[derive(Debug, Clone, Copy, PartialEq, Eq, Structural)]
pub enum ConnectMode {
    Standard { force_login: bool },
    Fetch { force_login: bool },
}

/// How often keys are renewed.
#[derive(Debug, Clone, Copy, PartialEq, Eq, Structural)]
pub enum SecrecyMode {
    BestEffort,
    Perfect,
}

#[allow(non_camel_case_types)]
#[derive(Debug, Clone, Copy, PartialEq, Eq, Structural)]
pub enum EncryptionAlgorithm {
    AES_GCM_256,
    ChaCha20Poly_1305,
    MlKemHybrid,
    Ascon80pq,
}

#[derive(Debug, Clone, Copy, PartialEq, Eq, Structural)]
pub enum KemAlgorithm {
    MlKem,
}

#[derive(Debug, Clone, Copy, PartialEq, Eq, Structural)]
pub enum SigAlgorithm {
    Unsigned,
    MlDsa65,
    FnDsa512,
}

#[derive(Debug, Clone, Copy, PartialEq, Eq, Structural)]
pub struct CryptoParameters {
    pub encryption_algorithm: EncryptionAlgorithm,
    pub kem_algorithm: KemAlgorithm,
    pub sig_algorithm: SigAlgorithm,
}

#[derive(Debug, Clone, Copy, PartialEq, Eq, Structural)]
pub enum HeaderObfuscatorSettings {
    Disabled,
    Enabled,
    EnabledWithKey(u128),
}

#[derive(Debug, Clone, Copy, PartialEq, Eq, Structural)]
pub struct SessionSecuritySettings {
    pub security_level: SecurityLevel,
    pub secrecy_mode: SecrecyMode,
    pub crypto_params: CryptoParameters,
    pub header_obfuscator_settings: HeaderObfuscatorSettings,
}

impl SessionSecuritySettings {
    /// The settings that a session has unless its user says otherwise.
    pub open spec fn standard() -> Self {
        SessionSecuritySettings {
            security_level: SecurityLevel::Standard,
            secrecy_mode: SecrecyMode::BestEffort,
            crypto_params: CryptoParameters {
                encryption_algorithm: EncryptionAlgorithm::AES_GCM_256,
                kem_algorithm: KemAlgorithm::MlKem,
                sig_algorithm: SigAlgorithm::Unsigned,
            },
            header_obfuscator_settings: HeaderObfuscatorSettings::Disabled,
        }
    }
}

impl Default for SessionSecuritySettings {
    fn default() -> (r: Self)
        ensures
            r == SessionSecuritySettings::standard(),
    {
        SessionSecuritySettings {
            security_level: SecurityLevel::Standard,
            secrecy_mode: SecrecyMode::BestEffort,
            crypto_params: CryptoParameters {
                encryption_algorithm: EncryptionAlgorithm::AES_GCM_256,
                kem_algorithm: KemAlgorithm::MlKem,
                sig_algorithm: SigAlgorithm::Unsigned,
            },
            header_obfuscator_settings: HeaderObfuscatorSettings::Disabled,
        }
    }
}

impl Default for ConnectMode {
    fn default() -> (r: Self)
        ensures
            r == (ConnectMode::Standard { force_login: false }),
    {
        ConnectMode::Standard { force_login: false }
    }
}

impl Default for UdpMode {
    fn default() -> (r: Self)
        ensures
            r == UdpMode::Disabled,
    {
        UdpMode::Disabled
    }
}

/// Bytes that must not be shown, such as a password. The type has no textual form.
#[derive(Clone, PartialEq, Eq)]
pub struct SecBuffer {
    bytes: Vec<u8>,
}

impl View for SecBuffer {
    type V = Seq<u8>;

    closed spec fn view(&self) -> Seq<u8> {
        self.bytes@
    }
}

impl SecBuffer {
    /// The bytes, to be kept from view.
    pub fn new(bytes: Vec<u8>) -> (r: Self)
        ensures
            r@ == bytes@,
    {
        SecBuffer { bytes }
    }

    /// The bytes themselves.
    pub fn into_buffer(self) -> (r: Vec<u8>)
        ensures
            r@ == self@,
    {
        self.bytes
    }
}

/// Passwords that both ends of a session must share, each already hashed. The type has no
/// textual form.
#[derive(Clone, PartialEq, Eq)]
pub struct PreSharedKey {
    pub passwords: Vec<SecBuffer>,
}

/// What a file transfer is for.
#[derive(Debug, Clone, PartialEq, Eq)]
pub enum TransferType {
    FileTransfer,
    RemoteEncryptedVirtualFilesystem { virtual_path: String, security_level: SecurityLevel },
}

#[derive(Debug, Clone, PartialEq, Eq)]
pub struct VirtualObjectMetadata {
    pub name: String,
    pub date_created: String,
    pub author: String,
    pub plaintext_length: usize,
    pub group_count: usize,
    pub object_id: ObjectId,
    pub cid: u64,
    pub transfer_type: TransferType,
}

#[derive(Debug, Clone, PartialEq, Eq)]
pub enum MemberState {
    EnteredGroup { cids: Vec<u64> },
    LeftGroup { cids: Vec<u64> },
}

#[derive(Debug, Clone, PartialEq, Eq)]
pub enum UserIdentifier {
    ID(u64),
    Username(String),
}

/// How far a file has come. A rate in megabits per second is carried as the bits of a
/// single-precision number.
#[derive(Debug, Clone, PartialEq, Eq)]
pub enum ObjectTransferStatus {
    TransferBeginning,
    ReceptionBeginning(String, VirtualObjectMetadata),
    TransferTick(usize, usize, u32),
    ReceptionTick(usize, usize, u32),
    TransferComplete,
    ReceptionComplete,
    Fail(String),
}

/// The standard settings, one by one.
pub proof fn law_the_standard_settings()
    ensures
        SessionSecuritySettings::standard().security_level is Standard,
        SessionSecuritySettings::standard().secrecy_mode is BestEffort,
        SessionSecuritySettings::standard().crypto_params.encryption_algorithm is AES_GCM_256,
        SessionSecuritySettings::standard().crypto_params.kem_algorithm is MlKem,
        SessionSecuritySettings::standard().crypto_params.sig_algorithm is Unsigned,
        SessionSecuritySettings::standard().header_obfuscator_settings is Disabled,
{
}

} // verus!
