//! Extended Key Usage: purposes for which a certified key may be used.
use vstd::prelude::*;
use crate::oid::same_oid;

verus! {

/// Object identifier of the Extended Key Usage extension.
pub open spec fn extended_key_usage_oid() -> Seq<u32> {
    seq![2, 5, 29, 37]
}

/// Object identifier of the Extended Key Usage extension.
pub fn extended_key_usage_oid_vec() -> (r: Vec<u32>)
    ensures
        r@ == extended_key_usage_oid(),
{
    let r = vec![2u32, 5, 29, 37];
    assert(r@ =~= extended_key_usage_oid());
    r
}

/// Common Extended Key Usages, and any other by its object identifier.
#[derive(Debug, Clone, PartialEq, Eq, PartialOrd, Ord)]
pub enum ExtendedKeyUsage {
    /// AnyExtendedKeyUsage
    AnyExtendedKeyUsage,
    /// PkinitClientAuth
    PkinitClientAuth,
    /// PkinitKeyDistributionCenter
    PkinitKeyDistributionCenter,
    /// PkixServerAuth
    PkixServerAuth,
    /// PkixClientAuth
    PkixClientAuth,
    /// PkixCodeSigning
    PkixCodeSigning,
    /// PkixEmailProtection
    PkixEmailProtection,
    /// PkixTimeStamping
    PkixTimeStamping,
    /// PkixOcspSigning
    PkixOcspSigning,
    /// PkixEapOverPpp
    PkixEapOverPpp,
    /// PkixEapOverLan
    PkixEapOverLan,
    /// PkixScvpServer
    PkixScvpServer,
    /// PkixScvpClient
    PkixScvpClient,
    /// PkixIpsecIke
    PkixIpsecIke,
    /// PkixSipDomain
    PkixSipDomain,
    /// PkixSecureShellClient
    PkixSecureShellClient,
    /// PkixSecureShellServer
    PkixSecureShellServer,
    /// PkixDocumentSigning
    PkixDocumentSigning,
    /// EtsiTlsSigning
    EtsiTlsSigning,
    /// IcaoCscaMasterListSigningKey
    IcaoCscaMasterListSigningKey,
    /// IcaoDeviationListSigningKey
    IcaoDeviationListSigningKey,
    /// NistPivCardAuth
    NistPivCardAuth,
    /// MsIndividualCodeSigning
    MsIndividualCodeSigning,
    /// MsCommercialCodeSigning
    MsCommercialCodeSigning,
    /// MsEncryptedFileSystem
    MsEncryptedFileSystem,
    /// MsEncryptedFileSystemRecovery
    MsEncryptedFileSystemRecovery,
    /// MsDocumentSigning
    MsDocumentSigning,
    /// MsSmartCardLogon
    MsSmartCardLogon,
    /// MsKeyExchangeCertificate
    MsKeyExchangeCertificate,
    /// IntelAmt
    IntelAmt,
    /// AdobeAuthenticDocumentsTrust
    AdobeAuthenticDocumentsTrust,
    /// Any other purpose, by object identifier.
    Custom { oid: Vec<u32> },
}

/// Number of recognised purposes.
pub const KNOWN_EKU_COUNT: usize = 31;

/// The object identifier of a recognised purpose at a registry position.
pub open spec fn known_eku_oid(i: int) -> Seq<u32> {
    if i == 0 {
        seq![2, 5, 29, 37, 0]
    } else if i == 1 {
        seq![1, 3, 6, 1, 5, 2, 3, 4]
    } else if i == 2 {
        seq![1, 3, 6, 1, 5, 2, 3, 5]
    } else if i == 3 {
        seq![1, 3, 6, 1, 5, 5, 7, 3, 1]
    } else if i == 4 {
        seq![1, 3, 6, 1, 5, 5, 7, 3, 2]
    } else if i == 5 {
        seq![1, 3, 6, 1, 5, 5, 7, 3, 3]
    } else if i == 6 {
        seq![1, 3, 6, 1, 5, 5, 7, 3, 4]
    } else if i == 7 {
        seq![1, 3, 6, 1, 5, 5, 7, 3, 8]
    } else if i == 8 {
        seq![1, 3, 6, 1, 5, 5, 7, 3, 9]
    } else if i == 9 {
        seq![1, 3, 6, 1, 5, 5, 7, 3, 13]
    } else if i == 10 {
        seq![1, 3, 6, 1, 5, 5, 7, 3, 14]
    } else if i == 11 {
        seq![1, 3, 6, 1, 5, 5, 7, 3, 15]
    } else if i == 12 {
        seq![1, 3, 6, 1, 5, 5, 7, 3, 16]
    } else if i == 13 {
        seq![1, 3, 6, 1, 5, 5, 7, 3, 17]
    } else if i == 14 {
        seq![1, 3, 6, 1, 5, 5, 7, 3, 20]
    } else if i == 15 {
        seq![1, 3, 6, 1, 5, 5, 7, 3, 21]
    } else if i == 16 {
        seq![1, 3, 6, 1, 5, 5, 7, 3, 22]
    } else if i == 17 {
        seq![1, 3, 6, 1, 5, 5, 7, 3, 36]
    } else if i == 18 {
        seq![0, 4, 0, 2231, 3, 0]
    } else if i == 19 {
        seq![2, 23, 136, 1, 1, 3]
    } else if i == 20 {
        seq![2, 23, 136, 1, 1, 8]
    } else if i == 21 {
        seq![2, 16, 840, 1, 101, 3, 6, 8]
    } else if i == 22 {
        seq![1, 3, 6, 1, 4, 1, 311, 2, 1, 21]
    } else if i == 23 {
        seq![1, 3, 6, 1, 4, 1, 311, 2, 1, 22]
    } else if i == 24 {
        seq![1, 3, 6, 1, 4, 1, 311, 10, 3, 4]
    } else if i == 25 {
        seq![1, 3, 6, 1, 4, 1, 311, 10, 3, 4, 1]
    } else if i == 26 {
        seq![1, 3, 6, 1, 4, 1, 311, 10, 3, 12]
    } else if i == 27 {
        seq![1, 3, 6, 1, 4, 1, 311, 20, 2, 2]
    } else if i == 28 {
        seq![1, 3, 6, 1, 4, 1, 311, 21, 5]
    } else if i == 29 {
        seq![2, 16, 840, 1, 113741, 1, 2, 3]
    } else {
        seq![1, 2, 840, 113583, 1, 1, 5]
    }
}

/// The recognised purpose at a registry position.
pub open spec fn known_eku(i: int) -> ExtendedKeyUsage {
    if i == 0 {
        ExtendedKeyUsage::AnyExtendedKeyUsage
    } else if i == 1 {
        ExtendedKeyUsage::PkinitClientAuth
    } else if i == 2 {
        ExtendedKeyUsage::PkinitKeyDistributionCenter
    } else if i == 3 {
        ExtendedKeyUsage::PkixServerAuth
    } else if i == 4 {
        ExtendedKeyUsage::PkixClientAuth
    } else if i == 5 {
        ExtendedKeyUsage::PkixCodeSigning
    } else if i == 6 {
        ExtendedKeyUsage::PkixEmailProtection
    } else if i == 7 {
        ExtendedKeyUsage::PkixTimeStamping
    } else if i == 8 {
        ExtendedKeyUsage::PkixOcspSigning
    } else if i == 9 {
        ExtendedKeyUsage::PkixEapOverPpp
    } else if i == 10 {
        ExtendedKeyUsage::PkixEapOverLan
    } else if i == 11 {
        ExtendedKeyUsage::PkixScvpServer
    } else if i == 12 {
        ExtendedKeyUsage::PkixScvpClient
    } else if i == 13 {
        ExtendedKeyUsage::PkixIpsecIke
    } else if i == 14 {
        ExtendedKeyUsage::PkixSipDomain
    } else if i == 15 {
        ExtendedKeyUsage::PkixSecureShellClient
    } else if i == 16 {
        ExtendedKeyUsage::PkixSecureShellServer
    } else if i == 17 {
        ExtendedKeyUsage::PkixDocumentSigning
    } else if i == 18 {
        ExtendedKeyUsage::EtsiTlsSigning
    } else if i == 19 {
        ExtendedKeyUsage::IcaoCscaMasterListSigningKey
    } else if i == 20 {
        ExtendedKeyUsage::IcaoDeviationListSigningKey
    } else if i == 21 {
        ExtendedKeyUsage::NistPivCardAuth
    } else if i == 22 {
        ExtendedKeyUsage::MsIndividualCodeSigning
    } else if i == 23 {
        ExtendedKeyUsage::MsCommercialCodeSigning
    } else if i == 24 {
        ExtendedKeyUsage::MsEncryptedFileSystem
    } else if i == 25 {
        ExtendedKeyUsage::MsEncryptedFileSystemRecovery
    } else if i == 26 {
        ExtendedKeyUsage::MsDocumentSigning
    } else if i == 27 {
        ExtendedKeyUsage::MsSmartCardLogon
    } else if i == 28 {
        ExtendedKeyUsage::MsKeyExchangeCertificate
    } else if i == 29 {
        ExtendedKeyUsage::IntelAmt
    } else {
        ExtendedKeyUsage::AdobeAuthenticDocumentsTrust
    }
}

/// The object identifier of a purpose.
pub open spec fn eku_oid(e: ExtendedKeyUsage) -> Seq<u32> {
    match e {
        ExtendedKeyUsage::AnyExtendedKeyUsage => known_eku_oid(0),
        ExtendedKeyUsage::PkinitClientAuth => known_eku_oid(1),
        ExtendedKeyUsage::PkinitKeyDistributionCenter => known_eku_oid(2),
        ExtendedKeyUsage::PkixServerAuth => known_eku_oid(3),
        ExtendedKeyUsage::PkixClientAuth => known_eku_oid(4),
        ExtendedKeyUsage::PkixCodeSigning => known_eku_oid(5),
        ExtendedKeyUsage::PkixEmailProtection => known_eku_oid(6),
        ExtendedKeyUsage::PkixTimeStamping => known_eku_oid(7),
        ExtendedKeyUsage::PkixOcspSigning => known_eku_oid(8),
        ExtendedKeyUsage::PkixEapOverPpp => known_eku_oid(9),
        ExtendedKeyUsage::PkixEapOverLan => known_eku_oid(10),
        ExtendedKeyUsage::PkixScvpServer => known_eku_oid(11),
        ExtendedKeyUsage::PkixScvpClient => known_eku_oid(12),
        ExtendedKeyUsage::PkixIpsecIke => known_eku_oid(13),
        ExtendedKeyUsage::PkixSipDomain => known_eku_oid(14),
        ExtendedKeyUsage::PkixSecureShellClient => known_eku_oid(15),
        ExtendedKeyUsage::PkixSecureShellServer => known_eku_oid(16),
        ExtendedKeyUsage::PkixDocumentSigning => known_eku_oid(17),
        ExtendedKeyUsage::EtsiTlsSigning => known_eku_oid(18),
        ExtendedKeyUsage::IcaoCscaMasterListSigningKey => known_eku_oid(19),
        ExtendedKeyUsage::IcaoDeviationListSigningKey => known_eku_oid(20),
        ExtendedKeyUsage::NistPivCardAuth => known_eku_oid(21),
        ExtendedKeyUsage::MsIndividualCodeSigning => known_eku_oid(22),
        ExtendedKeyUsage::MsCommercialCodeSigning => known_eku_oid(23),
        ExtendedKeyUsage::MsEncryptedFileSystem => known_eku_oid(24),
        ExtendedKeyUsage::MsEncryptedFileSystemRecovery => known_eku_oid(25),
        ExtendedKeyUsage::MsDocumentSigning => known_eku_oid(26),
        ExtendedKeyUsage::MsSmartCardLogon => known_eku_oid(27),
        ExtendedKeyUsage::MsKeyExchangeCertificate => known_eku_oid(28),
        ExtendedKeyUsage::IntelAmt => known_eku_oid(29),
        ExtendedKeyUsage::AdobeAuthenticDocumentsTrust => known_eku_oid(30),
        ExtendedKeyUsage::Custom { oid } => oid@,
    }
}

/// `true` when a recognised purpose has object identifier `oid`.
pub open spec fn is_known_eku_oid(oid: Seq<u32>) -> bool {
    exists|i: int| 0 <= i < KNOWN_EKU_COUNT && known_eku_oid(i) == oid
}

/// The recognised purpose that an object identifier denotes, if any: the
/// first one in the registry with that identifier.
pub open spec fn eku_of_oid(oid: Seq<u32>) -> Option<ExtendedKeyUsage> {
    eku_of_oid_from(oid, 0)
}

/// The first recognised purpose at or after position `i` with identifier
/// `oid`.
pub open spec fn eku_of_oid_from(oid: Seq<u32>, i: int) -> Option<ExtendedKeyUsage>
    decreases KNOWN_EKU_COUNT - i,
{
    if i < 0 || i >= KNOWN_EKU_COUNT {
        None
    } else if known_eku_oid(i) == oid {
        Some(known_eku(i))
    } else {
        eku_of_oid_from(oid, i + 1)
    }
}

impl ExtendedKeyUsage {
    fn known_at(i: usize) -> (r: ExtendedKeyUsage)
        requires
            i < KNOWN_EKU_COUNT,
        ensures
            r == known_eku(i as int),
    {
        if i == 0 {
            ExtendedKeyUsage::AnyExtendedKeyUsage
        } else if i == 1 {
            ExtendedKeyUsage::PkinitClientAuth
        } else if i == 2 {
            ExtendedKeyUsage::PkinitKeyDistributionCenter
        } else if i == 3 {
            ExtendedKeyUsage::PkixServerAuth
        } else if i == 4 {
            ExtendedKeyUsage::PkixClientAuth
        } else if i == 5 {
            ExtendedKeyUsage::PkixCodeSigning
        } else if i == 6 {
            ExtendedKeyUsage::PkixEmailProtection
        } else if i == 7 {
            ExtendedKeyUsage::PkixTimeStamping
        } else if i == 8 {
            ExtendedKeyUsage::PkixOcspSigning
        } else if i == 9 {
            ExtendedKeyUsage::PkixEapOverPpp
        } else if i == 10 {
            ExtendedKeyUsage::PkixEapOverLan
        } else if i == 11 {
            ExtendedKeyUsage::PkixScvpServer
        } else if i == 12 {
            ExtendedKeyUsage::PkixScvpClient
        } else if i == 13 {
            ExtendedKeyUsage::PkixIpsecIke
        } else if i == 14 {
            ExtendedKeyUsage::PkixSipDomain
        } else if i == 15 {
            ExtendedKeyUsage::PkixSecureShellClient
        } else if i == 16 {
            ExtendedKeyUsage::PkixSecureShellServer
        } else if i == 17 {
            ExtendedKeyUsage::PkixDocumentSigning
        } else if i == 18 {
            ExtendedKeyUsage::EtsiTlsSigning
        } else if i == 19 {
            ExtendedKeyUsage::IcaoCscaMasterListSigningKey
        } else if i == 20 {
            ExtendedKeyUsage::IcaoDeviationListSigningKey
        } else if i == 21 {
            ExtendedKeyUsage::NistPivCardAuth
        } else if i == 22 {
            ExtendedKeyUsage::MsIndividualCodeSigning
        } else if i == 23 {
            ExtendedKeyUsage::MsCommercialCodeSigning
        } else if i == 24 {
            ExtendedKeyUsage::MsEncryptedFileSystem
        } else if i == 25 {
            ExtendedKeyUsage::MsEncryptedFileSystemRecovery
        } else if i == 26 {
            ExtendedKeyUsage::MsDocumentSigning
        } else if i == 27 {
            ExtendedKeyUsage::MsSmartCardLogon
        } else if i == 28 {
            ExtendedKeyUsage::MsKeyExchangeCertificate
        } else if i == 29 {
            ExtendedKeyUsage::IntelAmt
        } else {
            ExtendedKeyUsage::AdobeAuthenticDocumentsTrust
        }
    }

    fn known_oid_at(i: usize) -> (r: Vec<u32>)
        requires
            i < KNOWN_EKU_COUNT,
        ensures
            r@ == known_eku_oid(i as int),
    {
        if i == 0 {
            let r = vec![2u32, 5, 29, 37, 0];
            assert(r@ =~= seq![2, 5, 29, 37, 0]);
            r
        } else if i == 1 {
            let r = vec![1u32, 3, 6, 1, 5, 2, 3, 4];
            assert(r@ =~= seq![1, 3, 6, 1, 5, 2, 3, 4]);
            r
        } else if i == 2 {
            let r = vec![1u32, 3, 6, 1, 5, 2, 3, 5];
            assert(r@ =~= seq![1, 3, 6, 1, 5, 2, 3, 5]);
            r
        } else if i == 3 {
            let r = vec![1u32, 3, 6, 1, 5, 5, 7, 3, 1];
            assert(r@ =~= seq![1, 3, 6, 1, 5, 5, 7, 3, 1]);
            r
        } else if i == 4 {
            let r = vec![1u32, 3, 6, 1, 5, 5, 7, 3, 2];
            assert(r@ =~= seq![1, 3, 6, 1, 5, 5, 7, 3, 2]);
            r
        } else if i == 5 {
            let r = vec![1u32, 3, 6, 1, 5, 5, 7, 3, 3];
            assert(r@ =~= seq![1, 3, 6, 1, 5, 5, 7, 3, 3]);
            r
        } else if i == 6 {
            let r = vec![1u32, 3, 6, 1, 5, 5, 7, 3, 4];
            assert(r@ =~= seq![1, 3, 6, 1, 5, 5, 7, 3, 4]);
            r
        } else if i == 7 {
            let r = vec![1u32, 3, 6, 1, 5, 5, 7, 3, 8];
            assert(r@ =~= seq![1, 3, 6, 1, 5, 5, 7, 3, 8]);
            r
        } else if i == 8 {
            let r = vec![1u32, 3, 6, 1, 5, 5, 7, 3, 9];
            assert(r@ =~= seq![1, 3, 6, 1, 5, 5, 7, 3, 9]);
            r
        } else if i == 9 {
            let r = vec![1u32, 3, 6, 1, 5, 5, 7, 3, 13];
            assert(r@ =~= seq![1, 3, 6, 1, 5, 5, 7, 3, 13]);
            r
        } else if i == 10 {
            let r = vec![1u32, 3, 6, 1, 5, 5, 7, 3, 14];
            assert(r@ =~= seq![1, 3, 6, 1, 5, 5, 7, 3, 14]);
            r
        } else if i == 11 {
            let r = vec![1u32, 3, 6, 1, 5, 5, 7, 3, 15];
            assert(r@ =~= seq![1, 3, 6, 1, 5, 5, 7, 3, 15]);
            r
        } else if i == 12 {
            let r = vec![1u32, 3, 6, 1, 5, 5, 7, 3, 16];
            assert(r@ =~= seq![1, 3, 6, 1, 5, 5, 7, 3, 16]);
            r
        } else if i == 13 {
            let r = vec![1u32, 3, 6, 1, 5, 5, 7, 3, 17];
            assert(r@ =~= seq![1, 3, 6, 1, 5, 5, 7, 3, 17]);
            r
        } else if i == 14 {
            let r = vec![1u32, 3, 6, 1, 5, 5, 7, 3, 20];
            assert(r@ =~= seq![1, 3, 6, 1, 5, 5, 7, 3, 20]);
            r
        } else if i == 15 {
            let r = vec![1u32, 3, 6, 1, 5, 5, 7, 3, 21];
            assert(r@ =~= seq![1, 3, 6, 1, 5, 5, 7, 3, 21]);
            r
        } else if i == 16 {
            let r = vec![1u32, 3, 6, 1, 5, 5, 7, 3, 22];
            assert(r@ =~= seq![1, 3, 6, 1, 5, 5, 7, 3, 22]);
            r
        } else if i == 17 {
            let r = vec![1u32, 3, 6, 1, 5, 5, 7, 3, 36];
            assert(r@ =~= seq![1, 3, 6, 1, 5, 5, 7, 3, 36]);
            r
        } else if i == 18 {
            let r = vec![0u32, 4, 0, 2231, 3, 0];
            assert(r@ =~= seq![0, 4, 0, 2231, 3, 0]);
            r
        } else if i == 19 {
            let r = vec![2u32, 23, 136, 1, 1, 3];
            assert(r@ =~= seq![2, 23, 136, 1, 1, 3]);
            r
        } else if i == 20 {
            let r = vec![2u32, 23, 136, 1, 1, 8];
            assert(r@ =~= seq![2, 23, 136, 1, 1, 8]);
            r
        } else if i == 21 {
            let r = vec![2u32, 16, 840, 1, 101, 3, 6, 8];
            assert(r@ =~= seq![2, 16, 840, 1, 101, 3, 6, 8]);
            r
        } else if i == 22 {
            let r = vec![1u32, 3, 6, 1, 4, 1, 311, 2, 1, 21];
            assert(r@ =~= seq![1, 3, 6, 1, 4, 1, 311, 2, 1, 21]);
            r
        } else if i == 23 {
            let r = vec![1u32, 3, 6, 1, 4, 1, 311, 2, 1, 22];
            assert(r@ =~= seq![1, 3, 6, 1, 4, 1, 311, 2, 1, 22]);
            r
        } else if i == 24 {
            let r = vec![1u32, 3, 6, 1, 4, 1, 311, 10, 3, 4];
            assert(r@ =~= seq![1, 3, 6, 1, 4, 1, 311, 10, 3, 4]);
            r
        } else if i == 25 {
            let r = vec![1u32, 3, 6, 1, 4, 1, 311, 10, 3, 4, 1];
            assert(r@ =~= seq![1, 3, 6, 1, 4, 1, 311, 10, 3, 4, 1]);
            r
        } else if i == 26 {
            let r = vec![1u32, 3, 6, 1, 4, 1, 311, 10, 3, 12];
            assert(r@ =~= seq![1, 3, 6, 1, 4, 1, 311, 10, 3, 12]);
            r
        } else if i == 27 {
            let r = vec![1u32, 3, 6, 1, 4, 1, 311, 20, 2, 2];
            assert(r@ =~= seq![1, 3, 6, 1, 4, 1, 311, 20, 2, 2]);
            r
        } else if i == 28 {
            let r = vec![1u32, 3, 6, 1, 4, 1, 311, 21, 5];
            assert(r@ =~= seq![1, 3, 6, 1, 4, 1, 311, 21, 5]);
            r
        } else if i == 29 {
            let r = vec![2u32, 16, 840, 1, 113741, 1, 2, 3];
            assert(r@ =~= seq![2, 16, 840, 1, 113741, 1, 2, 3]);
            r
        } else {
            let r = vec![1u32, 2, 840, 113583, 1, 1, 5];
            assert(r@ =~= seq![1, 2, 840, 113583, 1, 1, 5]);
            r
        }
    }

    /// Return the object identifier of this purpose.
    pub fn value(&self) -> (r: Vec<u32>)
        ensures
            r@ == eku_oid(*self),
    {
        match self {
            ExtendedKeyUsage::AnyExtendedKeyUsage => Self::known_oid_at(0),
            ExtendedKeyUsage::PkinitClientAuth => Self::known_oid_at(1),
            ExtendedKeyUsage::PkinitKeyDistributionCenter => Self::known_oid_at(2),
            ExtendedKeyUsage::PkixServerAuth => Self::known_oid_at(3),
            ExtendedKeyUsage::PkixClientAuth => Self::known_oid_at(4),
            ExtendedKeyUsage::PkixCodeSigning => Self::known_oid_at(5),
            ExtendedKeyUsage::PkixEmailProtection => Self::known_oid_at(6),
            ExtendedKeyUsage::PkixTimeStamping => Self::known_oid_at(7),
            ExtendedKeyUsage::PkixOcspSigning => Self::known_oid_at(8),
            ExtendedKeyUsage::PkixEapOverPpp => Self::known_oid_at(9),
            ExtendedKeyUsage::PkixEapOverLan => Self::known_oid_at(10),
            ExtendedKeyUsage::PkixScvpServer => Self::known_oid_at(11),
            ExtendedKeyUsage::PkixScvpClient => Self::known_oid_at(12),
            ExtendedKeyUsage::PkixIpsecIke => Self::known_oid_at(13),
            ExtendedKeyUsage::PkixSipDomain => Self::known_oid_at(14),
            ExtendedKeyUsage::PkixSecureShellClient => Self::known_oid_at(15),
            ExtendedKeyUsage::PkixSecureShellServer => Self::known_oid_at(16),
            ExtendedKeyUsage::PkixDocumentSigning => Self::known_oid_at(17),
            ExtendedKeyUsage::EtsiTlsSigning => Self::known_oid_at(18),
            ExtendedKeyUsage::IcaoCscaMasterListSigningKey => Self::known_oid_at(19),
            ExtendedKeyUsage::IcaoDeviationListSigningKey => Self::known_oid_at(20),
            ExtendedKeyUsage::NistPivCardAuth => Self::known_oid_at(21),
            ExtendedKeyUsage::MsIndividualCodeSigning => Self::known_oid_at(22),
            ExtendedKeyUsage::MsCommercialCodeSigning => Self::known_oid_at(23),
            ExtendedKeyUsage::MsEncryptedFileSystem => Self::known_oid_at(24),
            ExtendedKeyUsage::MsEncryptedFileSystemRecovery => Self::known_oid_at(25),
            ExtendedKeyUsage::MsDocumentSigning => Self::known_oid_at(26),
            ExtendedKeyUsage::MsSmartCardLogon => Self::known_oid_at(27),
            ExtendedKeyUsage::MsKeyExchangeCertificate => Self::known_oid_at(28),
            ExtendedKeyUsage::IntelAmt => Self::known_oid_at(29),
            ExtendedKeyUsage::AdobeAuthenticDocumentsTrust => Self::known_oid_at(30),
            ExtendedKeyUsage::Custom { oid } => {
                let mut r: Vec<u32> = Vec::new();
                let mut i: usize = 0;
                while i < oid.len()
                    invariant
                        i <= oid@.len(),
                        r@ == oid@.subrange(0, i as int),
                    decreases oid@.len() - i,
                {
                    r.push(oid[i]);
                    i += 1;
                }
                assert(r@ =~= oid@);
                r
            },
        }
    }

    /// Return the purpose that `oid` denotes: the recognised one with that
    /// object identifier, else `Custom`.
    pub fn from_oid(oid: &[u32]) -> (r: Self)
        ensures
            is_known_eku_oid(oid@) ==> eku_of_oid(oid@) == Some(r),
            !is_known_eku_oid(oid@) ==> (r matches ExtendedKeyUsage::Custom { oid: o } && o@ == oid@),
            eku_oid(r) == oid@,
    {
        let mut i: usize = 0;
        while i < KNOWN_EKU_COUNT
            invariant
                i <= KNOWN_EKU_COUNT,
                forall|j: int| 0 <= j < i ==> known_eku_oid(j) != oid@,
                eku_of_oid_from(oid@, 0) == eku_of_oid_from(oid@, i as int),
            decreases KNOWN_EKU_COUNT - i,
        {
            let k = Self::known_oid_at(i);
            if same_oid(k.as_slice(), oid) {
                let r = Self::known_at(i);
                proof {
                    assert(eku_oid(known_eku(i as int)) == known_eku_oid(i as int)) by {
                        lemma_known_eku_oid(i as int);
                    }
                }
                return r;
            }
            i += 1;
        }
        let mut v: Vec<u32> = Vec::new();
        let mut j: usize = 0;
        while j < oid.len()
            invariant
                j <= oid@.len(),
                v@ == oid@.subrange(0, j as int),
            decreases oid@.len() - j,
        {
            v.push(oid[j]);
            j += 1;
        }
        assert(v@ =~= oid@);
        ExtendedKeyUsage::Custom { oid: v }
    }

    /// Return the object identifiers of the purposes, in order.
    pub fn to_rasn_type(ekus: &[ExtendedKeyUsage]) -> (r: Vec<Vec<u32>>)
        ensures
            r@.len() == ekus@.len(),
            forall|i: int| 0 <= i < ekus@.len() ==> (#[trigger] r@[i])@ == eku_oid(ekus@[i]),
    {
        let mut r: Vec<Vec<u32>> = Vec::new();
        let mut i: usize = 0;
        while i < ekus.len()
            invariant
                i <= ekus@.len(),
                r@.len() == i,
                forall|k: int| 0 <= k < i ==> (#[trigger] r@[k])@ == eku_oid(ekus@[k]),
            decreases ekus@.len() - i,
        {
            r.push(ekus[i].value());
            i += 1;
        }
        r
    }
}

/// A recognised purpose carries the identifier of its registry position.
pub proof fn lemma_known_eku_oid(i: int)
    requires
        0 <= i < KNOWN_EKU_COUNT,
    ensures
        eku_oid(known_eku(i)) == known_eku_oid(i),
{
}

} // verus!

verus! {

/// Recognised purposes have distinct object identifiers.
proof fn lemma_known_eku_oids_distinct()
    ensures
        forall|i: int, j: int| 0 <= j < i < KNOWN_EKU_COUNT ==> known_eku_oid(j) != known_eku_oid(i),
{
    assert forall|i: int, j: int| 0 <= j < i < KNOWN_EKU_COUNT implies known_eku_oid(j) != known_eku_oid(i) by {
        assert(known_eku_oid(0).len() != known_eku_oid(1).len());
        assert(known_eku_oid(0).len() != known_eku_oid(2).len());
        assert(known_eku_oid(1)[7] != known_eku_oid(2)[7]);
        assert(known_eku_oid(0).len() != known_eku_oid(3).len());
        assert(known_eku_oid(1).len() != known_eku_oid(3).len());
        assert(known_eku_oid(2).len() != known_eku_oid(3).len());
        assert(known_eku_oid(0).len() != known_eku_oid(4).len());
        assert(known_eku_oid(1).len() != known_eku_oid(4).len());
        assert(known_eku_oid(2).len() != known_eku_oid(4).len());
        assert(known_eku_oid(3)[8] != known_eku_oid(4)[8]);
        assert(known_eku_oid(0).len() != known_eku_oid(5).len());
        assert(known_eku_oid(1).len() != known_eku_oid(5).len());
        assert(known_eku_oid(2).len() != known_eku_oid(5).len());
        assert(known_eku_oid(3)[8] != known_eku_oid(5)[8]);
        assert(known_eku_oid(4)[8] != known_eku_oid(5)[8]);
        assert(known_eku_oid(0).len() != known_eku_oid(6).len());
        assert(known_eku_oid(1).len() != known_eku_oid(6).len());
        assert(known_eku_oid(2).len() != known_eku_oid(6).len());
        assert(known_eku_oid(3)[8] != known_eku_oid(6)[8]);
        assert(known_eku_oid(4)[8] != known_eku_oid(6)[8]);
        assert(known_eku_oid(5)[8] != known_eku_oid(6)[8]);
        assert(known_eku_oid(0).len() != known_eku_oid(7).len());
        assert(known_eku_oid(1).len() != known_eku_oid(7).len());
        assert(known_eku_oid(2).len() != known_eku_oid(7).len());
        assert(known_eku_oid(3)[8] != known_eku_oid(7)[8]);
        assert(known_eku_oid(4)[8] != known_eku_oid(7)[8]);
        assert(known_eku_oid(5)[8] != known_eku_oid(7)[8]);
        assert(known_eku_oid(6)[8] != known_eku_oid(7)[8]);
        assert(known_eku_oid(0).len() != known_eku_oid(8).len());
        assert(known_eku_oid(1).len() != known_eku_oid(8).len());
        assert(known_eku_oid(2).len() != known_eku_oid(8).len());
        assert(known_eku_oid(3)[8] != known_eku_oid(8)[8]);
        assert(known_eku_oid(4)[8] != known_eku_oid(8)[8]);
        assert(known_eku_oid(5)[8] != known_eku_oid(8)[8]);
        assert(known_eku_oid(6)[8] != known_eku_oid(8)[8]);
        assert(known_eku_oid(7)[8] != known_eku_oid(8)[8]);
        assert(known_eku_oid(0).len() != known_eku_oid(9).len());
        assert(known_eku_oid(1).len() != known_eku_oid(9).len());
        assert(known_eku_oid(2).len() != known_eku_oid(9).len());
        assert(known_eku_oid(3)[8] != known_eku_oid(9)[8]);
        assert(known_eku_oid(4)[8] != known_eku_oid(9)[8]);
        assert(known_eku_oid(5)[8] != known_eku_oid(9)[8]);
        assert(known_eku_oid(6)[8] != known_eku_oid(9)[8]);
        assert(known_eku_oid(7)[8] != known_eku_oid(9)[8]);
        assert(known_eku_oid(8)[8] != known_eku_oid(9)[8]);
        assert(known_eku_oid(0).len() != known_eku_oid(10).len());
        assert(known_eku_oid(1).len() != known_eku_oid(10).len());
        assert(known_eku_oid(2).len() != known_eku_oid(10).len());
        assert(known_eku_oid(3)[8] != known_eku_oid(10)[8]);
        assert(known_eku_oid(4)[8] != known_eku_oid(10)[8]);
        assert(known_eku_oid(5)[8] != known_eku_oid(10)[8]);
        assert(known_eku_oid(6)[8] != known_eku_oid(10)[8]);
        assert(known_eku_oid(7)[8] != known_eku_oid(10)[8]);
        assert(known_eku_oid(8)[8] != known_eku_oid(10)[8]);
        assert(known_eku_oid(9)[8] != known_eku_oid(10)[8]);
        assert(known_eku_oid(0).len() != known_eku_oid(11).len());
        assert(known_eku_oid(1).len() != known_eku_oid(11).len());
        assert(known_eku_oid(2).len() != known_eku_oid(11).len());
        assert(known_eku_oid(3)[8] != known_eku_oid(11)[8]);
        assert(known_eku_oid(4)[8] != known_eku_oid(11)[8]);
        assert(known_eku_oid(5)[8] != known_eku_oid(11)[8]);
        assert(known_eku_oid(6)[8] != known_eku_oid(11)[8]);
        assert(known_eku_oid(7)[8] != known_eku_oid(11)[8]);
        assert(known_eku_oid(8)[8] != known_eku_oid(11)[8]);
        assert(known_eku_oid(9)[8] != known_eku_oid(11)[8]);
        assert(known_eku_oid(10)[8] != known_eku_oid(11)[8]);
        assert(known_eku_oid(0).len() != known_eku_oid(12).len());
        assert(known_eku_oid(1).len() != known_eku_oid(12).len());
        assert(known_eku_oid(2).len() != known_eku_oid(12).len());
        assert(known_eku_oid(3)[8] != known_eku_oid(12)[8]);
        assert(known_eku_oid(4)[8] != known_eku_oid(12)[8]);
        assert(known_eku_oid(5)[8] != known_eku_oid(12)[8]);
        assert(known_eku_oid(6)[8] != known_eku_oid(12)[8]);
        assert(known_eku_oid(7)[8] != known_eku_oid(12)[8]);
        assert(known_eku_oid(8)[8] != known_eku_oid(12)[8]);
        assert(known_eku_oid(9)[8] != known_eku_oid(12)[8]);
        assert(known_eku_oid(10)[8] != known_eku_oid(12)[8]);
        assert(known_eku_oid(11)[8] != known_eku_oid(12)[8]);
        assert(known_eku_oid(0).len() != known_eku_oid(13).len());
        assert(known_eku_oid(1).len() != known_eku_oid(13).len());
        assert(known_eku_oid(2).len() != known_eku_oid(13).len());
        assert(known_eku_oid(3)[8] != known_eku_oid(13)[8]);
        assert(known_eku_oid(4)[8] != known_eku_oid(13)[8]);
        assert(known_eku_oid(5)[8] != known_eku_oid(13)[8]);
        assert(known_eku_oid(6)[8] != known_eku_oid(13)[8]);
        assert(known_eku_oid(7)[8] != known_eku_oid(13)[8]);
        assert(known_eku_oid(8)[8] != known_eku_oid(13)[8]);
        assert(known_eku_oid(9)[8] != known_eku_oid(13)[8]);
        assert(known_eku_oid(10)[8] != known_eku_oid(13)[8]);
        assert(known_eku_oid(11)[8] != known_eku_oid(13)[8]);
        assert(known_eku_oid(12)[8] != known_eku_oid(13)[8]);
        assert(known_eku_oid(0).len() != known_eku_oid(14).len());
        assert(known_eku_oid(1).len() != known_eku_oid(14).len());
        assert(known_eku_oid(2).len() != known_eku_oid(14).len());
        assert(known_eku_oid(3)[8] != known_eku_oid(14)[8]);
        assert(known_eku_oid(4)[8] != known_eku_oid(14)[8]);
        assert(known_eku_oid(5)[8] != known_eku_oid(14)[8]);
        assert(known_eku_oid(6)[8] != known_eku_oid(14)[8]);
        assert(known_eku_oid(7)[8] != known_eku_oid(14)[8]);
        assert(known_eku_oid(8)[8] != known_eku_oid(14)[8]);
        assert(known_eku_oid(9)[8] != known_eku_oid(14)[8]);
        assert(known_eku_oid(10)[8] != known_eku_oid(14)[8]);
        assert(known_eku_oid(11)[8] != known_eku_oid(14)[8]);
        assert(known_eku_oid(12)[8] != known_eku_oid(14)[8]);
        assert(known_eku_oid(13)[8] != known_eku_oid(14)[8]);
        assert(known_eku_oid(0).len() != known_eku_oid(15).len());
        assert(known_eku_oid(1).len() != known_eku_oid(15).len());
        assert(known_eku_oid(2).len() != known_eku_oid(15).len());
        assert(known_eku_oid(3)[8] != known_eku_oid(15)[8]);
        assert(known_eku_oid(4)[8] != known_eku_oid(15)[8]);
        assert(known_eku_oid(5)[8] != known_eku_oid(15)[8]);
        assert(known_eku_oid(6)[8] != known_eku_oid(15)[8]);
        assert(known_eku_oid(7)[8] != known_eku_oid(15)[8]);
        assert(known_eku_oid(8)[8] != known_eku_oid(15)[8]);
        assert(known_eku_oid(9)[8] != known_eku_oid(15)[8]);
        assert(known_eku_oid(10)[8] != known_eku_oid(15)[8]);
        assert(known_eku_oid(11)[8] != known_eku_oid(15)[8]);
        assert(known_eku_oid(12)[8] != known_eku_oid(15)[8]);
        assert(known_eku_oid(13)[8] != known_eku_oid(15)[8]);
        assert(known_eku_oid(14)[8] != known_eku_oid(15)[8]);
        assert(known_eku_oid(0).len() != known_eku_oid(16).len());
        assert(known_eku_oid(1).len() != known_eku_oid(16).len());
        assert(known_eku_oid(2).len() != known_eku_oid(16).len());
        assert(known_eku_oid(3)[8] != known_eku_oid(16)[8]);
        assert(known_eku_oid(4)[8] != known_eku_oid(16)[8]);
        assert(known_eku_oid(5)[8] != known_eku_oid(16)[8]);
        assert(known_eku_oid(6)[8] != known_eku_oid(16)[8]);
        assert(known_eku_oid(7)[8] != known_eku_oid(16)[8]);
        assert(known_eku_oid(8)[8] != known_eku_oid(16)[8]);
        assert(known_eku_oid(9)[8] != known_eku_oid(16)[8]);
        assert(known_eku_oid(10)[8] != known_eku_oid(16)[8]);
        assert(known_eku_oid(11)[8] != known_eku_oid(16)[8]);
        assert(known_eku_oid(12)[8] != known_eku_oid(16)[8]);
        assert(known_eku_oid(13)[8] != known_eku_oid(16)[8]);
        assert(known_eku_oid(14)[8] != known_eku_oid(16)[8]);
        assert(known_eku_oid(15)[8] != known_eku_oid(16)[8]);
        assert(known_eku_oid(0).len() != known_eku_oid(17).len());
        assert(known_eku_oid(1).len() != known_eku_oid(17).len());
        assert(known_eku_oid(2).len() != known_eku_oid(17).len());
        assert(known_eku_oid(3)[8] != known_eku_oid(17)[8]);
        assert(known_eku_oid(4)[8] != known_eku_oid(17)[8]);
        assert(known_eku_oid(5)[8] != known_eku_oid(17)[8]);
        assert(known_eku_oid(6)[8] != known_eku_oid(17)[8]);
        assert(known_eku_oid(7)[8] != known_eku_oid(17)[8]);
        assert(known_eku_oid(8)[8] != known_eku_oid(17)[8]);
        assert(known_eku_oid(9)[8] != known_eku_oid(17)[8]);
        assert(known_eku_oid(10)[8] != known_eku_oid(17)[8]);
        assert(known_eku_oid(11)[8] != known_eku_oid(17)[8]);
        assert(known_eku_oid(12)[8] != known_eku_oid(17)[8]);
        assert(known_eku_oid(13)[8] != known_eku_oid(17)[8]);
        assert(known_eku_oid(14)[8] != known_eku_oid(17)[8]);
        assert(known_eku_oid(15)[8] != known_eku_oid(17)[8]);
        assert(known_eku_oid(16)[8] != known_eku_oid(17)[8]);
        assert(known_eku_oid(0).len() != known_eku_oid(18).len());
        assert(known_eku_oid(1).len() != known_eku_oid(18).len());
        assert(known_eku_oid(2).len() != known_eku_oid(18).len());
        assert(known_eku_oid(3).len() != known_eku_oid(18).len());
        assert(known_eku_oid(4).len() != known_eku_oid(18).len());
        assert(known_eku_oid(5).len() != known_eku_oid(18).len());
        assert(known_eku_oid(6).len() != known_eku_oid(18).len());
        assert(known_eku_oid(7).len() != known_eku_oid(18).len());
        assert(known_eku_oid(8).len() != known_eku_oid(18).len());
        assert(known_eku_oid(9).len() != known_eku_oid(18).len());
        assert(known_eku_oid(10).len() != known_eku_oid(18).len());
        assert(known_eku_oid(11).len() != known_eku_oid(18).len());
        assert(known_eku_oid(12).len() != known_eku_oid(18).len());
        assert(known_eku_oid(13).len() != known_eku_oid(18).len());
        assert(known_eku_oid(14).len() != known_eku_oid(18).len());
        assert(known_eku_oid(15).len() != known_eku_oid(18).len());
        assert(known_eku_oid(16).len() != known_eku_oid(18).len());
        assert(known_eku_oid(17).len() != known_eku_oid(18).len());
        assert(known_eku_oid(0).len() != known_eku_oid(19).len());
        assert(known_eku_oid(1).len() != known_eku_oid(19).len());
        assert(known_eku_oid(2).len() != known_eku_oid(19).len());
        assert(known_eku_oid(3).len() != known_eku_oid(19).len());
        assert(known_eku_oid(4).len() != known_eku_oid(19).len());
        assert(known_eku_oid(5).len() != known_eku_oid(19).len());
        assert(known_eku_oid(6).len() != known_eku_oid(19).len());
        assert(known_eku_oid(7).len() != known_eku_oid(19).len());
        assert(known_eku_oid(8).len() != known_eku_oid(19).len());
        assert(known_eku_oid(9).len() != known_eku_oid(19).len());
        assert(known_eku_oid(10).len() != known_eku_oid(19).len());
        assert(known_eku_oid(11).len() != known_eku_oid(19).len());
        assert(known_eku_oid(12).len() != known_eku_oid(19).len());
        assert(known_eku_oid(13).len() != known_eku_oid(19).len());
        assert(known_eku_oid(14).len() != known_eku_oid(19).len());
        assert(known_eku_oid(15).len() != known_eku_oid(19).len());
        assert(known_eku_oid(16).len() != known_eku_oid(19).len());
        assert(known_eku_oid(17).len() != known_eku_oid(19).len());
        assert(known_eku_oid(18)[0] != known_eku_oid(19)[0]);
        assert(known_eku_oid(0).len() != known_eku_oid(20).len());
        assert(known_eku_oid(1).len() != known_eku_oid(20).len());
        assert(known_eku_oid(2).len() != known_eku_oid(20).len());
        assert(known_eku_oid(3).len() != known_eku_oid(20).len());
        assert(known_eku_oid(4).len() != known_eku_oid(20).len());
        assert(known_eku_oid(5).len() != known_eku_oid(20).len());
        assert(known_eku_oid(6).len() != known_eku_oid(20).len());
        assert(known_eku_oid(7).len() != known_eku_oid(20).len());
        assert(known_eku_oid(8).len() != known_eku_oid(20).len());
        assert(known_eku_oid(9).len() != known_eku_oid(20).len());
        assert(known_eku_oid(10).len() != known_eku_oid(20).len());
        assert(known_eku_oid(11).len() != known_eku_oid(20).len());
        assert(known_eku_oid(12).len() != known_eku_oid(20).len());
        assert(known_eku_oid(13).len() != known_eku_oid(20).len());
        assert(known_eku_oid(14).len() != known_eku_oid(20).len());
        assert(known_eku_oid(15).len() != known_eku_oid(20).len());
        assert(known_eku_oid(16).len() != known_eku_oid(20).len());
        assert(known_eku_oid(17).len() != known_eku_oid(20).len());
        assert(known_eku_oid(18)[0] != known_eku_oid(20)[0]);
        assert(known_eku_oid(19)[5] != known_eku_oid(20)[5]);
        assert(known_eku_oid(0).len() != known_eku_oid(21).len());
        assert(known_eku_oid(1)[0] != known_eku_oid(21)[0]);
        assert(known_eku_oid(2)[0] != known_eku_oid(21)[0]);
        assert(known_eku_oid(3).len() != known_eku_oid(21).len());
        assert(known_eku_oid(4).len() != known_eku_oid(21).len());
        assert(known_eku_oid(5).len() != known_eku_oid(21).len());
        assert(known_eku_oid(6).len() != known_eku_oid(21).len());
        assert(known_eku_oid(7).len() != known_eku_oid(21).len());
        assert(known_eku_oid(8).len() != known_eku_oid(21).len());
        assert(known_eku_oid(9).len() != known_eku_oid(21).len());
        assert(known_eku_oid(10).len() != known_eku_oid(21).len());
        assert(known_eku_oid(11).len() != known_eku_oid(21).len());
        assert(known_eku_oid(12).len() != known_eku_oid(21).len());
        assert(known_eku_oid(13).len() != known_eku_oid(21).len());
        assert(known_eku_oid(14).len() != known_eku_oid(21).len());
        assert(known_eku_oid(15).len() != known_eku_oid(21).len());
        assert(known_eku_oid(16).len() != known_eku_oid(21).len());
        assert(known_eku_oid(17).len() != known_eku_oid(21).len());
        assert(known_eku_oid(18).len() != known_eku_oid(21).len());
        assert(known_eku_oid(19).len() != known_eku_oid(21).len());
        assert(known_eku_oid(20).len() != known_eku_oid(21).len());
        assert(known_eku_oid(0).len() != known_eku_oid(22).len());
        assert(known_eku_oid(1).len() != known_eku_oid(22).len());
        assert(known_eku_oid(2).len() != known_eku_oid(22).len());
        assert(known_eku_oid(3).len() != known_eku_oid(22).len());
        assert(known_eku_oid(4).len() != known_eku_oid(22).len());
        assert(known_eku_oid(5).len() != known_eku_oid(22).len());
        assert(known_eku_oid(6).len() != known_eku_oid(22).len());
        assert(known_eku_oid(7).len() != known_eku_oid(22).len());
        assert(known_eku_oid(8).len() != known_eku_oid(22).len());
        assert(known_eku_oid(9).len() != known_eku_oid(22).len());
        assert(known_eku_oid(10).len() != known_eku_oid(22).len());
        assert(known_eku_oid(11).len() != known_eku_oid(22).len());
        assert(known_eku_oid(12).len() != known_eku_oid(22).len());
        assert(known_eku_oid(13).len() != known_eku_oid(22).len());
        assert(known_eku_oid(14).len() != known_eku_oid(22).len());
        assert(known_eku_oid(15).len() != known_eku_oid(22).len());
        assert(known_eku_oid(16).len() != known_eku_oid(22).len());
        assert(known_eku_oid(17).len() != known_eku_oid(22).len());
        assert(known_eku_oid(18).len() != known_eku_oid(22).len());
        assert(known_eku_oid(19).len() != known_eku_oid(22).len());
        assert(known_eku_oid(20).len() != known_eku_oid(22).len());
        assert(known_eku_oid(21).len() != known_eku_oid(22).len());
        assert(known_eku_oid(0).len() != known_eku_oid(23).len());
        assert(known_eku_oid(1).len() != known_eku_oid(23).len());
        assert(known_eku_oid(2).len() != known_eku_oid(23).len());
        assert(known_eku_oid(3).len() != known_eku_oid(23).len());
        assert(known_eku_oid(4).len() != known_eku_oid(23).len());
        assert(known_eku_oid(5).len() != known_eku_oid(23).len());
        assert(known_eku_oid(6).len() != known_eku_oid(23).len());
        assert(known_eku_oid(7).len() != known_eku_oid(23).len());
        assert(known_eku_oid(8).len() != known_eku_oid(23).len());
        assert(known_eku_oid(9).len() != known_eku_oid(23).len());
        assert(known_eku_oid(10).len() != known_eku_oid(23).len());
        assert(known_eku_oid(11).len() != known_eku_oid(23).len());
        assert(known_eku_oid(12).len() != known_eku_oid(23).len());
        assert(known_eku_oid(13).len() != known_eku_oid(23).len());
        assert(known_eku_oid(14).len() != known_eku_oid(23).len());
        assert(known_eku_oid(15).len() != known_eku_oid(23).len());
        assert(known_eku_oid(16).len() != known_eku_oid(23).len());
        assert(known_eku_oid(17).len() != known_eku_oid(23).len());
        assert(known_eku_oid(18).len() != known_eku_oid(23).len());
        assert(known_eku_oid(19).len() != known_eku_oid(23).len());
        assert(known_eku_oid(20).len() != known_eku_oid(23).len());
        assert(known_eku_oid(21).len() != known_eku_oid(23).len());
        assert(known_eku_oid(22)[9] != known_eku_oid(23)[9]);
        assert(known_eku_oid(0).len() != known_eku_oid(24).len());
        assert(known_eku_oid(1).len() != known_eku_oid(24).len());
        assert(known_eku_oid(2).len() != known_eku_oid(24).len());
        assert(known_eku_oid(3).len() != known_eku_oid(24).len());
        assert(known_eku_oid(4).len() != known_eku_oid(24).len());
        assert(known_eku_oid(5).len() != known_eku_oid(24).len());
        assert(known_eku_oid(6).len() != known_eku_oid(24).len());
        assert(known_eku_oid(7).len() != known_eku_oid(24).len());
        assert(known_eku_oid(8).len() != known_eku_oid(24).len());
        assert(known_eku_oid(9).len() != known_eku_oid(24).len());
        assert(known_eku_oid(10).len() != known_eku_oid(24).len());
        assert(known_eku_oid(11).len() != known_eku_oid(24).len());
        assert(known_eku_oid(12).len() != known_eku_oid(24).len());
        assert(known_eku_oid(13).len() != known_eku_oid(24).len());
        assert(known_eku_oid(14).len() != known_eku_oid(24).len());
        assert(known_eku_oid(15).len() != known_eku_oid(24).len());
        assert(known_eku_oid(16).len() != known_eku_oid(24).len());
        assert(known_eku_oid(17).len() != known_eku_oid(24).len());
        assert(known_eku_oid(18).len() != known_eku_oid(24).len());
        assert(known_eku_oid(19).len() != known_eku_oid(24).len());
        assert(known_eku_oid(20).len() != known_eku_oid(24).len());
        assert(known_eku_oid(21).len() != known_eku_oid(24).len());
        assert(known_eku_oid(22)[7] != known_eku_oid(24)[7]);
        assert(known_eku_oid(23)[7] != known_eku_oid(24)[7]);
        assert(known_eku_oid(0).len() != known_eku_oid(25).len());
        assert(known_eku_oid(1).len() != known_eku_oid(25).len());
        assert(known_eku_oid(2).len() != known_eku_oid(25).len());
        assert(known_eku_oid(3).len() != known_eku_oid(25).len());
        assert(known_eku_oid(4).len() != known_eku_oid(25).len());
        assert(known_eku_oid(5).len() != known_eku_oid(25).len());
        assert(known_eku_oid(6).len() != known_eku_oid(25).len());
        assert(known_eku_oid(7).len() != known_eku_oid(25).len());
        assert(known_eku_oid(8).len() != known_eku_oid(25).len());
        assert(known_eku_oid(9).len() != known_eku_oid(25).len());
        assert(known_eku_oid(10).len() != known_eku_oid(25).len());
        assert(known_eku_oid(11).len() != known_eku_oid(25).len());
        assert(known_eku_oid(12).len() != known_eku_oid(25).len());
        assert(known_eku_oid(13).len() != known_eku_oid(25).len());
        assert(known_eku_oid(14).len() != known_eku_oid(25).len());
        assert(known_eku_oid(15).len() != known_eku_oid(25).len());
        assert(known_eku_oid(16).len() != known_eku_oid(25).len());
        assert(known_eku_oid(17).len() != known_eku_oid(25).len());
        assert(known_eku_oid(18).len() != known_eku_oid(25).len());
        assert(known_eku_oid(19).len() != known_eku_oid(25).len());
        assert(known_eku_oid(20).len() != known_eku_oid(25).len());
        assert(known_eku_oid(21).len() != known_eku_oid(25).len());
        assert(known_eku_oid(22).len() != known_eku_oid(25).len());
        assert(known_eku_oid(23).len() != known_eku_oid(25).len());
        assert(known_eku_oid(24).len() != known_eku_oid(25).len());
        assert(known_eku_oid(0).len() != known_eku_oid(26).len());
        assert(known_eku_oid(1).len() != known_eku_oid(26).len());
        assert(known_eku_oid(2).len() != known_eku_oid(26).len());
        assert(known_eku_oid(3).len() != known_eku_oid(26).len());
        assert(known_eku_oid(4).len() != known_eku_oid(26).len());
        assert(known_eku_oid(5).len() != known_eku_oid(26).len());
        assert(known_eku_oid(6).len() != known_eku_oid(26).len());
        assert(known_eku_oid(7).len() != known_eku_oid(26).len());
        assert(known_eku_oid(8).len() != known_eku_oid(26).len());
        assert(known_eku_oid(9).len() != known_eku_oid(26).len());
        assert(known_eku_oid(10).len() != known_eku_oid(26).len());
        assert(known_eku_oid(11).len() != known_eku_oid(26).len());
        assert(known_eku_oid(12).len() != known_eku_oid(26).len());
        assert(known_eku_oid(13).len() != known_eku_oid(26).len());
        assert(known_eku_oid(14).len() != known_eku_oid(26).len());
        assert(known_eku_oid(15).len() != known_eku_oid(26).len());
        assert(known_eku_oid(16).len() != known_eku_oid(26).len());
        assert(known_eku_oid(17).len() != known_eku_oid(26).len());
        assert(known_eku_oid(18).len() != known_eku_oid(26).len());
        assert(known_eku_oid(19).len() != known_eku_oid(26).len());
        assert(known_eku_oid(20).len() != known_eku_oid(26).len());
        assert(known_eku_oid(21).len() != known_eku_oid(26).len());
        assert(known_eku_oid(22)[7] != known_eku_oid(26)[7]);
        assert(known_eku_oid(23)[7] != known_eku_oid(26)[7]);
        assert(known_eku_oid(24)[9] != known_eku_oid(26)[9]);
        assert(known_eku_oid(25).len() != known_eku_oid(26).len());
        assert(known_eku_oid(0).len() != known_eku_oid(27).len());
        assert(known_eku_oid(1).len() != known_eku_oid(27).len());
        assert(known_eku_oid(2).len() != known_eku_oid(27).len());
        assert(known_eku_oid(3).len() != known_eku_oid(27).len());
        assert(known_eku_oid(4).len() != known_eku_oid(27).len());
        assert(known_eku_oid(5).len() != known_eku_oid(27).len());
        assert(known_eku_oid(6).len() != known_eku_oid(27).len());
        assert(known_eku_oid(7).len() != known_eku_oid(27).len());
        assert(known_eku_oid(8).len() != known_eku_oid(27).len());
        assert(known_eku_oid(9).len() != known_eku_oid(27).len());
        assert(known_eku_oid(10).len() != known_eku_oid(27).len());
        assert(known_eku_oid(11).len() != known_eku_oid(27).len());
        assert(known_eku_oid(12).len() != known_eku_oid(27).len());
        assert(known_eku_oid(13).len() != known_eku_oid(27).len());
        assert(known_eku_oid(14).len() != known_eku_oid(27).len());
        assert(known_eku_oid(15).len() != known_eku_oid(27).len());
        assert(known_eku_oid(16).len() != known_eku_oid(27).len());
        assert(known_eku_oid(17).len() != known_eku_oid(27).len());
        assert(known_eku_oid(18).len() != known_eku_oid(27).len());
        assert(known_eku_oid(19).len() != known_eku_oid(27).len());
        assert(known_eku_oid(20).len() != known_eku_oid(27).len());
        assert(known_eku_oid(21).len() != known_eku_oid(27).len());
        assert(known_eku_oid(22)[7] != known_eku_oid(27)[7]);
        assert(known_eku_oid(23)[7] != known_eku_oid(27)[7]);
        assert(known_eku_oid(24)[7] != known_eku_oid(27)[7]);
        assert(known_eku_oid(25).len() != known_eku_oid(27).len());
        assert(known_eku_oid(26)[7] != known_eku_oid(27)[7]);
        assert(known_eku_oid(0).len() != known_eku_oid(28).len());
        assert(known_eku_oid(1).len() != known_eku_oid(28).len());
        assert(known_eku_oid(2).len() != known_eku_oid(28).len());
        assert(known_eku_oid(3)[4] != known_eku_oid(28)[4]);
        assert(known_eku_oid(4)[4] != known_eku_oid(28)[4]);
        assert(known_eku_oid(5)[4] != known_eku_oid(28)[4]);
        assert(known_eku_oid(6)[4] != known_eku_oid(28)[4]);
        assert(known_eku_oid(7)[4] != known_eku_oid(28)[4]);
        assert(known_eku_oid(8)[4] != known_eku_oid(28)[4]);
        assert(known_eku_oid(9)[4] != known_eku_oid(28)[4]);
        assert(known_eku_oid(10)[4] != known_eku_oid(28)[4]);
        assert(known_eku_oid(11)[4] != known_eku_oid(28)[4]);
        assert(known_eku_oid(12)[4] != known_eku_oid(28)[4]);
        assert(known_eku_oid(13)[4] != known_eku_oid(28)[4]);
        assert(known_eku_oid(14)[4] != known_eku_oid(28)[4]);
        assert(known_eku_oid(15)[4] != known_eku_oid(28)[4]);
        assert(known_eku_oid(16)[4] != known_eku_oid(28)[4]);
        assert(known_eku_oid(17)[4] != known_eku_oid(28)[4]);
        assert(known_eku_oid(18).len() != known_eku_oid(28).len());
        assert(known_eku_oid(19).len() != known_eku_oid(28).len());
        assert(known_eku_oid(20).len() != known_eku_oid(28).len());
        assert(known_eku_oid(21).len() != known_eku_oid(28).len());
        assert(known_eku_oid(22).len() != known_eku_oid(28).len());
        assert(known_eku_oid(23).len() != known_eku_oid(28).len());
        assert(known_eku_oid(24).len() != known_eku_oid(28).len());
        assert(known_eku_oid(25).len() != known_eku_oid(28).len());
        assert(known_eku_oid(26).len() != known_eku_oid(28).len());
        assert(known_eku_oid(27).len() != known_eku_oid(28).len());
        assert(known_eku_oid(0).len() != known_eku_oid(29).len());
        assert(known_eku_oid(1)[0] != known_eku_oid(29)[0]);
        assert(known_eku_oid(2)[0] != known_eku_oid(29)[0]);
        assert(known_eku_oid(3).len() != known_eku_oid(29).len());
        assert(known_eku_oid(4).len() != known_eku_oid(29).len());
        assert(known_eku_oid(5).len() != known_eku_oid(29).len());
        assert(known_eku_oid(6).len() != known_eku_oid(29).len());
        assert(known_eku_oid(7).len() != known_eku_oid(29).len());
        assert(known_eku_oid(8).len() != known_eku_oid(29).len());
        assert(known_eku_oid(9).len() != known_eku_oid(29).len());
        assert(known_eku_oid(10).len() != known_eku_oid(29).len());
        assert(known_eku_oid(11).len() != known_eku_oid(29).len());
        assert(known_eku_oid(12).len() != known_eku_oid(29).len());
        assert(known_eku_oid(13).len() != known_eku_oid(29).len());
        assert(known_eku_oid(14).len() != known_eku_oid(29).len());
        assert(known_eku_oid(15).len() != known_eku_oid(29).len());
        assert(known_eku_oid(16).len() != known_eku_oid(29).len());
        assert(known_eku_oid(17).len() != known_eku_oid(29).len());
        assert(known_eku_oid(18).len() != known_eku_oid(29).len());
        assert(known_eku_oid(19).len() != known_eku_oid(29).len());
        assert(known_eku_oid(20).len() != known_eku_oid(29).len());
        assert(known_eku_oid(21)[4] != known_eku_oid(29)[4]);
        assert(known_eku_oid(22).len() != known_eku_oid(29).len());
        assert(known_eku_oid(23).len() != known_eku_oid(29).len());
        assert(known_eku_oid(24).len() != known_eku_oid(29).len());
        assert(known_eku_oid(25).len() != known_eku_oid(29).len());
        assert(known_eku_oid(26).len() != known_eku_oid(29).len());
        assert(known_eku_oid(27).len() != known_eku_oid(29).len());
        assert(known_eku_oid(28).len() != known_eku_oid(29).len());
        assert(known_eku_oid(0).len() != known_eku_oid(30).len());
        assert(known_eku_oid(1).len() != known_eku_oid(30).len());
        assert(known_eku_oid(2).len() != known_eku_oid(30).len());
        assert(known_eku_oid(3).len() != known_eku_oid(30).len());
        assert(known_eku_oid(4).len() != known_eku_oid(30).len());
        assert(known_eku_oid(5).len() != known_eku_oid(30).len());
        assert(known_eku_oid(6).len() != known_eku_oid(30).len());
        assert(known_eku_oid(7).len() != known_eku_oid(30).len());
        assert(known_eku_oid(8).len() != known_eku_oid(30).len());
        assert(known_eku_oid(9).len() != known_eku_oid(30).len());
        assert(known_eku_oid(10).len() != known_eku_oid(30).len());
        assert(known_eku_oid(11).len() != known_eku_oid(30).len());
        assert(known_eku_oid(12).len() != known_eku_oid(30).len());
        assert(known_eku_oid(13).len() != known_eku_oid(30).len());
        assert(known_eku_oid(14).len() != known_eku_oid(30).len());
        assert(known_eku_oid(15).len() != known_eku_oid(30).len());
        assert(known_eku_oid(16).len() != known_eku_oid(30).len());
        assert(known_eku_oid(17).len() != known_eku_oid(30).len());
        assert(known_eku_oid(18).len() != known_eku_oid(30).len());
        assert(known_eku_oid(19).len() != known_eku_oid(30).len());
        assert(known_eku_oid(20).len() != known_eku_oid(30).len());
        assert(known_eku_oid(21).len() != known_eku_oid(30).len());
        assert(known_eku_oid(22).len() != known_eku_oid(30).len());
        assert(known_eku_oid(23).len() != known_eku_oid(30).len());
        assert(known_eku_oid(24).len() != known_eku_oid(30).len());
        assert(known_eku_oid(25).len() != known_eku_oid(30).len());
        assert(known_eku_oid(26).len() != known_eku_oid(30).len());
        assert(known_eku_oid(27).len() != known_eku_oid(30).len());
        assert(known_eku_oid(28).len() != known_eku_oid(30).len());
        assert(known_eku_oid(29).len() != known_eku_oid(30).len());
    }
}

proof fn lemma_eku_scan(oid: Seq<u32>, j: int, i: int)
    requires
        0 <= j <= i < KNOWN_EKU_COUNT,
        known_eku_oid(i) == oid,
        forall|k: int| 0 <= k < i ==> known_eku_oid(k) != oid,
    ensures
        eku_of_oid_from(oid, j) == Some(known_eku(i)),
    decreases i - j,
{
    if j < i {
        lemma_eku_scan(oid, j + 1, i);
    }
}

/// The object identifier of a recognised purpose maps back to it, and a
/// custom purpose whose identifier is not recognised keeps it.
pub proof fn lemma_eku_oid_round_trip(i: int)
    requires
        0 <= i < KNOWN_EKU_COUNT,
    ensures
        is_known_eku_oid(known_eku_oid(i)),
        eku_of_oid(eku_oid(known_eku(i))) == Some(known_eku(i)),
{
    lemma_known_eku_oids_distinct();
    lemma_known_eku_oid(i);
    lemma_eku_scan(known_eku_oid(i), 0, i);
}

} // verus!
