//! Extension checkers: each handles one or more extensions of an ordered
//! chain (leaf first, trust anchor last) and, when the chain passes, removes
//! the object identifiers it handled from the pending critical set.
use vstd::prelude::*;
use crate::basic_constraints::{basic_constraints_oid, basic_constraints_oid_vec, BasicConstraints};
use crate::certificate_policies::{certificate_policies_oid, certificate_policies_oid_vec, policy_eq, CertificatePolicy};
use crate::errors::{CertificateValidationError, CertificateValidationErrorKind};
use crate::extended_key_usage::{eku_oid, extended_key_usage_oid, extended_key_usage_oid_vec, ExtendedKeyUsage};
use crate::key_identifier::{
    authority_key_identifier_oid, authority_key_identifier_oid_vec, subject_key_identifier_oid,
    subject_key_identifier_oid_vec,
};
use crate::key_usage::{key_usage_oid, key_usage_oid_vec, ku_index, KeyUsage};
use crate::oid::same_oid;
use crate::parse::{has_oid, CertificateParser};

verus! {

/// The certificates that a chain of references points to.
pub open spec fn certs_of(chain: Seq<&CertificateParser>) -> Seq<CertificateParser> {
    Seq::new(chain.len(), |i: int| *chain[i])
}

/// Remove every occurrence of `oid` from the pending set.
pub fn remove_oid(pending: &mut Vec<Vec<u32>>, oid: &[u32])
    ensures
        forall|o: Seq<u32>| has_oid(final(pending)@, o) <==> (has_oid(old(pending)@, o) && o != oid@),
{
    let mut kept: Vec<Vec<u32>> = Vec::new();
    let mut i: usize = 0;
    while i < pending.len()
        invariant
            i <= pending@.len(),
            forall|o: Seq<u32>| has_oid(kept@, o) <==> (o != oid@ && exists|k: int| 0 <= k < i && (#[trigger] pending@[k])@ == o),
        decreases pending@.len() - i,
    {
        let ghost before = kept@;
        if !same_oid(pending[i].as_slice(), oid) {
            let mut copy: Vec<u32> = Vec::new();
            let mut j: usize = 0;
            while j < pending[i].len()
                invariant
                    i < pending@.len(),
                    j <= pending@[i as int]@.len(),
                    copy@ == pending@[i as int]@.subrange(0, j as int),
                decreases pending@[i as int]@.len() - j,
            {
                copy.push(pending[i][j]);
                j += 1;
            }
            assert(copy@ =~= pending@[i as int]@);
            kept.push(copy);
        }
        proof {
            assert forall|o: Seq<u32>| has_oid(kept@, o) <==> (o != oid@ && exists|k: int| 0 <= k < i + 1 && (#[trigger] pending@[k])@ == o) by {
                if has_oid(kept@, o) {
                    let j = choose|j: int| 0 <= j < kept@.len() && (#[trigger] kept@[j])@ == o;
                    if j < before.len() {
                        assert(kept@[j] == before[j]);
                        assert(has_oid(before, o));
                    } else {
                        assert(pending@[i as int]@ == o);
                    }
                }
                if o != oid@ && exists|k: int| 0 <= k < i + 1 && (#[trigger] pending@[k])@ == o {
                    let k = choose|k: int| 0 <= k < i + 1 && (#[trigger] pending@[k])@ == o;
                    if k < i {
                        assert(has_oid(before, o));
                        let j = choose|j: int| 0 <= j < before.len() && (#[trigger] before[j])@ == o;
                        assert(kept@[j] == before[j]);
                    } else {
                        assert(kept@[before.len() as int]@ == o);
                    }
                }
            }
        }
        i += 1;
    }
    *pending = kept;
}

/// A checker of one or more certificate extensions.
pub trait ExtensionChecker {
    /// `true` when the ordered chain (leaf first) passes this checker.
    spec fn accepts(&self, chain: Seq<CertificateParser>) -> bool;

    /// `true` when this checker handles extensions with object identifier `o`.
    spec fn handles(&self, o: Seq<u32>) -> bool;

    /// Check the chain. On success every handled object identifier leaves
    /// `unresolved_extensions`; on failure it is left as it was.
    fn check_extensions(
        &self,
        chain_with_trust: &[&CertificateParser],
        unresolved_extensions: &mut Vec<Vec<u32>>,
    ) -> (r: Result<(), CertificateValidationError>)
        ensures
            r is Ok <==> self.accepts(certs_of(chain_with_trust@)),
            r is Ok ==> forall|o: Seq<u32>| has_oid(final(unresolved_extensions)@, o) <==> (has_oid(old(unresolved_extensions)@, o) && !self.handles(o)),
            r is Err ==> final(unresolved_extensions)@ == old(unresolved_extensions)@,
            r matches Err(e) ==> e.kind == CertificateValidationErrorKind::ExtensionHandlingFailure,
    ;
}

/// `basic_constraints` marks a CA whose path length allows `required`
/// intermediate certificates below it.
pub open spec fn ca_with_sufficient_path_len(basic_constraints: Option<BasicConstraints>, required: nat) -> bool {
    match basic_constraints {
        Some(b) => b.ca && match b.spec_path_len() {
            Some(p) => p >= required,
            None => true,
        },
        None => false,
    }
}

/// Basic Constraints: every certificate above the leaf must be a CA whose
/// path length covers the intermediates below it.
#[derive(Debug, Default)]
pub struct BasicConstraintsChecker {}

impl BasicConstraintsChecker {
    /// Return `true` when `basic_constraints` marks a CA whose path length is
    /// absent or at least `required_path_len`.
    pub fn is_ca_with_sufficient_path_len(basic_constraints: Option<BasicConstraints>, required_path_len: usize) -> (r: bool)
        ensures
            r == ca_with_sufficient_path_len(basic_constraints, required_path_len as nat),
    {
        match basic_constraints {
            Some(b) => b.is_ca() && match b.path_len() {
                Some(p) => p >= required_path_len,
                None => true,
            },
            None => false,
        }
    }
}

impl ExtensionChecker for BasicConstraintsChecker {
    open spec fn accepts(&self, chain: Seq<CertificateParser>) -> bool {
        forall|i: int| 1 <= i < chain.len() ==> ca_with_sufficient_path_len(#[trigger] chain[i].basic_constraints, (i - 1) as nat)
    }

    open spec fn handles(&self, o: Seq<u32>) -> bool {
        o == basic_constraints_oid()
    }

    fn check_extensions(
        &self,
        chain_with_trust: &[&CertificateParser],
        unresolved_extensions: &mut Vec<Vec<u32>>,
    ) -> (r: Result<(), CertificateValidationError>) {
        let ghost chain = certs_of(chain_with_trust@);
        let mut i: usize = 1;
        while i < chain_with_trust.len()
            invariant
                chain == certs_of(chain_with_trust@),
                1 <= i,
                forall|k: int| 1 <= k < i && k < chain.len() ==> ca_with_sufficient_path_len(#[trigger] chain[k].basic_constraints, (k - 1) as nat),
            decreases chain_with_trust@.len() - i,
        {
            if !Self::is_ca_with_sufficient_path_len(chain_with_trust[i].basic_constraints, i - 1) {
                assert(chain[i as int] == *chain_with_trust@[i as int]);
                return Err(CertificateValidationErrorKind::ExtensionHandlingFailure.error_with_msg("Failed check of Basic Constraints."));
            }
            assert(chain[i as int] == *chain_with_trust@[i as int]);
            i += 1;
        }
        let oid = basic_constraints_oid_vec();
        remove_oid(unresolved_extensions, oid.as_slice());
        Ok(())
    }
}

/// `key_usage` carries every flag of `required`; an absent extension passes
/// only when nothing is required.
pub open spec fn key_usage_ok(key_usage: Option<[bool; 9]>, required: Seq<KeyUsage>) -> bool {
    match key_usage {
        Some(bits) => forall|j: int| 0 <= j < required.len() ==> bits@[ku_index(#[trigger] required[j]) as int],
        None => required.len() == 0,
    }
}

/// Key Usage: the leaf must carry the required leaf flags, every other
/// certificate the required issuer flags.
#[derive(Debug)]
pub struct KeyUsageChecker {
    pub leaf_kus: Vec<KeyUsage>,
    pub issuer_kus: Vec<KeyUsage>,
}

impl KeyUsageChecker {
    /// Return a new instance with custom Key Usage requirements.
    pub fn new(required_leaf_kus: Vec<KeyUsage>, required_issuer_kus: Vec<KeyUsage>) -> (r: Self)
        ensures
            r.leaf_kus@ == required_leaf_kus@,
            r.issuer_kus@ == required_issuer_kus@,
    {
        KeyUsageChecker { leaf_kus: required_leaf_kus, issuer_kus: required_issuer_kus }
    }

    fn key_usage_passes(key_usage: Option<[bool; 9]>, required: &Vec<KeyUsage>) -> (r: bool)
        ensures
            r == key_usage_ok(key_usage, required@),
    {
        if key_usage.is_none() {
            return required.len() == 0;
        }
        let bits: [bool; 9] = key_usage.unwrap();
        let mut j: usize = 0;
        while j < required.len()
            invariant
                key_usage == Some(bits),
                j <= required@.len(),
                forall|m: int| 0 <= m < j ==> bits@[ku_index(#[trigger] required@[m]) as int],
            decreases required@.len() - j,
        {
            if !bits[required[j].index()] {
                proof {
                    let m = j as int;
                    assert(!bits@[ku_index(required@[m]) as int]);
                    if key_usage_ok(key_usage, required@) {
                        assert(bits@[ku_index(required@[m]) as int]);
                    }
                }
                return false;
            }
            j += 1;
        }
        true
    }
}

impl Default for KeyUsageChecker {
    /// Require `DigitalSignature` of the leaf and `KeyCertSign` of issuers.
    fn default() -> (r: Self)
        ensures
            r.leaf_kus@ == seq![KeyUsage::DigitalSignature],
            r.issuer_kus@ == seq![KeyUsage::KeyCertSign],
    {
        let r = Self::new(vec![KeyUsage::DigitalSignature], vec![KeyUsage::KeyCertSign]);
        assert(r.leaf_kus@ =~= seq![KeyUsage::DigitalSignature]);
        assert(r.issuer_kus@ =~= seq![KeyUsage::KeyCertSign]);
        r
    }
}

impl ExtensionChecker for KeyUsageChecker {
    open spec fn accepts(&self, chain: Seq<CertificateParser>) -> bool {
        forall|i: int| 0 <= i < chain.len() ==> key_usage_ok(#[trigger] chain[i].key_usage, if i == 0 { self.leaf_kus@ } else { self.issuer_kus@ })
    }

    open spec fn handles(&self, o: Seq<u32>) -> bool {
        o == key_usage_oid()
    }

    fn check_extensions(
        &self,
        chain_with_trust: &[&CertificateParser],
        unresolved_extensions: &mut Vec<Vec<u32>>,
    ) -> (r: Result<(), CertificateValidationError>) {
        let ghost chain = certs_of(chain_with_trust@);
        let mut i: usize = 0;
        while i < chain_with_trust.len()
            invariant
                chain == certs_of(chain_with_trust@),
                forall|k: int| 0 <= k < i && k < chain.len() ==> key_usage_ok(#[trigger] chain[k].key_usage, if k == 0 { self.leaf_kus@ } else { self.issuer_kus@ }),
            decreases chain_with_trust@.len() - i,
        {
            let required = if i > 0 { &self.issuer_kus } else { &self.leaf_kus };
            assert(chain[i as int] == *chain_with_trust@[i as int]);
            if !Self::key_usage_passes(chain_with_trust[i].key_usage, required) {
                return Err(CertificateValidationErrorKind::ExtensionHandlingFailure.error_with_msg("Missing KeyUsage(s)."));
            }
            i += 1;
        }
        let oid = key_usage_oid_vec();
        remove_oid(unresolved_extensions, oid.as_slice());
        Ok(())
    }
}

/// Key identifiers: where a certificate names its issuer's key, the next
/// certificate up the chain must carry that Subject Key Identifier.
#[derive(Debug, Default)]
pub struct KeyIdentifierChecker {}

/// The key identifier link between certificate `i - 1` and its issuer `i`.
pub open spec fn key_identifiers_linked(chain: Seq<CertificateParser>, i: int) -> bool {
    match chain[i - 1].authority_key_identifier {
        Some(a) => match chain[i].subject_key_identifier {
            Some(s) => s@ == a@,
            None => false,
        },
        None => true,
    }
}

impl ExtensionChecker for KeyIdentifierChecker {
    open spec fn accepts(&self, chain: Seq<CertificateParser>) -> bool {
        forall|i: int| 1 <= i < chain.len() ==> #[trigger] key_identifiers_linked(chain, i)
    }

    open spec fn handles(&self, o: Seq<u32>) -> bool {
        o == authority_key_identifier_oid() || o == subject_key_identifier_oid()
    }

    fn check_extensions(
        &self,
        chain_with_trust: &[&CertificateParser],
        unresolved_extensions: &mut Vec<Vec<u32>>,
    ) -> (r: Result<(), CertificateValidationError>) {
        let ghost chain = certs_of(chain_with_trust@);
        let mut i: usize = 1;
        while i < chain_with_trust.len()
            invariant
                chain == certs_of(chain_with_trust@),
                1 <= i,
                forall|k: int| 1 <= k < i && k < chain.len() ==> #[trigger] key_identifiers_linked(chain, k),
            decreases chain_with_trust@.len() - i,
        {
            assert(chain[i as int] == *chain_with_trust@[i as int]);
            assert(chain[i - 1] == *chain_with_trust@[i - 1]);
            match &chain_with_trust[i - 1].authority_key_identifier {
                Some(aki) => match &chain_with_trust[i].subject_key_identifier {
                    Some(ski) => {
                        if !crate::parse::same_bytes(ski.as_slice(), aki.as_slice()) {
                            assert(!key_identifiers_linked(chain, i as int));
                            return Err(CertificateValidationErrorKind::ExtensionHandlingFailure.error_with_msg("AuthorityKeyIdentifier did not match issuer's SubjectKeyIdentifier."));
                        }
                    },
                    None => {
                        assert(!key_identifiers_linked(chain, i as int));
                        return Err(CertificateValidationErrorKind::ExtensionHandlingFailure.error_with_msg("Certificate has AuthorityKeyIdentifier, but issuer is missing SubjectKeyIdentifier."));
                    },
                },
                None => {},
            }
            i += 1;
        }
        let aki_oid = authority_key_identifier_oid_vec();
        let ski_oid = subject_key_identifier_oid_vec();
        remove_oid(unresolved_extensions, aki_oid.as_slice());
        remove_oid(unresolved_extensions, ski_oid.as_slice());
        Ok(())
    }
}

/// Policy `p` is among the declared ones.
pub open spec fn policy_declared(declared: Seq<CertificatePolicy>, p: CertificatePolicy) -> bool {
    exists|k: int| 0 <= k < declared.len() && policy_eq(p, declared[k])
}

/// Every required policy is among the declared ones.
pub open spec fn policies_ok(declared: Seq<CertificatePolicy>, required: Seq<CertificatePolicy>) -> bool {
    forall|j: int| 0 <= j < required.len() ==> policy_declared(declared, #[trigger] required[j])
}

/// Certificate Policies: the leaf must declare the required leaf policies,
/// every other certificate the required issuer policies.
#[derive(Debug, Default)]
pub struct CertificatePoliciesChecker {
    pub leaf_policies: Vec<CertificatePolicy>,
    pub issuer_policies: Vec<CertificatePolicy>,
}

impl CertificatePoliciesChecker {
    /// Return a new instance that requires `required_leaf_policies` of the
    /// leaf and nothing of issuers.
    pub fn new(required_leaf_policies: Vec<CertificatePolicy>) -> (r: Self)
        ensures
            r.leaf_policies@ == required_leaf_policies@,
            r.issuer_policies@.len() == 0,
    {
        CertificatePoliciesChecker { leaf_policies: required_leaf_policies, issuer_policies: Vec::new() }
    }

    /// Return a new instance with leaf and issuer requirements.
    pub fn with_issuer_policies(
        required_leaf_policies: Vec<CertificatePolicy>,
        required_issuer_policies: Vec<CertificatePolicy>,
    ) -> (r: Self)
        ensures
            r.leaf_policies@ == required_leaf_policies@,
            r.issuer_policies@ == required_issuer_policies@,
    {
        CertificatePoliciesChecker { leaf_policies: required_leaf_policies, issuer_policies: required_issuer_policies }
    }

    fn policies_pass(declared: &Vec<CertificatePolicy>, required: &Vec<CertificatePolicy>) -> (r: bool)
        ensures
            r == policies_ok(declared@, required@),
    {
        let mut j: usize = 0;
        while j < required.len()
            invariant
                j <= required@.len(),
                forall|m: int| 0 <= m < j ==> policy_declared(declared@, #[trigger] required@[m]),
            decreases required@.len() - j,
        {
            let mut found = false;
            let mut k: usize = 0;
            while k < declared.len()
                invariant
                    j < required@.len(),
                    k <= declared@.len(),
                    found == exists|n: int| 0 <= n < k && policy_eq(required@[j as int], declared@[n]),
                decreases declared@.len() - k,
            {
                if required[j].same_as(&declared[k]) {
                    found = true;
                }
                k += 1;
            }
            if !found {
                assert(!policy_declared(declared@, required@[j as int]));
                return false;
            }
            assert(policy_declared(declared@, required@[j as int]));
            j += 1;
        }
        true
    }
}

impl ExtensionChecker for CertificatePoliciesChecker {
    open spec fn accepts(&self, chain: Seq<CertificateParser>) -> bool {
        forall|i: int| 0 <= i < chain.len() ==> policies_ok(#[trigger] chain[i].certificate_policies@, if i == 0 { self.leaf_policies@ } else { self.issuer_policies@ })
    }

    open spec fn handles(&self, o: Seq<u32>) -> bool {
        o == certificate_policies_oid()
    }

    fn check_extensions(
        &self,
        chain_with_trust: &[&CertificateParser],
        unresolved_extensions: &mut Vec<Vec<u32>>,
    ) -> (r: Result<(), CertificateValidationError>) {
        let ghost chain = certs_of(chain_with_trust@);
        let mut i: usize = 0;
        while i < chain_with_trust.len()
            invariant
                chain == certs_of(chain_with_trust@),
                forall|k: int| 0 <= k < i && k < chain.len() ==> policies_ok(#[trigger] chain[k].certificate_policies@, if k == 0 { self.leaf_policies@ } else { self.issuer_policies@ }),
            decreases chain_with_trust@.len() - i,
        {
            let required = if i > 0 { &self.issuer_policies } else { &self.leaf_policies };
            assert(chain[i as int] == *chain_with_trust@[i as int]);
            if !Self::policies_pass(&chain_with_trust[i].certificate_policies, required) {
                return Err(CertificateValidationErrorKind::ExtensionHandlingFailure.error_with_msg("Missing CertificatePolicy."));
            }
            i += 1;
        }
        let oid = certificate_policies_oid_vec();
        remove_oid(unresolved_extensions, oid.as_slice());
        Ok(())
    }
}

/// Purpose `e` is among the declared ones, compared by object identifier.
pub open spec fn eku_declared(declared: Seq<ExtendedKeyUsage>, e: ExtendedKeyUsage) -> bool {
    exists|k: int| 0 <= k < declared.len() && eku_oid(e) == eku_oid(declared[k])
}

/// Every required purpose is among the declared ones.
pub open spec fn ekus_ok(declared: Seq<ExtendedKeyUsage>, required: Seq<ExtendedKeyUsage>) -> bool {
    forall|j: int| 0 <= j < required.len() ==> eku_declared(declared, #[trigger] required[j])
}

/// Extended Key Usage: the leaf must declare the required leaf purposes,
/// every other certificate the required issuer purposes.
#[derive(Debug)]
pub struct ExtendedKeyUsageChecker {
    pub leaf_ekus: Vec<ExtendedKeyUsage>,
    pub issuer_ekus: Vec<ExtendedKeyUsage>,
}

impl ExtendedKeyUsageChecker {
    /// Return a new instance that requires `required_leaf_ekus` of the leaf
    /// and nothing of issuers.
    pub fn new(required_leaf_ekus: Vec<ExtendedKeyUsage>) -> (r: Self)
        ensures
            r.leaf_ekus@ == required_leaf_ekus@,
            r.issuer_ekus@.len() == 0,
    {
        ExtendedKeyUsageChecker { leaf_ekus: required_leaf_ekus, issuer_ekus: Vec::new() }
    }

    /// Return a new instance with leaf and issuer requirements.
    pub fn with_issuer_ekus(required_leaf_ekus: Vec<ExtendedKeyUsage>, required_issuer_ekus: Vec<ExtendedKeyUsage>) -> (r: Self)
        ensures
            r.leaf_ekus@ == required_leaf_ekus@,
            r.issuer_ekus@ == required_issuer_ekus@,
    {
        ExtendedKeyUsageChecker { leaf_ekus: required_leaf_ekus, issuer_ekus: required_issuer_ekus }
    }

    fn ekus_pass(declared: &Vec<ExtendedKeyUsage>, required: &Vec<ExtendedKeyUsage>) -> (r: bool)
        ensures
            r == ekus_ok(declared@, required@),
    {
        let mut j: usize = 0;
        while j < required.len()
            invariant
                j <= required@.len(),
                forall|m: int| 0 <= m < j ==> eku_declared(declared@, #[trigger] required@[m]),
            decreases required@.len() - j,
        {
            let want = required[j].value();
            let mut found = false;
            let mut k: usize = 0;
            while k < declared.len()
                invariant
                    j < required@.len(),
                    want@ == eku_oid(required@[j as int]),
                    k <= declared@.len(),
                    found == exists|n: int| 0 <= n < k && eku_oid(required@[j as int]) == eku_oid(declared@[n]),
                decreases declared@.len() - k,
            {
                let have = declared[k].value();
                if same_oid(want.as_slice(), have.as_slice()) {
                    found = true;
                }
                k += 1;
            }
            if !found {
                assert(!eku_declared(declared@, required@[j as int]));
                return false;
            }
            assert(eku_declared(declared@, required@[j as int]));
            j += 1;
        }
        true
    }
}

impl ExtensionChecker for ExtendedKeyUsageChecker {
    open spec fn accepts(&self, chain: Seq<CertificateParser>) -> bool {
        forall|i: int| 0 <= i < chain.len() ==> ekus_ok(#[trigger] chain[i].extended_key_usage@, if i == 0 { self.leaf_ekus@ } else { self.issuer_ekus@ })
    }

    open spec fn handles(&self, o: Seq<u32>) -> bool {
        o == extended_key_usage_oid()
    }

    fn check_extensions(
        &self,
        chain_with_trust: &[&CertificateParser],
        unresolved_extensions: &mut Vec<Vec<u32>>,
    ) -> (r: Result<(), CertificateValidationError>) {
        let ghost chain = certs_of(chain_with_trust@);
        let mut i: usize = 0;
        while i < chain_with_trust.len()
            invariant
                chain == certs_of(chain_with_trust@),
                forall|k: int| 0 <= k < i && k < chain.len() ==> ekus_ok(#[trigger] chain[k].extended_key_usage@, if k == 0 { self.leaf_ekus@ } else { self.issuer_ekus@ }),
            decreases chain_with_trust@.len() - i,
        {
            let required = if i > 0 { &self.issuer_ekus } else { &self.leaf_ekus };
            assert(chain[i as int] == *chain_with_trust@[i as int]);
            if !Self::ekus_pass(&chain_with_trust[i].extended_key_usage, required) {
                return Err(CertificateValidationErrorKind::ExtensionHandlingFailure.error_with_msg("Missing ExtendedKeyUsage(s)."));
            }
            i += 1;
        }
        let oid = extended_key_usage_oid_vec();
        remove_oid(unresolved_extensions, oid.as_slice());
        Ok(())
    }
}

/// Any of the extension checkers, so that a validator can hold a list of
/// them in the order they run.
#[derive(Debug)]
pub enum Checker {
    BasicConstraints(BasicConstraintsChecker),
    KeyUsage(KeyUsageChecker),
    KeyIdentifier(KeyIdentifierChecker),
    CertificatePolicies(CertificatePoliciesChecker),
    ExtendedKeyUsage(ExtendedKeyUsageChecker),
}

impl ExtensionChecker for Checker {
    open spec fn accepts(&self, chain: Seq<CertificateParser>) -> bool {
        match self {
            Checker::BasicConstraints(c) => c.accepts(chain),
            Checker::KeyUsage(c) => c.accepts(chain),
            Checker::KeyIdentifier(c) => c.accepts(chain),
            Checker::CertificatePolicies(c) => c.accepts(chain),
            Checker::ExtendedKeyUsage(c) => c.accepts(chain),
        }
    }

    open spec fn handles(&self, o: Seq<u32>) -> bool {
        match self {
            Checker::BasicConstraints(c) => c.handles(o),
            Checker::KeyUsage(c) => c.handles(o),
            Checker::KeyIdentifier(c) => c.handles(o),
            Checker::CertificatePolicies(c) => c.handles(o),
            Checker::ExtendedKeyUsage(c) => c.handles(o),
        }
    }

    fn check_extensions(
        &self,
        chain_with_trust: &[&CertificateParser],
        unresolved_extensions: &mut Vec<Vec<u32>>,
    ) -> (r: Result<(), CertificateValidationError>) {
        let ghost before = unresolved_extensions@;
        match self {
            Checker::BasicConstraints(c) => {
                let r = c.check_extensions(chain_with_trust, unresolved_extensions);
                proof {
                    if r is Ok {
                        assert forall|o: Seq<u32>| has_oid(unresolved_extensions@, o) <==> (has_oid(before, o) && !self.handles(o)) by {
                            assert(self.handles(o) == c.handles(o));
                        }
                    }
                }
                r
            },
            Checker::KeyUsage(c) => {
                let r = c.check_extensions(chain_with_trust, unresolved_extensions);
                proof {
                    if r is Ok {
                        assert forall|o: Seq<u32>| has_oid(unresolved_extensions@, o) <==> (has_oid(before, o) && !self.handles(o)) by {
                            assert(self.handles(o) == c.handles(o));
                        }
                    }
                }
                r
            },
            Checker::KeyIdentifier(c) => {
                let r = c.check_extensions(chain_with_trust, unresolved_extensions);
                proof {
                    if r is Ok {
                        assert forall|o: Seq<u32>| has_oid(unresolved_extensions@, o) <==> (has_oid(before, o) && !self.handles(o)) by {
                            assert(self.handles(o) == c.handles(o));
                        }
                    }
                }
                r
            },
            Checker::CertificatePolicies(c) => {
                let r = c.check_extensions(chain_with_trust, unresolved_extensions);
                proof {
                    if r is Ok {
                        assert forall|o: Seq<u32>| has_oid(unresolved_extensions@, o) <==> (has_oid(before, o) && !self.handles(o)) by {
                            assert(self.handles(o) == c.handles(o));
                        }
                    }
                }
                r
            },
            Checker::ExtendedKeyUsage(c) => {
                let r = c.check_extensions(chain_with_trust, unresolved_extensions);
                proof {
                    if r is Ok {
                        assert forall|o: Seq<u32>| has_oid(unresolved_extensions@, o) <==> (has_oid(before, o) && !self.handles(o)) by {
                            assert(self.handles(o) == c.handles(o));
                        }
                    }
                }
                r
            },
        }
    }
}

} // verus!
