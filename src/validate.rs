//! Certificate path validation: order an unordered leaf chain, link it to a
//! trust anchor, verify signatures and let extension checkers resolve every
//! critical extension.
use vstd::prelude::*;
use crate::checkers::{
    ca_with_sufficient_path_len,
    certs_of, BasicConstraintsChecker, Checker, ExtensionChecker, KeyIdentifierChecker, KeyUsageChecker,
};
use crate::errors::{CertificateValidationError, CertificateValidationErrorKind};
use crate::oid::as_string;
use crate::parse::{has_critical, has_oid, CertificateParser};
use crate::text::{hex_of, push_text, same_text};
use crate::digest::sha3_512;

verus! {

/// Every certificate is valid at time `t`.
pub open spec fn all_valid_at(cs: Seq<CertificateParser>, t: u64) -> bool {
    forall|i: int| 0 <= i < cs.len() ==> (#[trigger] cs[i]).validity.spec_valid_at(t)
}

/// A leaf lacks Basic Constraints or is not marked as a CA.
pub open spec fn is_leaf_cert(c: CertificateParser) -> bool {
    match c.basic_constraints {
        Some(b) => !b.ca,
        None => true,
    }
}

/// Number of leaves among the certificates.
pub open spec fn leaf_count(cs: Seq<CertificateParser>) -> nat
    decreases cs.len(),
{
    if cs.len() == 0 {
        0
    } else {
        leaf_count(cs.drop_last()) + if is_leaf_cert(cs.last()) { 1nat } else { 0nat }
    }
}

/// Position of the first leaf at or after `i`, or -1.
pub open spec fn first_leaf_from(cs: Seq<CertificateParser>, i: int) -> int
    decreases cs.len() - i,
{
    if i < 0 || i >= cs.len() {
        -1
    } else if is_leaf_cert(cs[i]) {
        i
    } else {
        first_leaf_from(cs, i + 1)
    }
}

/// Position of the first certificate at or after `i` whose subject is
/// `subject`, or -1.
pub open spec fn find_subject_from(cs: Seq<CertificateParser>, subject: Seq<u8>, i: int) -> int
    decreases cs.len() - i,
{
    if i < 0 || i >= cs.len() {
        -1
    } else if cs[i].subject_der@ == subject {
        i
    } else {
        find_subject_from(cs, subject, i + 1)
    }
}

/// Order `n` certificates starting from the one whose subject is `subject`:
/// each step takes the first remaining certificate with the wanted subject
/// and then wants its issuer. `None` when a step finds no certificate.
pub open spec fn order_steps(cs: Seq<CertificateParser>, subject: Seq<u8>, n: nat) -> Option<Seq<CertificateParser>>
    decreases n,
{
    if n == 0 {
        Some(seq![])
    } else {
        let k = find_subject_from(cs, subject, 0);
        if 0 <= k < cs.len() {
            match order_steps(cs.remove(k), cs[k].issuer_der@, (n - 1) as nat) {
                Some(rest) => Some(seq![cs[k]] + rest),
                None => None,
            }
        } else {
            None
        }
    }
}

/// The chain ordered from its first leaf up, if every certificate finds its
/// place.
pub open spec fn ordered_chain(cs: Seq<CertificateParser>) -> Option<Seq<CertificateParser>> {
    let l = first_leaf_from(cs, 0);
    if 0 <= l < cs.len() {
        order_steps(cs, cs[l].subject_der@, cs.len())
    } else {
        None
    }
}

/// `c` is one of the trust anchors, by fingerprint.
pub open spec fn is_trust_anchor(anchors: Seq<CertificateParser>, c: CertificateParser) -> bool {
    exists|j: int| 0 <= j < anchors.len() && (#[trigger] anchors[j]).fingerprint@ == c.fingerprint@
}

/// Position of the last of the first `n` anchors whose subject is `issuer`,
/// or -1.
pub open spec fn anchor_for_issuer(anchors: Seq<CertificateParser>, issuer: Seq<u8>, n: int) -> int
    decreases n,
{
    if n <= 0 || n > anchors.len() {
        -1
    } else if anchors[n - 1].subject_der@ == issuer {
        n - 1
    } else {
        anchor_for_issuer(anchors, issuer, n - 1)
    }
}

/// `c` is a trust anchor, or its issuer is the subject of one.
pub open spec fn linked_to_anchor(anchors: Seq<CertificateParser>, c: CertificateParser) -> bool {
    is_trust_anchor(anchors, c) || anchor_for_issuer(anchors, c.issuer_der@, anchors.len() as int) >= 0
}

/// Position of the first certificate at or after `i` that is a trust anchor
/// or is issued by one, or -1.
pub open spec fn first_linked_from(chain: Seq<CertificateParser>, anchors: Seq<CertificateParser>, i: int) -> int
    decreases chain.len() - i,
{
    if i < 0 || i >= chain.len() {
        -1
    } else if linked_to_anchor(anchors, chain[i]) {
        i
    } else {
        first_linked_from(chain, anchors, i + 1)
    }
}

/// The ordered chain up to its first certificate that is a trust anchor or
/// is issued by one. An anchor stays as the last element; otherwise the
/// issuing anchor is appended. `None` when no certificate links to an anchor.
pub open spec fn chain_with_trust(chain: Seq<CertificateParser>, anchors: Seq<CertificateParser>) -> Option<Seq<CertificateParser>> {
    let p = first_linked_from(chain, anchors, 0);
    if 0 <= p < chain.len() {
        if is_trust_anchor(anchors, chain[p]) {
            Some(chain.subrange(0, p + 1))
        } else {
            Some(chain.subrange(0, p + 1).push(anchors[anchor_for_issuer(anchors, chain[p].issuer_der@, anchors.len() as int)]))
        }
    } else {
        None
    }
}

/// Some certificate below the anchor (the last element) has a critical
/// extension with object identifier `o`.
pub open spec fn chain_critical(t: Seq<CertificateParser>, o: Seq<u32>) -> bool {
    exists|k: int| 0 <= k < t.len() - 1 && has_critical(#[trigger] t[k], o)
}

/// Every checker accepts the chain.
pub open spec fn all_accept(checkers: Seq<Checker>, t: Seq<CertificateParser>) -> bool {
    forall|k: int| 0 <= k < checkers.len() ==> (#[trigger] checkers[k]).accepts(t)
}

/// Some checker handles object identifier `o`.
pub open spec fn some_handles(checkers: Seq<Checker>, o: Seq<u32>) -> bool {
    exists|k: int| 0 <= k < checkers.len() && (#[trigger] checkers[k]).handles(o)
}

/// The signature of certificate `k` verified under the key of certificate
/// `k + 1`.
pub open spec fn pair_verified<F: Fn(&CertificateParser, &CertificateParser) -> Option<bool>>(
    t: Seq<CertificateParser>,
    f: F,
    k: int,
) -> bool {
    f.ensures((&t[k], &t[k + 1]), Some(true))
}

/// The signature of every certificate below the anchor verified under the
/// key of the certificate above it.
pub open spec fn signatures_verified<F: Fn(&CertificateParser, &CertificateParser) -> Option<bool>>(
    t: Seq<CertificateParser>,
    f: F,
) -> bool {
    forall|k: int| 0 <= k < t.len() - 1 ==> #[trigger] pair_verified(t, f, k)
}

/// Path validator holding trust anchors and the extension checkers that run
/// for every chain.
#[derive(Debug)]
pub struct CertificatePathValidator {
    pub trust_anchors: Vec<CertificateParser>,
    pub extension_checkers: Vec<Checker>,
}

impl CertificatePathValidator {
    /// Return a validator for already parsed trust anchors, with no
    /// checkers.
    pub fn from_trust_anchors(trust_anchors: Vec<CertificateParser>) -> (r: Self)
        ensures
            r.trust_anchors@ == trust_anchors@,
            r.extension_checkers@.len() == 0,
    {
        CertificatePathValidator { trust_anchors, extension_checkers: Vec::new() }
    }

    /// Add extension checkers that run for every chain, after those already
    /// present.
    pub fn add_extension_checkers(self, extension_checkers: Vec<Checker>) -> (r: Self)
        ensures
            r.trust_anchors@ == self.trust_anchors@,
            r.extension_checkers@ == self.extension_checkers@ + extension_checkers@,
    {
        let mut s = self;
        let mut more = extension_checkers;
        s.extension_checkers.append(&mut more);
        s
    }

    /// Add the Basic Constraints, Key Usage (default requirements) and Key
    /// Identifier checkers, in that order.
    pub fn add_standard_extension_checkers(self) -> (r: Self)
        ensures
            r.trust_anchors@ == self.trust_anchors@,
            r.extension_checkers@.len() == self.extension_checkers@.len() + 3,
            r.extension_checkers@.subrange(0, self.extension_checkers@.len() as int) == self.extension_checkers@,
            r.extension_checkers@[self.extension_checkers@.len() as int] is BasicConstraints,
            r.extension_checkers@[self.extension_checkers@.len() + 1int] matches Checker::KeyUsage(k)
                && k.leaf_kus@ == seq![crate::key_usage::KeyUsage::DigitalSignature]
                && k.issuer_kus@ == seq![crate::key_usage::KeyUsage::KeyCertSign],
            r.extension_checkers@[self.extension_checkers@.len() + 2int] is KeyIdentifier,
    {
        let n = self.extension_checkers.len();
        let standard = vec![
            Checker::BasicConstraints(BasicConstraintsChecker {  }),
            Checker::KeyUsage(KeyUsageChecker::default()),
            Checker::KeyIdentifier(KeyIdentifierChecker {  }),
        ];
        let r = self.add_extension_checkers(standard);
        assert(r.extension_checkers@.subrange(0, n as int) =~= self.extension_checkers@);
        r
    }
}

} // verus!

verus! {

/// Prefix `p` to a possible ordering.
pub open spec fn prepend(p: Seq<CertificateParser>, o: Option<Seq<CertificateParser>>) -> Option<Seq<CertificateParser>> {
    match o {
        Some(rest) => Some(p + rest),
        None => None,
    }
}

fn is_leaf(c: &CertificateParser) -> (r: bool)
    ensures
        r == is_leaf_cert(*c),
{
    match &c.basic_constraints {
        Some(b) => !b.ca,
        None => true,
    }
}

/// Return `true` when every certificate is valid at `at`.
fn all_valid(certs: &Vec<CertificateParser>, at: u64) -> (r: bool)
    ensures
        r == all_valid_at(certs@, at),
{
    let mut i: usize = 0;
    while i < certs.len()
        invariant
            i <= certs@.len(),
            forall|k: int| 0 <= k < i ==> (#[trigger] certs@[k]).validity.spec_valid_at(at),
        decreases certs@.len() - i,
    {
        if !certs[i].validity.is_valid_at(at) {
            return false;
        }
        i += 1;
    }
    true
}

/// Return the position of the only leaf, or `None` when there is no leaf or
/// more than one.
fn find_leaf(certs: &Vec<CertificateParser>) -> (r: Option<usize>)
    ensures
        r is Some <==> leaf_count(certs@) == 1,
        r matches Some(i) ==> i < certs@.len() && i == first_leaf_from(certs@, 0),
{
    let mut count: usize = 0;
    let mut first: Option<usize> = None;
    let mut i: usize = 0;
    while i < certs.len()
        invariant
            i <= certs@.len(),
            count == leaf_count(certs@.subrange(0, i as int)),
            count <= i,
            first is None <==> count == 0,
            first matches Some(f) ==> f < i && f == first_leaf_from(certs@, 0),
            count == 0 ==> first_leaf_from(certs@, 0) == first_leaf_from(certs@, i as int),
        decreases certs@.len() - i,
    {
        proof {
            assert(certs@.subrange(0, i as int + 1).drop_last() =~= certs@.subrange(0, i as int));
        }
        if is_leaf(&certs[i]) {
            count += 1;
            if first.is_none() {
                first = Some(i);
            }
        }
        i += 1;
    }
    assert(certs@.subrange(0, certs@.len() as int) =~= certs@);
    if count == 1 {
        first
    } else {
        None
    }
}

/// Order the certificates from the one whose subject is the leaf's subject
/// up, each followed by its issuer.
fn order_chain(certs: Vec<CertificateParser>, leaf: usize) -> (r: Result<Vec<CertificateParser>, CertificateValidationError>)
    requires
        leaf < certs@.len(),
    ensures
        match r {
            Ok(o) => order_steps(certs@, certs@[leaf as int].subject_der@, certs@.len()) == Some(o@),
            Err(e) => (order_steps(certs@, certs@[leaf as int].subject_der@, certs@.len()) is None)
                && e.kind == CertificateValidationErrorKind::NotOneLeaf,
        },
{
    let ghost cs0 = certs@;
    let ghost s0 = certs@[leaf as int].subject_der@;
    let mut remaining = certs;
    let mut current = crate::parse::copy_bytes(&remaining[leaf].subject_der);
    let mut ordered: Vec<CertificateParser> = Vec::new();
    while remaining.len() > 0
        invariant
            leaf < cs0.len(),
            cs0 == certs@,
            s0 == cs0[leaf as int].subject_der@,
            order_steps(cs0, s0, cs0.len()) == prepend(ordered@, order_steps(remaining@, current@, remaining@.len())),
        decreases remaining@.len(),
    {
        let mut k: usize = 0;
        while k < remaining.len() && !crate::parse::same_bytes(remaining[k].subject_der.as_slice(), current.as_slice())
            invariant
                leaf < cs0.len(),
                cs0 == certs@,
                s0 == cs0[leaf as int].subject_der@,
                order_steps(cs0, s0, cs0.len()) == prepend(ordered@, order_steps(remaining@, current@, remaining@.len())),
                k <= remaining@.len(),
                find_subject_from(remaining@, current@, 0) == find_subject_from(remaining@, current@, k as int),
            decreases remaining@.len() - k,
        {
            k += 1;
        }
        if k == remaining.len() {
            proof {
                lemma_find_subject_range(remaining@, current@, 0);
                assert(find_subject_from(remaining@, current@, k as int) == -1);
                assert(order_steps(remaining@, current@, remaining@.len()) is None);
                assert(order_steps(cs0, s0, cs0.len()) is None);
            }
            let mut msg = String::new();
            push_text(&mut msg, "No parent for certificate with fingerprint '");
            if ordered.len() > 0 {
                push_text(&mut msg, ordered[ordered.len() - 1].fingerprint.as_str());
            }
            push_text(&mut msg, "' detected.");
            return Err(CertificateValidationErrorKind::NotOneLeaf.error_with_msg(msg.as_str()));
        }
        let ghost before_rem = remaining@;
        let ghost before_ord = ordered@;
        let ghost before_cur = current@;
        let c = remaining.remove(k);
        current = crate::parse::copy_bytes(&c.issuer_der);
        ordered.push(c);
        proof {
            assert(find_subject_from(before_rem, before_cur, 0) == k);
            assert(remaining@ == before_rem.remove(k as int));
            let tail = order_steps(remaining@, current@, remaining@.len());
            assert(order_steps(before_rem, before_cur, before_rem.len()) == match tail {
                Some(rest) => Some(seq![before_rem[k as int]] + rest),
                None => None::<Seq<CertificateParser>>,
            });
            match tail {
                Some(rest) => {
                    assert(before_ord + (seq![before_rem[k as int]] + rest) =~= ordered@ + rest);
                },
                None => {},
            }
        }
    }
    assert(ordered@ + seq![] =~= ordered@);
    Ok(ordered)
}

/// Position of the first certificate at or after `i` whose subject is
/// `subject` lies in range when it is not -1.
proof fn lemma_find_subject_range(cs: Seq<CertificateParser>, subject: Seq<u8>, i: int)
    requires
        0 <= i,
    ensures
        find_subject_from(cs, subject, i) == -1 || (i <= find_subject_from(cs, subject, i) < cs.len()),
    decreases cs.len() - i,
{
    if i < cs.len() && cs[i].subject_der@ != subject {
        lemma_find_subject_range(cs, subject, i + 1);
    }
}

} // verus!

verus! {

proof fn lemma_first_linked_range(chain: Seq<CertificateParser>, anchors: Seq<CertificateParser>, i: int)
    requires
        0 <= i,
    ensures
        first_linked_from(chain, anchors, i) == -1 || (i <= first_linked_from(chain, anchors, i) < chain.len()),
    decreases chain.len() - i,
{
    if i < chain.len() && !linked_to_anchor(anchors, chain[i]) {
        lemma_first_linked_range(chain, anchors, i + 1);
    }
}

proof fn lemma_anchor_for_issuer_range(anchors: Seq<CertificateParser>, issuer: Seq<u8>, n: int)
    ensures
        anchor_for_issuer(anchors, issuer, n) == -1 || (0 <= anchor_for_issuer(anchors, issuer, n) < n
            && anchor_for_issuer(anchors, issuer, n) < anchors.len()),
    decreases n,
{
    if 0 < n <= anchors.len() && anchors[n - 1].subject_der@ != issuer {
        lemma_anchor_for_issuer_range(anchors, issuer, n - 1);
    }
}

impl CertificatePathValidator {
    /// Return `true` when `c` is one of the trust anchors, by fingerprint.
    fn is_anchor(&self, c: &CertificateParser) -> (r: bool)
        ensures
            r == is_trust_anchor(self.trust_anchors@, *c),
    {
        let mut j: usize = 0;
        while j < self.trust_anchors.len()
            invariant
                j <= self.trust_anchors@.len(),
                forall|k: int| 0 <= k < j ==> (#[trigger] self.trust_anchors@[k]).fingerprint@ != c.fingerprint@,
            decreases self.trust_anchors@.len() - j,
        {
            if same_text(self.trust_anchors[j].fingerprint.as_str(), c.fingerprint.as_str()) {
                return true;
            }
            j += 1;
        }
        false
    }

    /// Return the position of the last anchor whose subject is `issuer`.
    fn anchor_for(&self, issuer: &Vec<u8>) -> (r: Option<usize>)
        ensures
            match r {
                Some(j) => anchor_for_issuer(self.trust_anchors@, issuer@, self.trust_anchors@.len() as int) == j,
                None => anchor_for_issuer(self.trust_anchors@, issuer@, self.trust_anchors@.len() as int) == -1,
            },
    {
        let mut n: usize = self.trust_anchors.len();
        while n > 0
            invariant
                n <= self.trust_anchors@.len(),
                anchor_for_issuer(self.trust_anchors@, issuer@, self.trust_anchors@.len() as int)
                    == anchor_for_issuer(self.trust_anchors@, issuer@, n as int),
            decreases n,
        {
            if crate::parse::same_bytes(self.trust_anchors[n - 1].subject_der.as_slice(), issuer.as_slice()) {
                return Some(n - 1);
            }
            n -= 1;
        }
        None
    }

    /// Link the ordered chain to a trust anchor: cut it at its first
    /// certificate that is an anchor or is issued by one; append the issuing
    /// anchor in the second case.
    fn attach_trust<'a>(&'a self, ordered: &'a Vec<CertificateParser>) -> (r: Option<Vec<&'a CertificateParser>>)
        ensures
            match r {
                Some(c) => chain_with_trust(ordered@, self.trust_anchors@) == Some(certs_of(c@)),
                None => chain_with_trust(ordered@, self.trust_anchors@) is None,
            },
    {
        proof {
            lemma_first_linked_range(ordered@, self.trust_anchors@, 0);
        }
        let mut p: usize = 0;
        while p < ordered.len()
            invariant
                p <= ordered@.len(),
                first_linked_from(ordered@, self.trust_anchors@, 0) == first_linked_from(ordered@, self.trust_anchors@, p as int),
            decreases ordered@.len() - p,
        {
            if self.is_anchor(&ordered[p]) {
                return Some(refs_prefix(ordered, p + 1));
            }
            match self.anchor_for(&ordered[p].issuer_der) {
                Some(j) => {
                    proof {
                        lemma_anchor_for_issuer_range(self.trust_anchors@, ordered@[p as int].issuer_der@, self.trust_anchors@.len() as int);
                    }
                    let mut chain = refs_prefix(ordered, p + 1);
                    let ghost before = chain@;
                    chain.push(&self.trust_anchors[j]);
                    assert(certs_of(chain@) =~= certs_of(before).push(self.trust_anchors@[j as int]));
                    return Some(chain);
                },
                None => {},
            }
            p += 1;
        }
        None
    }
}

/// References to the first `n` certificates.
fn refs_prefix<'a>(certs: &'a Vec<CertificateParser>, n: usize) -> (r: Vec<&'a CertificateParser>)
    requires
        n <= certs@.len(),
    ensures
        certs_of(r@) == certs@.subrange(0, n as int),
{
    let mut r: Vec<&'a CertificateParser> = Vec::new();
    let mut i: usize = 0;
    while i < n
        invariant
            n <= certs@.len(),
            i <= n,
            certs_of(r@) == certs@.subrange(0, i as int),
        decreases n - i,
    {
        let ghost before = r@;
        r.push(&certs[i]);
        assert(certs_of(before).len() == before.len());
        assert(r@.len() == before.len() + 1);
        assert(certs_of(r@) =~= certs@.subrange(0, i as int + 1)) by {
            assert(certs_of(r@).len() == i + 1);
            assert forall|k: int| 0 <= k < i + 1 implies certs_of(r@)[k] == certs@.subrange(0, i as int + 1)[k] by {
                if k < i {
                    assert(r@[k] == before[k]);
                    assert(certs_of(before)[k] == certs@.subrange(0, i as int)[k]);
                }
            }
        }
        i += 1;
    }
    r
}

/// Verify the signature of `current` under the key of `issuer`.
fn check_signature<F: Fn(&CertificateParser, &CertificateParser) -> Option<bool>>(
    current: &CertificateParser,
    issuer: &CertificateParser,
    verify_signature: &F,
) -> (r: Result<(), CertificateValidationError>)
    requires
        forall|a: &CertificateParser, b: &CertificateParser| verify_signature.requires((a, b)),
    ensures
        r is Ok ==> verify_signature.ensures((current, issuer), Some(true)),
        r matches Err(e) ==> e.kind == CertificateValidationErrorKind::UnknownSignature
            || e.kind == CertificateValidationErrorKind::InvalidSignature,
        r matches Err(e) ==> (e.kind == CertificateValidationErrorKind::UnknownSignature ==> verify_signature.ensures((current, issuer), None)),
        r matches Err(e) ==> (e.kind == CertificateValidationErrorKind::InvalidSignature ==> verify_signature.ensures((current, issuer), Some(false))),
{
    let verdict = verify_signature(current, issuer);
    match verdict {
        None => {
            let mut msg = String::new();
            push_text(&mut msg, "Unknown signature algorithm '");
            let oid = as_string(current.signature_oid.as_slice());
            push_text(&mut msg, oid.as_str());
            push_text(&mut msg, "' in cert with fp '");
            push_text(&mut msg, current.fingerprint.as_str());
            push_text(&mut msg, "'.");
            Err(CertificateValidationErrorKind::UnknownSignature.error_with_msg(msg.as_str()))
        },
        Some(false) => {
            let mut msg = String::new();
            push_text(&mut msg, "Unable to verify signature of cert with fp '");
            push_text(&mut msg, current.fingerprint.as_str());
            push_text(&mut msg, "' using issuer cert fp '");
            push_text(&mut msg, issuer.fingerprint.as_str());
            push_text(&mut msg, "'.");
            let self_signed = verify_signature(current, current);
            if self_signed == Some(true) {
                push_text(&mut msg, " The cert was self-signed.");
            }
            Err(CertificateValidationErrorKind::InvalidSignature.error_with_msg(msg.as_str()))
        },
        Some(true) => Ok(()),
    }
}

/// Verify the signature of every certificate below the anchor under the key
/// of the certificate above it, from the anchor down.
fn verify_signatures<F: Fn(&CertificateParser, &CertificateParser) -> Option<bool>>(
    chain: &Vec<&CertificateParser>,
    verify_signature: &F,
) -> (r: Result<(), CertificateValidationError>)
    requires
        forall|a: &CertificateParser, b: &CertificateParser| verify_signature.requires((a, b)),
    ensures
        r is Ok ==> signatures_verified(certs_of(chain@), *verify_signature),
        r is Err ==> chain@.len() >= 2,
        r matches Err(e) ==> (e.kind == CertificateValidationErrorKind::UnknownSignature ==> some_pair_gave(certs_of(chain@), *verify_signature, None)),
        r matches Err(e) ==> (e.kind == CertificateValidationErrorKind::InvalidSignature ==> some_pair_gave(certs_of(chain@), *verify_signature, Some(false))),
        r matches Err(e) ==> e.kind == CertificateValidationErrorKind::UnknownSignature
            || e.kind == CertificateValidationErrorKind::InvalidSignature,
{
    if chain.len() == 0 {
        return Ok(());
    }
    let mut i: usize = chain.len() - 1;
    while i > 0
        invariant
            i < chain@.len(),
            forall|a: &CertificateParser, b: &CertificateParser| verify_signature.requires((a, b)),
            forall|k: int| i <= k < chain@.len() - 1 ==> #[trigger] pair_verified(certs_of(chain@), *verify_signature, k),
        decreases i,
    {
        let res = check_signature(chain[i - 1], chain[i], verify_signature);
        if res.is_err() {
            proof {
                let t = certs_of(chain@);
                assert(t[i - 1] == *chain@[i - 1] && t[i as int] == *chain@[i as int]);
                assert(pair_gave(t, *verify_signature, i - 1, None) == verify_signature.ensures((chain@[i - 1], chain@[i as int]), None));
                assert(pair_gave(t, *verify_signature, i - 1, Some(false)) == verify_signature.ensures((chain@[i - 1], chain@[i as int]), Some(false)));
            }
            return res;
        }
        assert(pair_verified(certs_of(chain@), *verify_signature, i - 1));
        i -= 1;
    }
    Ok(())
}

/// The object identifiers of the critical extensions of every certificate
/// below the anchor.
fn critical_extension_oids(chain: &Vec<&CertificateParser>) -> (r: Vec<Vec<u32>>)
    ensures
        forall|o: Seq<u32>| has_oid(r@, o) <==> chain_critical(certs_of(chain@), o),
{
    let ghost t = certs_of(chain@);
    let mut r: Vec<Vec<u32>> = Vec::new();
    if chain.len() == 0 {
        return r;
    }
    let mut k: usize = 0;
    while k < chain.len() - 1
        invariant
            t == certs_of(chain@),
            chain@.len() > 0,
            k <= chain@.len() - 1,
            forall|o: Seq<u32>| has_oid(r@, o) <==> exists|j: int| 0 <= j < k && has_critical(#[trigger] t[j], o),
        decreases chain@.len() - 1 - k,
    {
        let mut more = chain[k].get_critical_extension_oids();
        let ghost a = r@;
        let ghost b = more@;
        r.append(&mut more);
        proof {
            assert(t[k as int] == *chain@[k as int]);
            assert forall|o: Seq<u32>| has_oid(r@, o) <==> exists|j: int| 0 <= j < k + 1 && has_critical(#[trigger] t[j], o) by {
                crate::parse::lemma_has_oid_concat(a, b, o);
                if exists|j: int| 0 <= j < k + 1 && has_critical(#[trigger] t[j], o) {
                    let j = choose|j: int| 0 <= j < k + 1 && has_critical(#[trigger] t[j], o);
                    if j < k {
                        assert(has_oid(a, o));
                    } else {
                        assert(has_oid(b, o));
                    }
                }
            }
        }
        k += 1;
    }
    r
}

proof fn lemma_some_handles_step(s: Seq<Checker>, i: int, o: Seq<u32>)
    requires
        0 <= i < s.len(),
    ensures
        some_handles(s.subrange(0, i + 1), o) <==> (some_handles(s.subrange(0, i), o) || s[i].handles(o)),
{
    let a = s.subrange(0, i + 1);
    let p = s.subrange(0, i);
    if some_handles(a, o) {
        let k = choose|k: int| 0 <= k < a.len() && (#[trigger] a[k]).handles(o);
        if k < i {
            assert(p[k] == a[k]);
        }
    }
    if some_handles(p, o) {
        let k = choose|k: int| 0 <= k < p.len() && (#[trigger] p[k]).handles(o);
        assert(a[k] == p[k]);
    }
    if s[i].handles(o) {
        assert(a[i] == s[i]);
    }
}

/// Run the checkers in order on the chain. On success every handled object
/// identifier has left `pending`.
fn run_checkers(
    checkers: &Vec<Checker>,
    chain: &Vec<&CertificateParser>,
    pending_in: Vec<Vec<u32>>,
) -> (r: Result<Vec<Vec<u32>>, CertificateValidationError>)
    ensures
        r is Ok ==> all_accept(checkers@, certs_of(chain@)),
        r matches Ok(p) ==> forall|o: Seq<u32>| #[trigger] has_oid(p@, o) <==> (has_oid(pending_in@, o) && !some_handles(checkers@, o)),
        r is Err ==> exists|k: int| 0 <= k < checkers@.len() && !(#[trigger] checkers@[k]).accepts(certs_of(chain@)),
        r matches Err(e) ==> e.kind == CertificateValidationErrorKind::ExtensionHandlingFailure,
{
    let ghost start = pending_in@;
    let mut pending = pending_in;
    let mut i: usize = 0;
    while i < checkers.len()
        invariant
            i <= checkers@.len(),
            forall|k: int| 0 <= k < i ==> (#[trigger] checkers@[k]).accepts(certs_of(chain@)),
            forall|o: Seq<u32>| #[trigger] has_oid(pending@, o) <==> (has_oid(start, o) && !some_handles(checkers@.subrange(0, i as int), o)),
        decreases checkers@.len() - i,
    {
        let ghost before = pending@;
        let res = checkers[i].check_extensions(chain.as_slice(), &mut pending);
        match res {
            Ok(()) => {},
            Err(e) => {
                return Err(e);
            },
        }
        proof {
            assert forall|o: Seq<u32>| #[trigger] has_oid(pending@, o) <==> (has_oid(start, o) && !some_handles(checkers@.subrange(0, i as int + 1), o)) by {
                lemma_some_handles_step(checkers@, i as int, o);
                assert(has_oid(pending@, o) <==> (has_oid(before, o) && !checkers@[i as int].handles(o)));
                assert(has_oid(before, o) <==> (has_oid(start, o) && !some_handles(checkers@.subrange(0, i as int), o)));
            }
        }
        i += 1;
    }
    assert(checkers@.subrange(0, checkers@.len() as int) =~= checkers@);
    Ok(pending)
}

} // verus!

verus! {

/// The chain is a single certificate that is itself a trust anchor.
pub open spec fn lone_anchor(anchors: Seq<CertificateParser>, cs: Seq<CertificateParser>) -> bool {
    cs.len() == 1 && is_trust_anchor(anchors, cs[0])
}

/// The chain that validation checks: a lone trust anchor as it stands;
/// otherwise the chain ordered from its only leaf and linked to an anchor.
pub open spec fn linked_chain(anchors: Seq<CertificateParser>, cs: Seq<CertificateParser>) -> Option<Seq<CertificateParser>> {
    if lone_anchor(anchors, cs) {
        Some(cs)
    } else if leaf_count(cs) == 1 && ordered_chain(cs) is Some {
        chain_with_trust(ordered_chain(cs).unwrap(), anchors)
    } else {
        None
    }
}

/// The checks before signature verification pass: every certificate is
/// valid, the chain links to an anchor, and the anchor is valid.
pub open spec fn trusted_ok(anchors: Seq<CertificateParser>, cs: Seq<CertificateParser>, at: u64) -> bool {
    all_valid_at(cs, at) && match linked_chain(anchors, cs) {
        Some(t) => t.len() > 0 && t.last().validity.spec_valid_at(at),
        None => false,
    }
}

/// The chain with its anchor (meaningful under `trusted_ok`).
pub open spec fn trusted_chain(anchors: Seq<CertificateParser>, cs: Seq<CertificateParser>) -> Seq<CertificateParser> {
    linked_chain(anchors, cs).unwrap()
}

/// Every critical extension below the anchor is handled by some checker.
pub open spec fn criticals_handled(checkers: Seq<Checker>, t: Seq<CertificateParser>) -> bool {
    forall|x: Seq<u32>| chain_critical(t, x) ==> some_handles(checkers, x)
}

/// The conditions under which validation fails with error kind `kind`.
pub open spec fn rejection_reason(
    kind: CertificateValidationErrorKind,
    anchors: Seq<CertificateParser>,
    checkers: Seq<Checker>,
    cs: Seq<CertificateParser>,
    at: u64,
) -> bool {
    match kind {
        CertificateValidationErrorKind::InvalidLifeSpan => !all_valid_at(cs, at) || (all_valid_at(cs, at)
            && linked_chain(anchors, cs) is Some && !trusted_ok(anchors, cs, at)),
        CertificateValidationErrorKind::NotOneLeaf => all_valid_at(cs, at) && !lone_anchor(anchors, cs)
            && (leaf_count(cs) != 1 || ordered_chain(cs) is None),
        CertificateValidationErrorKind::NotTrusted => all_valid_at(cs, at) && !lone_anchor(anchors, cs) && leaf_count(cs) == 1
            && ordered_chain(cs) is Some && chain_with_trust(ordered_chain(cs).unwrap(), anchors) is None,
        CertificateValidationErrorKind::UnknownSignature => trusted_ok(anchors, cs, at) && trusted_chain(anchors, cs).len() >= 2,
        CertificateValidationErrorKind::InvalidSignature => trusted_ok(anchors, cs, at) && trusted_chain(anchors, cs).len() >= 2,
        CertificateValidationErrorKind::ExtensionHandlingFailure => trusted_ok(anchors, cs, at)
            && !all_accept(checkers, trusted_chain(anchors, cs)),
        CertificateValidationErrorKind::UnhandledCriticalExtensions => trusted_ok(anchors, cs, at)
            && all_accept(checkers, trusted_chain(anchors, cs)) && !criticals_handled(checkers, trusted_chain(anchors, cs)),
        CertificateValidationErrorKind::CertificateParsingError => false,
    }
}

/// `w` occurs in `m`.
pub open spec fn contains_text(m: Seq<char>, w: Seq<char>) -> bool {
    exists|a: int| #[trigger] occurs_at(m, w, a)
}

/// `w` occurs in `m` at position `a`.
pub open spec fn occurs_at(m: Seq<char>, w: Seq<char>, a: int) -> bool {
    0 <= a && a + w.len() <= m.len() && m.subrange(a, a + w.len()) == w
}

proof fn lemma_contains_text_extend(m: Seq<char>, z: Seq<char>, w: Seq<char>)
    requires
        contains_text(m, w),
    ensures
        contains_text(m + z, w),
{
    let a = choose|a: int| occurs_at(m, w, a);
    assert((m + z).subrange(a, a + w.len()) =~= m.subrange(a, a + w.len()));
    assert(occurs_at(m + z, w, a));
}

/// The check of certificate `k` against certificate `k + 1` gave `verdict`.
pub open spec fn pair_gave<F: Fn(&CertificateParser, &CertificateParser) -> Option<bool>>(
    t: Seq<CertificateParser>,
    f: F,
    k: int,
    verdict: Option<bool>,
) -> bool {
    f.ensures((&t[k], &t[k + 1]), verdict)
}

/// Some check of a certificate against the one above it gave `verdict`.
pub open spec fn some_pair_gave<F: Fn(&CertificateParser, &CertificateParser) -> Option<bool>>(
    t: Seq<CertificateParser>,
    f: F,
    verdict: Option<bool>,
) -> bool {
    exists|k: int| 0 <= k < t.len() - 1 && #[trigger] pair_gave(t, f, k, verdict)
}

proof fn lemma_chain_with_trust_nonempty(o: Seq<CertificateParser>, anchors: Seq<CertificateParser>)
    requires
        chain_with_trust(o, anchors) is Some,
    ensures
        chain_with_trust(o, anchors).unwrap().len() > 0,
{
}

proof fn lemma_all_accept_concat(a: Seq<Checker>, b: Seq<Checker>, t: Seq<CertificateParser>)
    ensures
        all_accept(a + b, t) <==> (all_accept(a, t) && all_accept(b, t)),
{
    if all_accept(a + b, t) {
        assert forall|k: int| 0 <= k < a.len() implies (#[trigger] a[k]).accepts(t) by {
            assert((a + b)[k] == a[k]);
        }
        assert forall|k: int| 0 <= k < b.len() implies (#[trigger] b[k]).accepts(t) by {
            assert((a + b)[k + a.len()] == b[k]);
        }
    }
    if all_accept(a, t) && all_accept(b, t) {
        assert forall|k: int| 0 <= k < (a + b).len() implies (#[trigger] (a + b)[k]).accepts(t) by {
            if k < a.len() {
                assert((a + b)[k] == a[k]);
            } else {
                assert((a + b)[k] == b[k - a.len()]);
            }
        }
    }
}

proof fn lemma_some_handles_concat(a: Seq<Checker>, b: Seq<Checker>, x: Seq<u32>)
    ensures
        some_handles(a + b, x) <==> (some_handles(a, x) || some_handles(b, x)),
{
    if some_handles(a + b, x) {
        let k = choose|k: int| 0 <= k < (a + b).len() && (#[trigger] (a + b)[k]).handles(x);
        if k < a.len() {
            assert((a + b)[k] == a[k]);
        } else {
            assert((a + b)[k] == b[k - a.len()]);
        }
    }
    if some_handles(a, x) {
        let k = choose|k: int| 0 <= k < a.len() && (#[trigger] a[k]).handles(x);
        assert((a + b)[k] == a[k]);
    }
    if some_handles(b, x) {
        let k = choose|k: int| 0 <= k < b.len() && (#[trigger] b[k]).handles(x);
        assert((a + b)[k + a.len()] == b[k]);
    }
}

impl CertificatePathValidator {
    /// Order and validate an unordered chain of parsed certificates at time
    /// `at_epoch_seconds`. `verify_signature(cert, issuer)` reports whether
    /// `cert`'s signature verifies under `issuer`'s key (`None` for an unknown
    /// algorithm). The validator's checkers run first, then
    /// `additional_extension_checkers`.
    pub fn validate_parsed<F: Fn(&CertificateParser, &CertificateParser) -> Option<bool>>(
        &self,
        certificates: Vec<CertificateParser>,
        at_epoch_seconds: u64,
        additional_extension_checkers: Vec<Checker>,
        verify_signature: F,
    ) -> (r: Result<(), CertificateValidationError>)
        requires
            forall|a: &CertificateParser, b: &CertificateParser| verify_signature.requires((a, b)),
        ensures
            r matches Err(e) ==> rejection_reason(e.kind, self.trust_anchors@,
                self.extension_checkers@ + additional_extension_checkers@, certificates@, at_epoch_seconds),
            !all_valid_at(certificates@, at_epoch_seconds) ==> (r matches Err(e) && e.kind == CertificateValidationErrorKind::InvalidLifeSpan),
            r is Ok ==> trusted_ok(self.trust_anchors@, certificates@, at_epoch_seconds),
            r is Ok ==> signatures_verified(trusted_chain(self.trust_anchors@, certificates@), verify_signature),
            r is Ok ==> all_accept(self.extension_checkers@ + additional_extension_checkers@, trusted_chain(self.trust_anchors@, certificates@)),
            r is Ok ==> criticals_handled(self.extension_checkers@ + additional_extension_checkers@, trusted_chain(self.trust_anchors@, certificates@)),
            r matches Err(e) ==> (e.kind == CertificateValidationErrorKind::UnhandledCriticalExtensions ==> (e.msg matches Some(m)
                && forall|x: Seq<u32>| chain_critical(trusted_chain(self.trust_anchors@, certificates@), x)
                    && !some_handles(self.extension_checkers@ + additional_extension_checkers@, x) ==> #[trigger] contains_text(m@, crate::oid::oid_text(x)))),
            r matches Err(e) ==> (e.kind == CertificateValidationErrorKind::UnknownSignature
                ==> some_pair_gave(trusted_chain(self.trust_anchors@, certificates@), verify_signature, None)),
            r matches Err(e) ==> (e.kind == CertificateValidationErrorKind::InvalidSignature
                ==> some_pair_gave(trusted_chain(self.trust_anchors@, certificates@), verify_signature, Some(false))),
            lone_anchor(self.trust_anchors@, certificates@) && all_valid_at(certificates@, at_epoch_seconds)
                && all_accept(self.extension_checkers@ + additional_extension_checkers@, certificates@) ==> r is Ok,
    {
        let ghost cs = certificates@;
        let ghost anchors = self.trust_anchors@;
        let ghost all_checkers = self.extension_checkers@ + additional_extension_checkers@;
        if !all_valid(&certificates, at_epoch_seconds) {
            return Err(CertificateValidationErrorKind::InvalidLifeSpan.error_with_msg("Certificate is not valid at this point in time."));
        }
        let lone = certificates.len() == 1 && self.is_anchor(&certificates[0]);
        let ordered = if lone {
            certificates
        } else {
            let leaf = match find_leaf(&certificates) {
                Some(i) => i,
                None => {
                    return Err(CertificateValidationErrorKind::NotOneLeaf.error_with_msg("Not exactly one leaf certificate detected."));
                },
            };
            assert(first_leaf_from(cs, 0) == leaf);
            match order_chain(certificates, leaf) {
                Ok(o) => o,
                Err(e) => {
                    assert(ordered_chain(cs) is None);
                    return Err(e);
                },
            }
        };
        assert(lone == lone_anchor(anchors, cs));
        assert(lone ==> ordered@ == cs);
        assert(!lone ==> ordered_chain(cs) == Some(ordered@) && leaf_count(cs) == 1);
        let chain = if lone {
            let c = refs_prefix(&ordered, 1);
            assert(ordered@.subrange(0, 1) =~= ordered@);
            c
        } else {
            match self.attach_trust(&ordered) {
                Some(c) => c,
                None => {
                    return Err(CertificateValidationErrorKind::NotTrusted.error());
                },
            }
        };
        assert(linked_chain(anchors, cs) == Some(certs_of(chain@)));
        let ghost t = certs_of(chain@);
        proof {
            if !lone {
                lemma_chain_with_trust_nonempty(ordered@, anchors);
            }
            assert(t.len() == chain@.len());
        }
        let anchor = chain[chain.len() - 1];
        assert(*anchor == t.last());
        if !anchor.validity.is_valid_at(at_epoch_seconds) {
            return Err(CertificateValidationErrorKind::InvalidLifeSpan.error_with_msg("Matching trust anchor is not valid at this point in time."));
        }
        assert(trusted_ok(anchors, cs, at_epoch_seconds));
        assert(trusted_chain(anchors, cs) == t);
        match verify_signatures(&chain, &verify_signature) {
            Ok(()) => {},
            Err(e) => {
                return Err(e);
            },
        }
        let critical = critical_extension_oids(&chain);
        let ghost initial = critical@;
        let middle_pending = match run_checkers(&self.extension_checkers, &chain, critical) {
            Ok(p) => p,
            Err(e) => {
                proof {
                    lemma_all_accept_concat(self.extension_checkers@, additional_extension_checkers@, t);
                }
                return Err(e);
            },
        };
        let ghost middle = middle_pending@;
        let pending = match run_checkers(&additional_extension_checkers, &chain, middle_pending) {
            Ok(p) => p,
            Err(e) => {
                proof {
                    lemma_all_accept_concat(self.extension_checkers@, additional_extension_checkers@, t);
                }
                return Err(e);
            },
        };
        proof {
            lemma_all_accept_concat(self.extension_checkers@, additional_extension_checkers@, t);
            assert forall|x: Seq<u32>| has_oid(pending@, x) <==> (chain_critical(t, x) && !some_handles(all_checkers, x)) by {
                lemma_some_handles_concat(self.extension_checkers@, additional_extension_checkers@, x);
                assert(has_oid(pending@, x) <==> (has_oid(middle, x) && !some_handles(additional_extension_checkers@, x)));
                assert(has_oid(middle, x) <==> (has_oid(initial, x) && !some_handles(self.extension_checkers@, x)));
                assert(has_oid(initial, x) <==> chain_critical(t, x));
            }
        }
        if pending.len() > 0 {
            let mut msg = String::new();
            push_text(&mut msg, "unhandled critical extensions:");
            let mut i: usize = 0;
            while i < pending.len()
                invariant
                    i <= pending@.len(),
                    forall|k: int| 0 <= k < i ==> contains_text(msg@, crate::oid::oid_text((#[trigger] pending@[k])@)),
                decreases pending@.len() - i,
            {
                let ghost before = msg@;
                push_text(&mut msg, " ");
                let text = as_string(pending[i].as_slice());
                let ghost mid = msg@;
                push_text(&mut msg, text.as_str());
                proof {
                    assert forall|k: int| 0 <= k < i + 1 implies contains_text(msg@, crate::oid::oid_text((#[trigger] pending@[k])@)) by {
                        if k < i {
                            lemma_contains_text_extend(before, msg@.subrange(before.len() as int, msg@.len() as int), crate::oid::oid_text(pending@[k]@));
                            assert(before + msg@.subrange(before.len() as int, msg@.len() as int) =~= msg@);
                        } else {
                            assert(msg@.subrange(mid.len() as int, (mid.len() + text@.len()) as int) =~= text@);
                            assert(occurs_at(msg@, text@, mid.len() as int));
                        }
                    }
                }
                i += 1;
            }
            proof {
                let x = pending@[0]@;
                assert(has_oid(pending@, x));
                assert(chain_critical(t, x) && !some_handles(all_checkers, x));
            }
            return Err(CertificateValidationErrorKind::UnhandledCriticalExtensions.error_with_msg(msg.as_str()));
        }
        proof {
            assert forall|x: Seq<u32>| chain_critical(t, x) implies some_handles(all_checkers, x) by {
                if !some_handles(all_checkers, x) {
                    assert(has_oid(pending@, x));
                }
            }
        }
        Ok(())
    }
}

} // verus!

verus! {

/// Each certificate's subject is the wanted one and its issuer is wanted
/// next.
pub open spec fn linked(o: Seq<CertificateParser>, subject: Seq<u8>) -> bool
    decreases o.len(),
{
    o.len() == 0 || (o[0].subject_der@ == subject && linked(o.drop_first(), o[0].issuer_der@))
}

proof fn lemma_find_subject_found(cs: Seq<CertificateParser>, subject: Seq<u8>, i: int)
    requires
        0 <= i,
        0 <= find_subject_from(cs, subject, i) < cs.len(),
    ensures
        cs[find_subject_from(cs, subject, i)].subject_der@ == subject,
    decreases cs.len() - i,
{
    if i < cs.len() && cs[i].subject_der@ != subject {
        lemma_find_subject_found(cs, subject, i + 1);
    }
}

proof fn lemma_order_steps_linked(cs: Seq<CertificateParser>, subject: Seq<u8>, n: nat)
    requires
        n <= cs.len(),
        order_steps(cs, subject, n) is Some,
    ensures
        linked(order_steps(cs, subject, n).unwrap(), subject),
        order_steps(cs, subject, n).unwrap().len() == n,
    decreases n,
{
    if n > 0 {
        let k = find_subject_from(cs, subject, 0);
        lemma_find_subject_found(cs, subject, 0);
        let rest_in = cs.remove(k);
        lemma_order_steps_linked(rest_in, cs[k].issuer_der@, (n - 1) as nat);
        let rest = order_steps(rest_in, cs[k].issuer_der@, (n - 1) as nat).unwrap();
        let o = seq![cs[k]] + rest;
        assert(o.drop_first() =~= rest);
    }
}

proof fn lemma_linked_orders_to_itself(o: Seq<CertificateParser>, subject: Seq<u8>)
    requires
        linked(o, subject),
    ensures
        order_steps(o, subject, o.len()) == Some(o),
    decreases o.len(),
{
    if o.len() > 0 {
        assert(find_subject_from(o, subject, 0) == 0);
        assert(o.remove(0) =~= o.drop_first());
        lemma_linked_orders_to_itself(o.drop_first(), o[0].issuer_der@);
        assert(seq![o[0]] + o.drop_first() =~= o);
    }
}

/// Ordering is stable: ordering the result of an ordering, from the same
/// starting subject, gives that result back. So a chain presented out of
/// order yields the same chain as the already ordered one.
pub proof fn lemma_reordering_is_stable(cs: Seq<CertificateParser>, subject: Seq<u8>)
    requires
        order_steps(cs, subject, cs.len()) is Some,
    ensures
        order_steps(order_steps(cs, subject, cs.len()).unwrap(), subject, cs.len())
            == order_steps(cs, subject, cs.len()),
{
    lemma_order_steps_linked(cs, subject, cs.len());
    lemma_linked_orders_to_itself(order_steps(cs, subject, cs.len()).unwrap(), subject);
}

proof fn lemma_first_linked_at(o: Seq<CertificateParser>, anchors: Seq<CertificateParser>, p: int, i: int)
    requires
        0 <= i <= p < o.len(),
        is_trust_anchor(anchors, o[p]),
        forall|j: int| 0 <= j < p ==> !linked_to_anchor(anchors, #[trigger] o[j]),
    ensures
        first_linked_from(o, anchors, i) == p,
    decreases p - i,
{
    if i < p {
        lemma_first_linked_at(o, anchors, p, i + 1);
    }
}

/// A trust anchor inside the ordered chain, with no earlier certificate
/// linked to an anchor, is found at its position; the certificates after it
/// are dropped and the anchor ends the chain.
pub proof fn lemma_anchor_inside_chain(o: Seq<CertificateParser>, anchors: Seq<CertificateParser>, p: int)
    requires
        0 <= p < o.len(),
        is_trust_anchor(anchors, o[p]),
        forall|j: int| 0 <= j < p ==> !linked_to_anchor(anchors, #[trigger] o[j]),
    ensures
        chain_with_trust(o, anchors) == Some(o.subrange(0, p + 1)),
{
    lemma_first_linked_at(o, anchors, p, 0);
}

/// A chain of one certificate that is itself a trust anchor and is valid at
/// time `at` is rejected for no reason other than a checker's: it is trusted
/// as it stands and no signature is checked.
pub proof fn lemma_lone_trust_anchor(
    anchors: Seq<CertificateParser>,
    checkers: Seq<Checker>,
    c: CertificateParser,
    at: u64,
    kind: CertificateValidationErrorKind,
)
    requires
        is_trust_anchor(anchors, c),
        c.validity.spec_valid_at(at),
        all_accept(checkers, seq![c]),
    ensures
        linked_chain(anchors, seq![c]) == Some(seq![c]),
        !rejection_reason(kind, anchors, checkers, seq![c], at),
{
    let cs = seq![c];
    assert(lone_anchor(anchors, cs));
    assert(all_valid_at(cs, at));
    assert(trusted_chain(anchors, cs) == cs);
    assert(criticals_handled(checkers, cs));
}

/// A CA whose path length is zero sits directly above the leaf: anywhere
/// higher in the chain, the Basic Constraints checker rejects the chain.
pub proof fn lemma_path_len_zero_forbids_intermediates(chain: Seq<CertificateParser>, i: int)
    requires
        2 <= i < chain.len(),
        chain[i].basic_constraints == Some(crate::basic_constraints::BasicConstraints { ca: true, path_len: Some(0) }),
    ensures
        !(BasicConstraintsChecker {  }).accepts(chain),
{
    assert(!ca_with_sufficient_path_len(chain[i].basic_constraints, (i - 1) as nat));
}

/// A successful validation leaves no critical extension unresolved: every
/// critical extension of a certificate below the anchor is handled by one of
/// the checkers that ran.
pub proof fn lemma_accepted_chain_resolves_criticals(
    anchors: Seq<CertificateParser>,
    checkers: Seq<Checker>,
    cs: Seq<CertificateParser>,
    at: u64,
    x: Seq<u32>,
)
    requires
        trusted_ok(anchors, cs, at),
        !rejection_reason(CertificateValidationErrorKind::UnhandledCriticalExtensions, anchors, checkers, cs, at),
        !rejection_reason(CertificateValidationErrorKind::ExtensionHandlingFailure, anchors, checkers, cs, at),
        chain_critical(trusted_chain(anchors, cs), x),
    ensures
        some_handles(checkers, x),
{
}

} // verus!

verus! {

/// The certificate that `der` encodes is valid at `t`, both ends included.
pub open spec fn valid_at_der(der: Seq<u8>, t: u64) -> bool {
    match crate::der::validity_of(der) {
        Some((a, b)) => a <= t && t <= b,
        None => false,
    }
}

/// Each certificate was parsed from the corresponding encoding.
pub open spec fn parsed_from(cs: Seq<CertificateParser>, ders: Seq<Vec<u8>>) -> bool {
    cs.len() == ders.len() && forall|i: int| 0 <= i < cs.len() ==> crate::parse::parsed_certificate(#[trigger] cs[i], ders[i]@)
}

fn parse_all(ders: &Vec<Vec<u8>>) -> (r: Result<Vec<CertificateParser>, CertificateValidationError>)
    ensures
        r matches Ok(cs) ==> parsed_from(cs@, ders@),
        r is Ok <==> forall|i: int| 0 <= i < ders@.len() ==> crate::parse::parses(#[trigger] ders@[i]@),
        r matches Err(e) ==> e.kind == CertificateValidationErrorKind::CertificateParsingError,
{
    let mut cs: Vec<CertificateParser> = Vec::new();
    let mut i: usize = 0;
    while i < ders.len()
        invariant
            i <= ders@.len(),
            parsed_from(cs@, ders@.subrange(0, i as int)),
            forall|k: int| 0 <= k < i ==> crate::parse::parses(#[trigger] ders@[k]@),
        decreases ders@.len() - i,
    {
        match CertificateParser::from_bytes(ders[i].as_slice()) {
            Ok(c) => {
                cs.push(c);
            },
            Err(e) => {
                assert(!crate::parse::parses(ders@[i as int]@));
                let mut msg = String::new();
                push_text(&mut msg, "Certificate does not parse.");
                match &e.msg {
                    Some(m) => {
                        push_text(&mut msg, " ");
                        push_text(&mut msg, m.as_str());
                    },
                    None => {},
                }
                return Err(CertificateValidationErrorKind::CertificateParsingError.error_with_msg(msg.as_str()));
            },
        }
        proof {
            let p = ders@.subrange(0, i as int + 1);
            assert forall|k: int| 0 <= k < cs@.len() implies crate::parse::parsed_certificate(#[trigger] cs@[k], p[k]@) by {
                if k < i {
                    assert(p[k] == ders@.subrange(0, i as int)[k]);
                }
            }
        }
        i += 1;
    }
    assert(ders@.subrange(0, ders@.len() as int) =~= ders@);
    Ok(cs)
}

impl CertificatePathValidator {
    /// Create a validator from DER encoded trust anchors, with no checkers.
    pub fn new(trusted_anchors_der: Vec<Vec<u8>>) -> (r: Result<Self, CertificateValidationError>)
        ensures
            r is Ok <==> forall|i: int| 0 <= i < trusted_anchors_der@.len() ==> crate::parse::parses(#[trigger] trusted_anchors_der@[i]@),
            r matches Ok(v) ==> parsed_from(v.trust_anchors@, trusted_anchors_der@) && v.extension_checkers@.len() == 0,
            r matches Err(e) ==> e.kind == CertificateValidationErrorKind::CertificateParsingError,
    {
        let anchors = parse_all(&trusted_anchors_der)?;
        Ok(Self::from_trust_anchors(anchors))
    }

    /// Parse, order and validate a DER encoded chain at time
    /// `at_epoch_seconds`; see [Self::validate_parsed]. A certificate that does
    /// not parse fails with `CertificateParsingError`.
    pub fn validate<F: Fn(&CertificateParser, &CertificateParser) -> Option<bool>>(
        &self,
        leaf_certificate_chain_der: Vec<Vec<u8>>,
        at_epoch_seconds: u64,
        additional_extension_checkers: Vec<Checker>,
        verify_signature: F,
    ) -> (r: Result<(), CertificateValidationError>)
        requires
            forall|a: &CertificateParser, b: &CertificateParser| verify_signature.requires((a, b)),
        ensures
            r matches Err(e) ==> (e.kind == CertificateValidationErrorKind::CertificateParsingError <==>
                exists|i: int| 0 <= i < leaf_certificate_chain_der@.len() && !crate::parse::parses(#[trigger] leaf_certificate_chain_der@[i]@)),
            r matches Err(e) ==> e.kind == CertificateValidationErrorKind::CertificateParsingError || exists|cs: Seq<CertificateParser>|
                parsed_from(cs, leaf_certificate_chain_der@) && rejection_reason(e.kind, self.trust_anchors@,
                self.extension_checkers@ + additional_extension_checkers@, cs, at_epoch_seconds),
            r matches Err(e) ==> (e.kind == CertificateValidationErrorKind::UnknownSignature ==> exists|cs: Seq<CertificateParser>|
                parsed_from(cs, leaf_certificate_chain_der@) && some_pair_gave(trusted_chain(self.trust_anchors@, cs), verify_signature, None)),
            r matches Err(e) ==> (e.kind == CertificateValidationErrorKind::InvalidSignature ==> exists|cs: Seq<CertificateParser>|
                parsed_from(cs, leaf_certificate_chain_der@) && some_pair_gave(trusted_chain(self.trust_anchors@, cs), verify_signature, Some(false))),
            (forall|i: int| 0 <= i < leaf_certificate_chain_der@.len() ==> crate::parse::parses(#[trigger] leaf_certificate_chain_der@[i]@))
                && (exists|i: int| 0 <= i < leaf_certificate_chain_der@.len() && !valid_at_der(#[trigger] leaf_certificate_chain_der@[i]@, at_epoch_seconds))
                ==> (r matches Err(e) && e.kind == CertificateValidationErrorKind::InvalidLifeSpan),
            r is Ok ==> exists|cs: Seq<CertificateParser>| parsed_from(cs, leaf_certificate_chain_der@)
                && trusted_ok(self.trust_anchors@, cs, at_epoch_seconds)
                && signatures_verified(trusted_chain(self.trust_anchors@, cs), verify_signature)
                && all_accept(self.extension_checkers@ + additional_extension_checkers@, trusted_chain(self.trust_anchors@, cs))
                && criticals_handled(self.extension_checkers@ + additional_extension_checkers@, trusted_chain(self.trust_anchors@, cs)),
    {
        let certificates = parse_all(&leaf_certificate_chain_der)?;
        let ghost cs = certificates@;
        proof {
            if exists|i: int| 0 <= i < leaf_certificate_chain_der@.len() && !valid_at_der(#[trigger] leaf_certificate_chain_der@[i]@, at_epoch_seconds) {
                let i = choose|i: int| 0 <= i < leaf_certificate_chain_der@.len() && !valid_at_der(#[trigger] leaf_certificate_chain_der@[i]@, at_epoch_seconds);
                assert(crate::parse::parsed_certificate(cs[i], leaf_certificate_chain_der@[i]@));
                assert(!cs[i].validity.spec_valid_at(at_epoch_seconds));
            }
        }
        let r = self.validate_parsed(certificates, at_epoch_seconds, additional_extension_checkers, verify_signature);
        r
    }
}

} // verus!

verus! {

proof fn lemma_first_leaf_is_leaf(cs: Seq<CertificateParser>, i: int)
    requires
        0 <= i,
    ensures
        first_leaf_from(cs, i) == -1 || (i <= first_leaf_from(cs, i) < cs.len() && is_leaf_cert(cs[first_leaf_from(cs, i)])),
        (exists|j: int| i <= j < cs.len() && is_leaf_cert(#[trigger] cs[j])) ==> first_leaf_from(cs, i) != -1,
    decreases cs.len() - i,
{
    if i < cs.len() && !is_leaf_cert(cs[i]) {
        lemma_first_leaf_is_leaf(cs, i + 1);
        if exists|j: int| i <= j < cs.len() && is_leaf_cert(#[trigger] cs[j]) {
            let j = choose|j: int| i <= j < cs.len() && is_leaf_cert(#[trigger] cs[j]);
            assert(j != i);
        }
    }
}

proof fn lemma_leaf_counted(cs: Seq<CertificateParser>, i: int)
    requires
        0 <= i < cs.len(),
        is_leaf_cert(cs[i]),
    ensures
        leaf_count(cs) >= 1,
    decreases cs.len(),
{
    if i < cs.len() - 1 {
        assert(cs.drop_last()[i] == cs[i]);
        lemma_leaf_counted(cs.drop_last(), i);
    }
}

proof fn lemma_one_leaf_unique(cs: Seq<CertificateParser>, i: int, j: int)
    requires
        leaf_count(cs) == 1,
        0 <= i < cs.len(),
        0 <= j < cs.len(),
        is_leaf_cert(cs[i]),
        is_leaf_cert(cs[j]),
    ensures
        i == j,
    decreases cs.len(),
{
    let last = cs.len() - 1;
    if i != j {
        if i == last || j == last {
            let other = if i == last { j } else { i };
            assert(cs.drop_last()[other] == cs[other]);
            lemma_leaf_counted(cs.drop_last(), other);
        } else {
            assert(cs.drop_last()[i] == cs[i]);
            assert(cs.drop_last()[j] == cs[j]);
            lemma_leaf_counted(cs.drop_last(), i);
            if is_leaf_cert(cs.last()) {
            } else {
                lemma_one_leaf_unique(cs.drop_last(), i, j);
            }
        }
    }
}

proof fn lemma_order_steps_permutes(cs: Seq<CertificateParser>, subject: Seq<u8>, n: nat)
    requires
        n == cs.len(),
        order_steps(cs, subject, n) is Some,
    ensures
        order_steps(cs, subject, n).unwrap().to_multiset() == cs.to_multiset(),
    decreases n,
{
    broadcast use vstd::seq_lib::group_to_multiset_ensures;

    if n == 0 {
        assert(cs =~= Seq::<CertificateParser>::empty());
        assert(order_steps(cs, subject, n).unwrap() =~= Seq::<CertificateParser>::empty());
    } else {
        let k = find_subject_from(cs, subject, 0);
        let rest_in = cs.remove(k);
        lemma_order_steps_permutes(rest_in, cs[k].issuer_der@, (n - 1) as nat);
        let rest = order_steps(rest_in, cs[k].issuer_der@, (n - 1) as nat).unwrap();
        vstd::seq_lib::to_multiset_remove(cs, k);
        vstd::seq_lib::lemma_multiset_commutative(seq![cs[k]], rest);
        assert(seq![cs[k]].to_multiset() =~= vstd::multiset::Multiset::<CertificateParser>::empty().insert(cs[k])) by {
            vstd::seq_lib::to_multiset_build(Seq::<CertificateParser>::empty(), cs[k]);
            assert(Seq::<CertificateParser>::empty().push(cs[k]) =~= seq![cs[k]]);
            assert(Seq::<CertificateParser>::empty().to_multiset() =~= vstd::multiset::Multiset::<CertificateParser>::empty());
        }
        assert(cs.to_multiset().count(cs[k]) > 0) by {
            vstd::seq_lib::to_multiset_contains(cs, cs[k]);
            assert(cs.contains(cs[k]));
        }
        assert((seq![cs[k]] + rest).to_multiset() =~= cs.to_multiset());
    }
}

/// Ordering is stable on a chain with one leaf: ordering the ordered chain
/// gives it back, so a chain presented out of order validates exactly as
/// the same chain presented in order.
pub proof fn lemma_ordering_is_stable(cs: Seq<CertificateParser>)
    requires
        leaf_count(cs) == 1,
        ordered_chain(cs) is Some,
    ensures
        ordered_chain(ordered_chain(cs).unwrap()) == ordered_chain(cs),
{
    let l = first_leaf_from(cs, 0);
    lemma_first_leaf_is_leaf(cs, 0);
    let s = cs[l].subject_der@;
    let o = ordered_chain(cs).unwrap();
    lemma_order_steps_linked(cs, s, cs.len());
    lemma_order_steps_permutes(cs, s, cs.len());
    vstd::seq_lib::to_multiset_contains(cs, cs[l]);
    vstd::seq_lib::to_multiset_contains(o, cs[l]);
    assert(cs.contains(cs[l]));
    assert(o.contains(cs[l]));
    let m = choose|m: int| 0 <= m < o.len() && o[m] == cs[l];
    lemma_first_leaf_is_leaf(o, 0);
    let l2 = first_leaf_from(o, 0);
    assert(is_leaf_cert(o[m]));
    assert(0 <= l2 < o.len() && is_leaf_cert(o[l2]));
    vstd::seq_lib::to_multiset_contains(o, o[l2]);
    vstd::seq_lib::to_multiset_contains(cs, o[l2]);
    assert(o.contains(o[l2]));
    let p = choose|p: int| 0 <= p < cs.len() && cs[p] == o[l2];
    lemma_one_leaf_unique(cs, p, l);
    assert(o[l2] == cs[l]);
    lemma_linked_orders_to_itself(o, s);
    vstd::seq_lib::to_multiset_len(o);
    vstd::seq_lib::to_multiset_len(cs);
}

} // verus!
