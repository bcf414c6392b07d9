//! CRL Distribution Points: one full-name URI for all reasons, issued by the
//! certificate's issuer.
use vstd::prelude::*;
use crate::der;
use crate::general_name::GeneralNameValue;
use crate::text::{chars_of, string_of};

verus! {

/// `a` sorts before `b`, character by character.
pub open spec fn text_lt(a: Seq<char>, b: Seq<char>) -> bool
    decreases a.len(),
{
    if a.len() == 0 {
        b.len() > 0
    } else if b.len() == 0 {
        false
    } else if a[0] != b[0] {
        (a[0] as u32) < (b[0] as u32)
    } else {
        text_lt(a.drop_first(), b.drop_first())
    }
}

/// `g` is the URI `u`.
pub open spec fn is_uri_with(g: GeneralNameValue, u: Seq<char>) -> bool {
    g matches GeneralNameValue::Uri(t) && t@ == u
}

/// `g` is no URI that sorts before `u`.
pub open spec fn not_uri_before(g: GeneralNameValue, u: Seq<char>) -> bool {
    g matches GeneralNameValue::Uri(t) ==> !text_lt(t@, u)
}

fn less_than(a: &Vec<char>, b: &Vec<char>) -> (r: bool)
    ensures
        r == text_lt(a@, b@),
{
    let mut i: usize = 0;
    assert(a@.subrange(0, a@.len() as int) =~= a@);
    assert(b@.subrange(0, b@.len() as int) =~= b@);
    while i < a.len() && i < b.len() && a[i] == b[i]
        invariant
            i <= a@.len(),
            i <= b@.len(),
            text_lt(a@, b@) == text_lt(a@.subrange(i as int, a@.len() as int), b@.subrange(i as int, b@.len() as int)),
        decreases a@.len() - i,
    {
        proof {
            let x = a@.subrange(i as int, a@.len() as int);
            let y = b@.subrange(i as int, b@.len() as int);
            assert(x.drop_first() =~= a@.subrange(i + 1, a@.len() as int));
            assert(y.drop_first() =~= b@.subrange(i + 1, b@.len() as int));
        }
        i += 1;
    }
    let ghost x = a@.subrange(i as int, a@.len() as int);
    let ghost y = b@.subrange(i as int, b@.len() as int);
    if i == a.len() {
        assert(x.len() == 0);
        i < b.len()
    } else if i == b.len() {
        assert(y.len() == 0);
        false
    } else {
        assert(x[0] == a@[i as int] && y[0] == b@[i as int]);
        (a[i] as u32) < (b[i] as u32)
    }
}

/// CRL Distribution Point of a certificate being built.
pub struct CrlDistributionPoint {}

impl CrlDistributionPoint {
    /// Return the DER of CRLDistributionPoints with one point: the full-name
    /// URI `cdp_uri` for all reasons, with no CRL issuer (the certificate's
    /// issuer issues the CRL). `None` when the URI is not IA5 text.
    pub fn to_rasn_type(cdp_uri: &str) -> (r: Option<Vec<u8>>)
        ensures
            r matches Some(b) ==> b@ == der::der_distribution_points(seq![(Some(seq![cdp_uri@]), None, None)]),
            r is Some <==> crate::attributes::fits_alphabet(crate::attributes::Asn1EncodingType::IA5String, cdp_uri@),
    {
        let points = vec![(Some(vec![cdp_uri.to_owned()]), None, None)];
        proof {
            let v = der::distribution_points_view(points@);
            assert(v =~= seq![(Some(seq![cdp_uri@]), None::<Seq<bool>>, None::<Seq<Seq<char>>>)]) by {
                assert(points@[0].0.unwrap()@.map_values(|x: String| x@) =~= seq![cdp_uri@]);
            }
            assert(der::uris_ia5(Some(seq![cdp_uri@])) == crate::attributes::fits_alphabet(crate::attributes::Asn1EncodingType::IA5String, cdp_uri@)) by {
                if crate::attributes::fits_alphabet(crate::attributes::Asn1EncodingType::IA5String, cdp_uri@) {
                    assert forall|j: int| 0 <= j < 1 implies crate::attributes::fits_alphabet(crate::attributes::Asn1EncodingType::IA5String, #[trigger] seq![cdp_uri@][j]) by {}
                } else {
                    assert(seq![cdp_uri@][0] == cdp_uri@);
                }
            }
            assert(v.len() == 1);
            assert(der::uris_ia5(v[0].2));
            assert(v[0].0 == Some(seq![cdp_uri@]));
            if crate::attributes::fits_alphabet(crate::attributes::Asn1EncodingType::IA5String, cdp_uri@) {
                assert forall|i: int| 0 <= i < points@.len() implies der::uris_ia5((#[trigger] der::distribution_points_view(points@)[i]).0)
                    && der::uris_ia5(der::distribution_points_view(points@)[i].2) by {
                    assert(i == 0);
                }
            }
        }
        der::encode_distribution_points(&points)
    }

    /// Of the URIs among wire names, the one that sorts first (so `http`
    /// comes before `ldap`).
    pub fn first_uri(names: &Vec<GeneralNameValue>) -> (r: Option<String>)
        ensures
            r is None ==> forall|i: int| 0 <= i < names@.len() ==> !(#[trigger] names@[i] is Uri),
            r matches Some(u) ==> exists|i: int| 0 <= i < names@.len() && is_uri_with(#[trigger] names@[i], u@),
            r matches Some(u) ==> forall|i: int| 0 <= i < names@.len() ==> not_uri_before(#[trigger] names@[i], u@),
    {
        let mut best: Option<Vec<char>> = None;
        let mut i: usize = 0;
        while i < names.len()
            invariant
                i <= names@.len(),
                best is None ==> forall|k: int| 0 <= k < i ==> !(#[trigger] names@[k] is Uri),
                best matches Some(b) ==> exists|k: int| 0 <= k < i && is_uri_with(#[trigger] names@[k], b@),
                best matches Some(b) ==> forall|k: int| 0 <= k < i ==> not_uri_before(#[trigger] names@[k], b@),
            decreases names@.len() - i,
        {
            match &names[i] {
                GeneralNameValue::Uri(t) => {
                    let c = chars_of(t.as_str());
                    let replace = match &best {
                        None => true,
                        Some(b) => less_than(&c, b),
                    };
                    if replace {
                        proof {
                            lemma_text_lt_irreflexive(c@);
                            if best is Some {
                                lemma_text_lt_transitive_guard(c@, best.unwrap()@);
                            }
                        }
                        best = Some(c);
                    }
                },
                _ => {},
            }
            i += 1;
        }
        match best {
            Some(b) => Some(string_of(b.as_slice())),
            None => None,
        }
    }

    /// Return the URI of a CRL that the certificate's issuer issues for all
    /// reasons, from the DER of CRLDistributionPoints: the first point
    /// without reasons and without CRL issuer that names a URI, and of its
    /// URIs the one that sorts first. `None` when there is none or the value
    /// does not decode.
    pub fn from_rasn_type(cdps: &[u8]) -> (r: Option<String>)
        ensures
            der::distribution_points_of_der(cdps@) is None ==> r is None,
            r is Some ==> der::distribution_points_of_der(cdps@) is Some,
            r matches Some(u) ==> offered_first(der::distribution_points_of_der(cdps@).unwrap(), u@),
            r is None ==> (der::distribution_points_of_der(cdps@) matches Some(ps) ==> forall|k: int| 0 <= k < ps.len() ==> !point_has_uri(#[trigger] ps[k])),
    {
        let points = match der::decode_distribution_points(cdps) {
            Some(p) => p,
            None => {
                return None;
            },
        };
        let ghost ps = der::points_view(points@);
        let mut i: usize = 0;
        while i < points.len()
            invariant
                ps == der::points_view(points@),
                der::distribution_points_of_der(cdps@) == Some(ps),
                i <= points@.len(),
                forall|k: int| 0 <= k < i ==> !point_has_uri(#[trigger] ps[k]),
            decreases points@.len() - i,
        {
            let (has_reasons, has_issuer, full_name) = &points[i];
            if !*has_reasons && !*has_issuer {
                match full_name {
                    Some(names) => {
                        let ghost ns = names@.map_values(|x: Vec<u8>| x@);
                        let mut values: Vec<GeneralNameValue> = Vec::new();
                        let mut k: usize = 0;
                        while k < names.len()
                            invariant
                                ps == der::points_view(points@),
                                der::distribution_points_of_der(cdps@) == Some(ps),
                                i < points@.len(),
                                forall|m: int| 0 <= m < i ==> !point_has_uri(#[trigger] ps[m]),
                                ns == names@.map_values(|x: Vec<u8>| x@),
                                k <= names@.len(),
                                values@.len() == k,
                                forall|m: int| 0 <= m < k ==> name_reads(ns[m], #[trigger] values@[m]),
                            decreases names@.len() - k,
                        {
                            let g = match der::decode_general_name(names[k].as_slice()) {
                                Some(g) => g,
                                None => GeneralNameValue::Unsupported,
                            };
                            let ghost before = values@;
                            values.push(g);
                            assert(forall|m: int| 0 <= m < k ==> values@[m] == before[m]);
                            k += 1;
                        }
                        proof {
                            assert(ps[i as int] == (*has_reasons, *has_issuer, Some(ns)));
                        }
                        match Self::first_uri(&values) {
                            Some(u) => {
                                proof {
                                    let j = choose|j: int| 0 <= j < values@.len() && is_uri_with(#[trigger] values@[j], u@);
                                    assert(name_reads(ns[j], values@[j]));
                                    assert(der::general_name_view(values@[j]) == (2u8, u@, Seq::<u8>::empty(), Seq::<u32>::empty()));
                                    assert(der::general_name_of_der(ns[j]) == Some((2u8, u@, Seq::<u8>::empty(), Seq::<u32>::empty())));
                                    assert forall|m: int| 0 <= m < ns.len() implies uri_not_before(#[trigger] der::general_name_of_der(ns[m]), u@) by {
                                        assert(name_reads(ns[m], values@[m]));
                                        assert(not_uri_before(values@[m], u@));
                                    }
                                    assert(point_offers(ps[i as int], u@));
                                    assert(exists|x: int| 0 <= x < ps.len() && #[trigger] point_offers(ps[x], u@)
                                        && (forall|k: int| 0 <= k < x ==> !point_has_uri(#[trigger] ps[k])));
                                    assert(offered_first(ps, u@));
                                }
                                return Some(u);
                            },
                            None => {
                                proof {
                                    assert forall|j: int| 0 <= j < ns.len() implies !is_uri_view(#[trigger] der::general_name_of_der(ns[j])) by {
                                        assert(name_reads(ns[j], values@[j]));
                                    }
                                }
                            },
                        }
                    },
                    None => {},
                }
            }
            i += 1;
        }
        None
    }
}

/// `g` is what DER name `b` reads as, with a name that does not decode read
/// as an unsupported kind.
pub open spec fn name_reads(b: Seq<u8>, g: GeneralNameValue) -> bool {
    match der::general_name_of_der(b) {
        Some(v) => der::general_name_view(g) == v,
        None => g is Unsupported,
    }
}

/// `u` is offered by a point that no earlier point with a URI precedes.
pub open spec fn offered_first(ps: Seq<(bool, bool, Option<Seq<Seq<u8>>>)>, u: Seq<char>) -> bool {
    exists|i: int| 0 <= i < ps.len() && #[trigger] point_offers(ps[i], u)
        && (forall|k: int| 0 <= k < i ==> !point_has_uri(#[trigger] ps[k]))
}

/// A decoded name is a URI.
pub open spec fn is_uri_view(o: Option<(u8, Seq<char>, Seq<u8>, Seq<u32>)>) -> bool {
    match o {
        Some(v) => v.0 == 2,
        None => false,
    }
}

/// A decoded name is a URI that does not sort before `u`.
pub open spec fn uri_not_before(o: Option<(u8, Seq<char>, Seq<u8>, Seq<u32>)>, u: Seq<char>) -> bool {
    match o {
        Some(v) => v.0 == 2 ==> !text_lt(v.1, u),
        None => true,
    }
}

/// The point is for all reasons, issued by the certificate's issuer, and its
/// full name holds a URI.
pub open spec fn point_has_uri(p: (bool, bool, Option<Seq<Seq<u8>>>)) -> bool {
    !p.0 && !p.1 && match p.2 {
        Some(ns) => exists|j: int| 0 <= j < ns.len() && is_uri_view(#[trigger] der::general_name_of_der(ns[j])),
        None => false,
    }
}

/// The point is for all reasons, issued by the certificate's issuer, and `u`
/// is the URI of its full name that sorts first.
pub open spec fn point_offers(p: (bool, bool, Option<Seq<Seq<u8>>>), u: Seq<char>) -> bool {
    !p.0 && !p.1 && match p.2 {
        Some(ns) => (exists|j: int| 0 <= j < ns.len() && #[trigger] der::general_name_of_der(ns[j]) == Some((2u8, u, Seq::<u8>::empty(), Seq::<u32>::empty())))
            && (forall|j: int| 0 <= j < ns.len() ==> uri_not_before(#[trigger] der::general_name_of_der(ns[j]), u)),
        None => false,
    }
}

proof fn lemma_text_lt_irreflexive(a: Seq<char>)
    ensures
        !text_lt(a, a),
    decreases a.len(),
{
    if a.len() > 0 {
        lemma_text_lt_irreflexive(a.drop_first());
    }
}

/// Text order is transitive where the search relies on it.
proof fn lemma_text_lt_transitive_guard(a: Seq<char>, b: Seq<char>)
    requires
        text_lt(a, b),
    ensures
        forall|t: Seq<char>| !text_lt(t, b) ==> !text_lt(t, a),
{
    assert forall|t: Seq<char>| !text_lt(t, b) implies !text_lt(t, a) by {
        if text_lt(t, a) {
            lemma_text_lt_transitive(t, a, b);
        }
    }
}

proof fn lemma_text_lt_transitive(a: Seq<char>, b: Seq<char>, c: Seq<char>)
    requires
        text_lt(a, b),
        text_lt(b, c),
    ensures
        text_lt(a, c),
    decreases a.len(),
{
    if a.len() > 0 && b.len() > 0 && c.len() > 0 && a[0] == b[0] && b[0] == c[0] {
        lemma_text_lt_transitive(a.drop_first(), b.drop_first(), c.drop_first());
    }
}

} // verus!
