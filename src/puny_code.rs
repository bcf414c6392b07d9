//! Punycode (RFC 3492) for DNS names: labels that are not ASCII travel as
//! `xn--` followed by their punycode.
use vstd::prelude::*;
use crate::labels::{join_dots, join_labels, labels_view, split_dots, split_labels};
use crate::text::{chars_of, string_of};

verus! {

/// The lower-case form of a text.
pub uninterp spec fn lower_of(s: Seq<char>) -> Seq<char>;

/// The punycode of a label.
pub uninterp spec fn punycode_of(s: Seq<char>) -> Option<Seq<char>>;

/// The label that a punycode text denotes.
pub uninterp spec fn label_of_punycode(s: Seq<char>) -> Option<Seq<char>>;

/// Relies on str::to_lowercase.
#[verifier::external_body]
fn lowercase(s: &str) -> (r: String)
    ensures
        r@ == lower_of(s@),
{
    s.to_lowercase()
}

/// Relies on idna::punycode::encode.
#[verifier::external_body]
fn punycode_encode(label: &[char]) -> (r: Option<Vec<char>>)
    ensures
        match r {
            Some(v) => punycode_of(label@) == Some(v@),
            None => punycode_of(label@) is None,
        },
{
    idna::punycode::encode(label).map(|s| s.chars().collect())
}

/// Relies on idna::punycode::decode.
#[verifier::external_body]
fn punycode_decode(text: &[char]) -> (r: Option<Vec<char>>)
    ensures
        match r {
            Some(v) => label_of_punycode(text@) == Some(v@),
            None => label_of_punycode(text@) is None,
        },
{
    idna::punycode::decode(&text.iter().collect::<String>())
}

/// The ACE prefix of a punycode label.
pub open spec fn ace_prefix() -> Seq<char> {
    seq!['x', 'n', '-', '-']
}

/// Every character is ASCII.
pub open spec fn ascii_chars(l: Seq<char>) -> bool {
    forall|i: int| 0 <= i < l.len() ==> (l[i] as u32) < 128
}

/// A label as it travels: ASCII labels unchanged, others as `xn--` and their
/// punycode.
pub open spec fn encoded_label(l: Seq<char>) -> Option<Seq<char>> {
    if ascii_chars(l) {
        Some(l)
    } else {
        match punycode_of(l) {
            Some(p) => Some(ace_prefix() + p),
            None => None,
        }
    }
}

/// A label as it is shown: `xn--` labels decoded from punycode, others
/// unchanged.
pub open spec fn decoded_label(l: Seq<char>) -> Option<Seq<char>> {
    if l.len() >= 4 && l.subrange(0, 4) == ace_prefix() {
        label_of_punycode(l.subrange(4, l.len() as int))
    } else {
        Some(l)
    }
}

/// Each label transformed, when every one transforms.
pub open spec fn encoded_labels(ls: Seq<Seq<char>>) -> Option<Seq<Seq<char>>>
    decreases ls.len(),
{
    if ls.len() == 0 {
        Some(seq![])
    } else {
        match (encoded_labels(ls.drop_last()), encoded_label(ls.last())) {
            (Some(a), Some(b)) => Some(a.push(b)),
            _ => None,
        }
    }
}

/// Each label decoded, when every one decodes.
pub open spec fn decoded_labels(ls: Seq<Seq<char>>) -> Option<Seq<Seq<char>>>
    decreases ls.len(),
{
    if ls.len() == 0 {
        Some(seq![])
    } else {
        match (decoded_labels(ls.drop_last()), decoded_label(ls.last())) {
            (Some(a), Some(b)) => Some(a.push(b)),
            _ => None,
        }
    }
}

/// The wire form of a DNS name: lower-cased, each label encoded.
pub open spec fn puny_encoded(s: Seq<char>) -> Option<Seq<char>> {
    match encoded_labels(split_dots(lower_of(s))) {
        Some(ls) => Some(join_dots(ls)),
        None => None,
    }
}

/// The display form of a DNS name: lower-cased, each label decoded.
pub open spec fn puny_decoded(s: Seq<char>) -> Option<Seq<char>> {
    match decoded_labels(split_dots(lower_of(s))) {
        Some(ls) => Some(join_dots(ls)),
        None => None,
    }
}

fn is_ascii_label(l: &Vec<char>) -> (r: bool)
    ensures
        r == ascii_chars(l@),
{
    let mut i: usize = 0;
    while i < l.len()
        invariant
            i <= l@.len(),
            forall|k: int| 0 <= k < i ==> (l@[k] as u32) < 128,
        decreases l@.len() - i,
    {
        if (l[i] as u32) >= 128 {
            return false;
        }
        i += 1;
    }
    true
}

fn encode_label(l: &Vec<char>) -> (r: Option<Vec<char>>)
    ensures
        match r {
            Some(v) => encoded_label(l@) == Some(v@),
            None => encoded_label(l@) is None,
        },
{
    if is_ascii_label(l) {
        let mut v: Vec<char> = Vec::new();
        let mut i: usize = 0;
        while i < l.len()
            invariant
                i <= l@.len(),
                v@ == l@.subrange(0, i as int),
            decreases l@.len() - i,
        {
            v.push(l[i]);
            i += 1;
        }
        assert(v@ =~= l@);
        return Some(v);
    }
    match punycode_encode(l.as_slice()) {
        Some(p) => {
            let mut v: Vec<char> = vec!['x', 'n', '-', '-'];
            assert(v@ =~= ace_prefix());
            let mut i: usize = 0;
            while i < p.len()
                invariant
                    i <= p@.len(),
                    v@ == ace_prefix() + p@.subrange(0, i as int),
                decreases p@.len() - i,
            {
                v.push(p[i]);
                i += 1;
            }
            assert(p@.subrange(0, p@.len() as int) =~= p@);
            Some(v)
        },
        None => None,
    }
}

fn decode_label(l: &Vec<char>) -> (r: Option<Vec<char>>)
    ensures
        match r {
            Some(v) => decoded_label(l@) == Some(v@),
            None => decoded_label(l@) is None,
        },
{
    if l.len() >= 4 && l[0] == 'x' && l[1] == 'n' && l[2] == '-' && l[3] == '-' {
        assert(l@.subrange(0, 4) =~= ace_prefix());
        let rest = &l.as_slice()[4..l.len()];
        return punycode_decode(rest);
    }
    proof {
        if l@.len() >= 4 && l@.subrange(0, 4) == ace_prefix() {
            assert(l@.subrange(0, 4)[0] == 'x');
            assert(l@.subrange(0, 4)[1] == 'n');
            assert(l@.subrange(0, 4)[2] == '-');
            assert(l@.subrange(0, 4)[3] == '-');
        }
    }
    let mut v: Vec<char> = Vec::new();
    let mut i: usize = 0;
    while i < l.len()
        invariant
            i <= l@.len(),
            v@ == l@.subrange(0, i as int),
        decreases l@.len() - i,
    {
        v.push(l[i]);
        i += 1;
    }
    assert(v@ =~= l@);
    Some(v)
}

/// Punycode a DNS name for the wire: lower-case it and write each label that
/// is not ASCII as `xn--` and its punycode. `None` when punycode fails.
pub fn encode(dns_name_utf8: &str) -> (r: Option<String>)
    ensures
        match r {
            Some(s) => puny_encoded(dns_name_utf8@) == Some(s@),
            None => puny_encoded(dns_name_utf8@) is None,
        },
{
    let lower = lowercase(dns_name_utf8);
    let chars = chars_of(lower.as_str());
    let labels = split_labels(chars.as_slice());
    let mut out: Vec<Vec<char>> = Vec::new();
    let mut i: usize = 0;
    while i < labels.len()
        invariant
            labels_view(labels@) == split_dots(lower_of(dns_name_utf8@)),
            i <= labels@.len(),
            encoded_labels(labels_view(labels@.subrange(0, i as int))) == Some(labels_view(out@)),
        decreases labels@.len() - i,
    {
        proof {
            assert(labels_view(labels@.subrange(0, i as int + 1)).drop_last() =~= labels_view(labels@.subrange(0, i as int)));
        }
        match encode_label(&labels[i]) {
            Some(v) => {
                let ghost before = out@;
                out.push(v);
                assert(labels_view(out@) =~= labels_view(before).push(out@.last()@));
            },
            None => {
                proof {
                    let p = labels_view(labels@.subrange(0, i as int + 1));
                    assert(p.last() == labels@[i as int]@);
                    assert(encoded_labels(p) is None);
                    assert(labels_view(labels@).subrange(0, i as int + 1) =~= p);
                    lemma_encoded_labels_fail(labels_view(labels@), i as int + 1);
                }
                return None;
            },
        }
        i += 1;
    }
    assert(labels@.subrange(0, labels@.len() as int) =~= labels@);
    let joined = join_labels(&out);
    Some(string_of(joined.as_slice()))
}

proof fn lemma_encoded_labels_fail(ls: Seq<Seq<char>>, k: int)
    requires
        0 <= k <= ls.len(),
        encoded_labels(ls.subrange(0, k)) is None,
    ensures
        encoded_labels(ls) is None,
    decreases ls.len() - k,
{
    if k < ls.len() {
        assert(ls.subrange(0, k + 1).drop_last() =~= ls.subrange(0, k));
        lemma_encoded_labels_fail(ls, k + 1);
    } else {
        assert(ls.subrange(0, k) =~= ls);
    }
}

proof fn lemma_decoded_labels_fail(ls: Seq<Seq<char>>, k: int)
    requires
        0 <= k <= ls.len(),
        decoded_labels(ls.subrange(0, k)) is None,
    ensures
        decoded_labels(ls) is None,
    decreases ls.len() - k,
{
    if k < ls.len() {
        assert(ls.subrange(0, k + 1).drop_last() =~= ls.subrange(0, k));
        lemma_decoded_labels_fail(ls, k + 1);
    } else {
        assert(ls.subrange(0, k) =~= ls);
    }
}

/// Turn a DNS name from the wire into its display form: lower-case it and
/// decode each `xn--` label. `None` when a label is not valid punycode.
pub fn decode(dns_name_punycode: &str) -> (r: Option<String>)
    ensures
        match r {
            Some(s) => puny_decoded(dns_name_punycode@) == Some(s@),
            None => puny_decoded(dns_name_punycode@) is None,
        },
{
    let lower = lowercase(dns_name_punycode);
    let chars = chars_of(lower.as_str());
    let labels = split_labels(chars.as_slice());
    let mut out: Vec<Vec<char>> = Vec::new();
    let mut i: usize = 0;
    while i < labels.len()
        invariant
            labels_view(labels@) == split_dots(lower_of(dns_name_punycode@)),
            i <= labels@.len(),
            decoded_labels(labels_view(labels@.subrange(0, i as int))) == Some(labels_view(out@)),
        decreases labels@.len() - i,
    {
        proof {
            assert(labels_view(labels@.subrange(0, i as int + 1)).drop_last() =~= labels_view(labels@.subrange(0, i as int)));
        }
        match decode_label(&labels[i]) {
            Some(v) => {
                let ghost before = out@;
                out.push(v);
                assert(labels_view(out@) =~= labels_view(before).push(out@.last()@));
            },
            None => {
                proof {
                    let p = labels_view(labels@.subrange(0, i as int + 1));
                    assert(p.last() == labels@[i as int]@);
                    assert(decoded_labels(p) is None);
                    assert(labels_view(labels@).subrange(0, i as int + 1) =~= p);
                    lemma_decoded_labels_fail(labels_view(labels@), i as int + 1);
                }
                return None;
            },
        }
        i += 1;
    }
    assert(labels@.subrange(0, labels@.len() as int) =~= labels@);
    let joined = join_labels(&out);
    Some(string_of(joined.as_slice()))
}

} // verus!
