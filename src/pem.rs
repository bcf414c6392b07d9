//! Textual encoding of PKIX structures (RFC 7468): labelled blocks of
//! base64 between `-----BEGIN <label>-----` and `-----END <label>-----`.
use vstd::prelude::*;
use crate::errors::DecodingError;
use crate::text::{chars_of, same_text, string_of};

verus! {

/// The lines of a text, as `str::lines` gives them.
pub uninterp spec fn text_lines(s: Seq<char>) -> Seq<Seq<char>>;

/// The bytes that a line of base64 denotes.
pub uninterp spec fn base64_decoded(s: Seq<char>) -> Option<Seq<u8>>;

/// The base64 text of bytes (standard alphabet, padded).
pub uninterp spec fn base64_text(b: Seq<u8>) -> Seq<char>;

/// The views of lines.
pub open spec fn lines_view(v: Seq<String>) -> Seq<Seq<char>> {
    v.map_values(|x: String| x@)
}

/// Relies on str::lines: lines split at `\n`, each without a trailing `\r`.
#[verifier::external_body]
fn lines_of(s: &str) -> (r: Vec<String>)
    ensures
        lines_view(r@) == text_lines(s@),
{
    s.lines().map(|l| l.to_string()).collect()
}

/// Relies on base64's STANDARD engine (Engine::decode).
#[verifier::external_body]
fn base64_decode(s: &str) -> (r: Option<Vec<u8>>)
    ensures
        match r {
            Some(v) => base64_decoded(s@) == Some(v@),
            None => base64_decoded(s@) is None,
        },
{
    base64::Engine::decode(&base64::engine::general_purpose::STANDARD, s).ok()
}

/// Relies on base64's STANDARD engine (Engine::encode); the text is ASCII.
#[verifier::external_body]
fn base64_encode(b: &[u8]) -> (r: String)
    ensures
        r@ == base64_text(b@),
{
    base64::Engine::encode(&base64::engine::general_purpose::STANDARD, b)
}

/// Label of a PEM block.
#[derive(Debug, Clone, PartialEq, Eq)]
pub enum Marker {
    /// RFC 5280 Certificate.
    Certificate,
    /// RFC 5280 CertificateList.
    CertificateRevocationList,
    /// RFC 2986 CertificationRequest.
    CertificationRequest,
    /// RFC 5652 ContentInfo.
    CryptographicMessageSyntax,
    /// RFC 5208 PrivateKeyInfo or RFC 5958 OneAsymmetricKey.
    PrivateKey,
    /// RFC 5958 EncryptedPrivateKeyInfo.
    EncryptedPrivateKey,
    /// RFC 5755 AttributeCertificate.
    AttributeCertificate,
    /// RFC 5280 SubjectPublicKeyInfo.
    PublicKey,
    /// Any other label.
    Custom(String),
}

/// The label text of a marker.
pub open spec fn marker_label(m: Marker) -> Seq<char> {
    match m {
        Marker::Certificate => "CERTIFICATE"@,
        Marker::CertificateRevocationList => "X509 CRL"@,
        Marker::CertificationRequest => "CERTIFICATE REQUEST"@,
        Marker::CryptographicMessageSyntax => "CMS"@,
        Marker::PrivateKey => "PRIVATE KEY"@,
        Marker::EncryptedPrivateKey => "ENCRYPTED PRIVATE KEY"@,
        Marker::AttributeCertificate => "ATTRIBUTE CERTIFICATE"@,
        Marker::PublicKey => "PUBLIC KEY"@,
        Marker::Custom(s) => s@,
    }
}

/// Start of a BEGIN line.
pub open spec fn begin_start() -> Seq<char> {
    seq!['-', '-', '-', '-', '-', 'B', 'E', 'G', 'I', 'N', ' ']
}

/// Start of an END line.
pub open spec fn end_start() -> Seq<char> {
    seq!['-', '-', '-', '-', '-', 'E', 'N', 'D', ' ']
}

/// End of a BEGIN or END line.
pub open spec fn line_finish() -> Seq<char> {
    seq!['-', '-', '-', '-', '-']
}

/// `line` starts with `start` and ends with five dashes.
pub open spec fn is_delimiter(line: Seq<char>, start: Seq<char>) -> bool {
    line.len() >= start.len() + 5 && line.subrange(0, start.len() as int) == start
        && line.subrange(line.len() - 5, line.len() as int) == line_finish()
}

/// The label between the start and the closing dashes.
pub open spec fn delimiter_label(line: Seq<char>, start: Seq<char>) -> Seq<char> {
    line.subrange(start.len() as int, line.len() - 5)
}

/// State after reading some lines: the finished blocks, the open block, and
/// whether the text is still well-formed.
pub open spec fn scan_pem(lines: Seq<Seq<char>>) -> (Seq<(Seq<char>, Seq<u8>)>, Option<(Seq<char>, Seq<u8>)>, bool)
    decreases lines.len(),
{
    if lines.len() == 0 {
        (seq![], None, true)
    } else {
        let (done, open, ok) = scan_pem(lines.drop_last());
        let line = lines.last();
        if !ok {
            (done, open, false)
        } else if open is None && is_delimiter(line, begin_start()) {
            (done, Some((delimiter_label(line, begin_start()), seq![])), true)
        } else if is_delimiter(line, end_start()) {
            match open {
                Some(b) => (done.push(b), None, true),
                None => (done, open, false),
            }
        } else {
            match open {
                Some(b) => match base64_decoded(line) {
                    Some(d) => (done, Some((b.0, b.1 + d)), true),
                    None => (done, open, false),
                },
                None => (done, open, true),
            }
        }
    }
}

/// The blocks of a PEM text, when it is well-formed: every block closed,
/// every END line after a BEGIN line, every line inside a block valid base64.
/// Lines outside blocks are skipped.
pub open spec fn pem_blocks(text: Seq<char>) -> Option<Seq<(Seq<char>, Seq<u8>)>> {
    let (done, open, ok) = scan_pem(text_lines(text));
    if ok && open is None {
        Some(done)
    } else {
        None
    }
}

impl Marker {
    /// Return the label text.
    pub fn as_str(&self) -> (r: &str)
        ensures
            r@ == marker_label(*self),
    {
        match self {
            Marker::Certificate => "CERTIFICATE",
            Marker::CertificateRevocationList => "X509 CRL",
            Marker::CertificationRequest => "CERTIFICATE REQUEST",
            Marker::CryptographicMessageSyntax => "CMS",
            Marker::PrivateKey => "PRIVATE KEY",
            Marker::EncryptedPrivateKey => "ENCRYPTED PRIVATE KEY",
            Marker::AttributeCertificate => "ATTRIBUTE CERTIFICATE",
            Marker::PublicKey => "PUBLIC KEY",
            Marker::Custom(s) => s.as_str(),
        }
    }

    /// Return the marker whose label text is `label`.
    pub fn from_label(label: &str) -> (r: Self)
        ensures
            marker_label(r) == label@,
    {
        if same_text(label, "CERTIFICATE") {
            Marker::Certificate
        } else if same_text(label, "X509 CRL") {
            Marker::CertificateRevocationList
        } else if same_text(label, "CERTIFICATE REQUEST") {
            Marker::CertificationRequest
        } else if same_text(label, "CMS") {
            Marker::CryptographicMessageSyntax
        } else if same_text(label, "PRIVATE KEY") {
            Marker::PrivateKey
        } else if same_text(label, "ENCRYPTED PRIVATE KEY") {
            Marker::EncryptedPrivateKey
        } else if same_text(label, "ATTRIBUTE CERTIFICATE") {
            Marker::AttributeCertificate
        } else if same_text(label, "PUBLIC KEY") {
            Marker::PublicKey
        } else {
            Marker::Custom(label.to_owned())
        }
    }

    /// Return the marker of a complete BEGIN line.
    pub fn from_begin_line(begin_line: &str) -> (r: Self)
        requires
            is_delimiter(begin_line@, begin_start()),
        ensures
            marker_label(r) == delimiter_label(begin_line@, begin_start()),
    {
        let chars = chars_of(begin_line);
        let n = chars.len();
        let label = string_of(&chars.as_slice()[11..n - 5]);
        Self::from_label(label.as_str())
    }
}

fn is_delimiter_line(line: &Vec<char>, start: &Vec<char>) -> (r: bool)
    ensures
        r == is_delimiter(line@, start@),
{
    let n = line.len();
    let s = start.len();
    if n < 5 || n - 5 < s {
        return false;
    }
    let mut i: usize = 0;
    while i < s
        invariant
            n == line@.len(),
            s == start@.len(),
            n >= s + 5,
            i <= s,
            forall|k: int| 0 <= k < i ==> line@[k] == start@[k],
        decreases s - i,
    {
        if line[i] != start[i] {
            assert(line@.subrange(0, s as int)[i as int] != start@[i as int]);
            return false;
        }
        i += 1;
    }
    assert(line@.subrange(0, s as int) =~= start@);
    let mut j: usize = 0;
    while j < 5
        invariant
            n == line@.len(),
            n >= 5,
            j <= 5,
            forall|k: int| n - 5 <= k < n - 5 + j ==> line@[k] == '-',
        decreases 5 - j,
    {
        if line[n - 5 + j] != '-' {
            assert(line@.subrange(n - 5, n as int)[j as int] == line@[n - 5 + j]);
            assert(line@.subrange(n - 5, n as int)[j as int] != line_finish()[j as int]);
            return false;
        }
        j += 1;
    }
    assert(line@.subrange(n - 5, n as int) =~= line_finish());
    true
}

/// Parse the text as PEM blocks, in order. Lines outside blocks are
/// skipped; an END line without a BEGIN line, a line inside a block that is
/// not base64, or a block without its END line is an error. The content is
/// not checked against the label.
pub fn parse(textual_encoding: &str) -> (r: Result<Vec<(Marker, Vec<u8>)>, DecodingError>)
    ensures
        r is Ok <==> pem_blocks(textual_encoding@) is Some,
        r matches Ok(v) ==> pem_blocks(textual_encoding@) matches Some(b) && v@.len() == b.len()
            && forall|i: int| 0 <= i < b.len() ==> marker_label((#[trigger] v@[i]).0) == b[i].0 && v@[i].1@ == b[i].1,
{
    let lines = lines_of(textual_encoding);
    let begin = vec!['-', '-', '-', '-', '-', 'B', 'E', 'G', 'I', 'N', ' '];
    let end = vec!['-', '-', '-', '-', '-', 'E', 'N', 'D', ' '];
    assert(begin@ =~= begin_start());
    assert(end@ =~= end_start());
    let ghost ls = lines_view(lines@);
    let mut ret: Vec<(Marker, Vec<u8>)> = Vec::new();
    let mut content: Option<(Marker, Vec<u8>)> = None;
    let mut i: usize = 0;
    while i < lines.len()
        invariant
            ls == lines_view(lines@),
            ls == text_lines(textual_encoding@),
            begin@ == begin_start(),
            end@ == end_start(),
            i <= lines@.len(),
            ({
                let (done, open, ok) = scan_pem(ls.subrange(0, i as int));
                &&& ok
                &&& done.len() == ret@.len()
                &&& forall|k: int| 0 <= k < done.len() ==> marker_label((#[trigger] ret@[k]).0) == done[k].0 && ret@[k].1@ == done[k].1
                &&& match (content, open) {
                    (None, None) => true,
                    (Some(c), Some(o)) => marker_label(c.0) == o.0 && c.1@ == o.1,
                    _ => false,
                }
            }),
        decreases lines@.len() - i,
    {
        let line = chars_of(lines[i].as_str());
        proof {
            let p = ls.subrange(0, i as int + 1);
            assert(p.drop_last() =~= ls.subrange(0, i as int));
            assert(p.last() == line@);
        }
        let ghost before_ret = ret@;
        if content.is_none() && is_delimiter_line(&line, &begin) {
            content = Some((Marker::from_begin_line(lines[i].as_str()), Vec::new()));
        } else if is_delimiter_line(&line, &end) {
            match content {
                Some(b) => {
                    ret.push(b);
                    content = None;
                    proof {
                        let (done, open, ok) = scan_pem(ls.subrange(0, i as int + 1));
                        assert forall|k: int| 0 <= k < done.len() implies marker_label((#[trigger] ret@[k]).0) == done[k].0 && ret@[k].1@ == done[k].1 by {
                            if k < before_ret.len() {
                                assert(ret@[k] == before_ret[k]);
                            }
                        }
                    }
                },
                None => {
                    proof {
                        lemma_scan_pem_stays_failed(ls, i as int + 1);
                    }
                    return Err(DecodingError::with_msg("END line without BEGIN line in PEM."));
                },
            }
        } else {
            match content {
                Some(b) => {
                    match base64_decode(lines[i].as_str()) {
                        Some(d) => {
                            let (marker, mut data) = b;
                            let mut d = d;
                            data.append(&mut d);
                            content = Some((marker, data));
                        },
                        None => {
                            proof {
                                lemma_scan_pem_stays_failed(ls, i as int + 1);
                            }
                            return Err(DecodingError::with_msg("Invalid base64 in PEM."));
                        },
                    }
                },
                None => {
                    content = None;
                },
            }
        }
        i += 1;
    }
    assert(ls.subrange(0, ls.len() as int) =~= ls);
    if content.is_some() {
        return Err(DecodingError::with_msg("Unable to find any content in PEM."));
    }
    Ok(ret)
}

proof fn lemma_scan_pem_stays_failed(ls: Seq<Seq<char>>, k: int)
    requires
        0 <= k <= ls.len(),
        !scan_pem(ls.subrange(0, k)).2,
    ensures
        !scan_pem(ls).2,
    decreases ls.len() - k,
{
    if k < ls.len() {
        assert(ls.subrange(0, k + 1).drop_last() =~= ls.subrange(0, k));
        lemma_scan_pem_stays_failed(ls, k + 1);
    } else {
        assert(ls.subrange(0, k) =~= ls);
    }
}

/// Base64 text cut into lines of 64 characters, each followed by a newline.
pub open spec fn chunked(b64: Seq<char>) -> Seq<char>
    decreases b64.len(),
{
    if b64.len() == 0 {
        seq![]
    } else if b64.len() <= 64 {
        b64.push('\n')
    } else {
        b64.subrange(0, 64).push('\n') + chunked(b64.subrange(64, b64.len() as int))
    }
}

fn push_chunked(out: &mut String, b64: &Vec<char>, from: usize)
    requires
        from <= b64@.len(),
    ensures
        final(out)@ == old(out)@ + chunked(b64@.subrange(from as int, b64@.len() as int)),
    decreases b64@.len() - from,
{
    let n = b64.len();
    if from == n {
        assert(b64@.subrange(from as int, n as int) =~= Seq::<char>::empty());
        return;
    }
    let stop = if n - from <= 64 { n } else { from + 64 };
    let mut line = string_of(&b64.as_slice()[from..stop]);
    crate::text::push_text(&mut line, "\n");
    proof {
        reveal_strlit("\n");
    }
    crate::text::push_text(out, line.as_str());
    let ghost rest = b64@.subrange(from as int, n as int);
    if stop == n {
        assert(line@ =~= rest.push('\n'));
    } else {
        assert(rest.subrange(0, 64) =~= b64@.subrange(from as int, stop as int));
        assert(rest.subrange(64, rest.len() as int) =~= b64@.subrange(stop as int, n as int));
        push_chunked(out, b64, stop);
        assert(line@ =~= rest.subrange(0, 64).push('\n'));
    }
}

/// The text of one block.
pub open spec fn pem_block(label: Seq<char>, data: Seq<u8>) -> Seq<char> {
    begin_start() + label + line_finish() + seq!['\n'] + chunked(base64_text(data)) + end_start() + label + line_finish() + seq!['\n']
}

/// The text of several blocks, in order.
pub open spec fn pem_text(objects: Seq<(Seq<char>, Seq<u8>)>) -> Seq<char>
    decreases objects.len(),
{
    if objects.len() == 0 {
        seq![]
    } else {
        pem_text(objects.drop_last()) + pem_block(objects.last().0, objects.last().1)
    }
}

/// Encode the objects as PEM blocks: BEGIN line, base64 in lines of 64
/// characters, END line. The content is not checked against the label.
pub fn encode(encoded_objects: &[(Marker, Vec<u8>)]) -> (r: String)
    ensures
        r@ == pem_text(Seq::new(encoded_objects@.len(), |i: int| (marker_label(encoded_objects@[i].0), encoded_objects@[i].1@))),
{
    let ghost objs = Seq::new(encoded_objects@.len(), |i: int| (marker_label(encoded_objects@[i].0), encoded_objects@[i].1@));
    let mut ret = String::new();
    let mut i: usize = 0;
    proof {
        reveal_strlit("-----BEGIN ");
        reveal_strlit("-----END ");
        reveal_strlit("-----\n");
    }
    while i < encoded_objects.len()
        invariant
            i <= encoded_objects@.len(),
            objs == Seq::new(encoded_objects@.len(), |i: int| (marker_label(encoded_objects@[i].0), encoded_objects@[i].1@)),
            ret@ == pem_text(objs.subrange(0, i as int)),
            "-----BEGIN "@ == begin_start(),
            "-----END "@ == end_start(),
            "-----\n"@ == line_finish() + seq!['\n'],
        decreases encoded_objects@.len() - i,
    {
        let ghost before = ret@;
        let (marker, data) = &encoded_objects[i];
        crate::text::push_text(&mut ret, "-----BEGIN ");
        crate::text::push_text(&mut ret, marker.as_str());
        crate::text::push_text(&mut ret, "-----\n");
        let b64 = base64_encode(data.as_slice());
        let b64_chars = chars_of(b64.as_str());
        push_chunked(&mut ret, &b64_chars, 0);
        assert(b64_chars@.subrange(0, b64_chars@.len() as int) =~= b64_chars@);
        crate::text::push_text(&mut ret, "-----END ");
        crate::text::push_text(&mut ret, marker.as_str());
        crate::text::push_text(&mut ret, "-----\n");
        proof {
            let p = objs.subrange(0, i as int + 1);
            assert(p.drop_last() =~= objs.subrange(0, i as int));
            assert(ret@ =~= before + pem_block(objs[i as int].0, objs[i as int].1));
        }
        i += 1;
    }
    assert(objs.subrange(0, objs.len() as int) =~= objs);
    ret
}

} // verus!
