//! Well-known GeneralName kinds and their textual values. DNS names and the
//! domain of mail addresses are kept in UTF-8 and punycoded on the wire.
use vstd::prelude::*;
use crate::oid::{as_string, from_string, oid_text, parse_oid_text};
use crate::puny_code::{puny_decoded, puny_encoded};
use crate::text::{chars_of, same_text, string_of};

verus! {

/// Well-known GeneralName kinds.
#[derive(Debug, Clone, Copy, PartialEq, Eq, Structural)]
pub enum WellKnownGeneralName {
    /// `rfc822_name`: Internet mail address.
    Rfc822Name,
    /// `dns_name`: DNS name.
    DnsName,
    /// `uri`: Uniform Resource Identifier.
    Uri,
    /// `ip_address`: IPv4 or IPv6 address.
    IpAddress,
    /// `registered_id`: registered object identifier.
    RegisteredId,
}

/// A GeneralName as carried in DER, with its text after punycode.
#[derive(Debug, Clone, PartialEq, Eq)]
pub enum GeneralNameValue {
    Rfc822Name(String),
    DnsName(String),
    Uri(String),
    /// 4 or 16 octets.
    IpAddress(Vec<u8>),
    RegisteredId(Vec<u32>),
    /// A kind that is not well known.
    Unsupported,
}

/// The snake_case name of a kind.
pub open spec fn general_name_label(w: WellKnownGeneralName) -> Seq<char> {
    match w {
        WellKnownGeneralName::Rfc822Name => "rfc822_name"@,
        WellKnownGeneralName::DnsName => "dns_name"@,
        WellKnownGeneralName::Uri => "uri"@,
        WellKnownGeneralName::IpAddress => "ip_address"@,
        WellKnownGeneralName::RegisteredId => "registered_id"@,
    }
}

/// The octets that dotted decimal IPv4 text denotes.
pub open spec fn ipv4_octets(text: Seq<char>) -> Option<Seq<u8>> {
    match parse_oid_text(text) {
        Some(arcs) => if arcs.len() == 4 && forall|i: int| 0 <= i < 4 ==> arcs[i] <= 255 {
            Some(Seq::new(4, |i: int| arcs[i] as u8))
        } else {
            None
        },
        None => None,
    }
}

/// Dotted decimal text of 4 octets.
pub open spec fn ipv4_text(octets: Seq<u8>) -> Seq<char> {
    oid_text(Seq::new(octets.len(), |i: int| octets[i] as u32))
}

/// `k` is the position of the only `@` of `s`.
pub open spec fn only_at_sign(s: Seq<char>, k: int) -> bool {
    0 <= k < s.len() && s[k] == '@' && forall|j: int| 0 <= j < s.len() && j != k ==> s[j] != '@'
}

/// `g` is the wire form of a name of kind `w` with text `value`.
pub open spec fn wire_form(w: WellKnownGeneralName, value: Seq<char>, g: GeneralNameValue) -> bool {
    match w {
        WellKnownGeneralName::DnsName => g matches GeneralNameValue::DnsName(t) && puny_encoded(value) == Some(t@),
        WellKnownGeneralName::Uri => g matches GeneralNameValue::Uri(t) && t@ == value,
        WellKnownGeneralName::RegisteredId => g matches GeneralNameValue::RegisteredId(o) && parse_oid_text(value) == Some(o@),
        WellKnownGeneralName::IpAddress => g matches GeneralNameValue::IpAddress(o) && (ipv4_octets(value) == Some(o@)
            || (ipv4_octets(value) is None && o@.len() == 16)),
        WellKnownGeneralName::Rfc822Name => g matches GeneralNameValue::Rfc822Name(t) && exists|k: int| only_at_sign(value, k)
            && puny_encoded(value.subrange(k + 1, value.len() as int)) == Some(t@.subrange(k + 1, t@.len() as int))
            && t@.subrange(0, k + 1) == value.subrange(0, k + 1),
    }
}

impl WellKnownGeneralName {
    /// Return the snake_case name of this kind.
    pub fn as_name(&self) -> (r: String)
        ensures
            r@ == general_name_label(*self),
    {
        match self {
            WellKnownGeneralName::Rfc822Name => "rfc822_name".to_owned(),
            WellKnownGeneralName::DnsName => "dns_name".to_owned(),
            WellKnownGeneralName::Uri => "uri".to_owned(),
            WellKnownGeneralName::IpAddress => "ip_address".to_owned(),
            WellKnownGeneralName::RegisteredId => "registered_id".to_owned(),
        }
    }

    /// Return the kind whose snake_case name is `name`.
    pub fn by_name(name: &str) -> (r: Option<Self>)
        ensures
            r matches Some(w) ==> general_name_label(w) == name@,
            r is None ==> forall|w: WellKnownGeneralName| general_name_label(w) != name@,
    {
        let all = [
            WellKnownGeneralName::Rfc822Name,
            WellKnownGeneralName::DnsName,
            WellKnownGeneralName::Uri,
            WellKnownGeneralName::IpAddress,
            WellKnownGeneralName::RegisteredId,
        ];
        let mut i: usize = 0;
        while i < 5
            invariant
                i <= 5,
                all@ == seq![
                    WellKnownGeneralName::Rfc822Name,
                    WellKnownGeneralName::DnsName,
                    WellKnownGeneralName::Uri,
                    WellKnownGeneralName::IpAddress,
                    WellKnownGeneralName::RegisteredId,
                ],
                forall|k: int| 0 <= k < i ==> general_name_label(#[trigger] all@[k]) != name@,
            decreases 5 - i,
        {
            let n = all[i].as_name();
            if same_text(n.as_str(), name) {
                return Some(all[i]);
            }
            i += 1;
        }
        proof {
            assert forall|w: WellKnownGeneralName| general_name_label(w) != name@ by {
                match w {
                    WellKnownGeneralName::Rfc822Name => assert(general_name_label(all@[0]) != name@),
                    WellKnownGeneralName::DnsName => assert(general_name_label(all@[1]) != name@),
                    WellKnownGeneralName::Uri => assert(general_name_label(all@[2]) != name@),
                    WellKnownGeneralName::IpAddress => assert(general_name_label(all@[3]) != name@),
                    WellKnownGeneralName::RegisteredId => assert(general_name_label(all@[4]) != name@),
                }
            }
        }
        None
    }

    /// Return the wire form of a name of this kind with textual `value`:
    /// DNS names punycoded, a mail address with its domain punycoded, an IPv4
    /// address as its 4 octets, a registered identifier as its arcs. `None`
    /// when the value is not well-formed for the kind.
    pub fn to_rasn_type(&self, value: &str) -> (r: Option<GeneralNameValue>)
        ensures
            *self == WellKnownGeneralName::DnsName ==> match r {
                Some(GeneralNameValue::DnsName(t)) => puny_encoded(value@) == Some(t@),
                None => puny_encoded(value@) is None,
                _ => false,
            },
            *self == WellKnownGeneralName::Uri ==> (r matches Some(GeneralNameValue::Uri(t)) && t@ == value@),
            *self == WellKnownGeneralName::RegisteredId ==> match r {
                Some(GeneralNameValue::RegisteredId(o)) => parse_oid_text(value@) == Some(o@),
                None => parse_oid_text(value@) is None,
                _ => false,
            },
            *self == WellKnownGeneralName::IpAddress ==> match r {
                Some(GeneralNameValue::IpAddress(o)) => ipv4_octets(value@) == Some(o@) || (ipv4_octets(value@) is None && o@.len() == 16),
                None => ipv4_octets(value@) is None,
                _ => false,
            },
            r matches Some(g) ==> wire_form(*self, value@, g),
    {
        match self {
            WellKnownGeneralName::DnsName => match crate::puny_code::encode(value) {
                Some(t) => Some(GeneralNameValue::DnsName(t)),
                None => None,
            },
            WellKnownGeneralName::Uri => Some(GeneralNameValue::Uri(value.to_owned())),
            WellKnownGeneralName::RegisteredId => match from_string(value) {
                Ok(o) => Some(GeneralNameValue::RegisteredId(o)),
                Err(_) => None,
            },
            WellKnownGeneralName::IpAddress => match from_string(value) {
                Ok(arcs) => {
                    if arcs.len() != 4 || arcs[0] > 255 || arcs[1] > 255 || arcs[2] > 255 || arcs[3] > 255 {
                        return match ipv6_octets(&chars_of(value)) {
                            Some(o) => Some(GeneralNameValue::IpAddress(o)),
                            None => None,
                        };
                    }
                    let octets = vec![arcs[0] as u8, arcs[1] as u8, arcs[2] as u8, arcs[3] as u8];
                    assert(octets@ =~= Seq::new(4, |i: int| arcs@[i] as u8));
                    Some(GeneralNameValue::IpAddress(octets))
                },
                Err(_) => match ipv6_octets(&chars_of(value)) {
                    Some(o) => Some(GeneralNameValue::IpAddress(o)),
                    None => None,
                },
            },
            WellKnownGeneralName::Rfc822Name => {
                let chars = chars_of(value);
                let n = chars.len();
                match split_at_sign(&chars) {
                    Some(k) => {
                        let local = string_of(&chars.as_slice()[0..k + 1]);
                        let domain = string_of(&chars.as_slice()[k + 1..n]);
                        match crate::puny_code::encode(domain.as_str()) {
                            Some(d) => {
                                let mut t = local;
                                crate::text::push_text(&mut t, d.as_str());
                                assert(t@.subrange(k + 1, t@.len() as int) =~= d@);
                                assert(t@.subrange(0, k + 1) =~= value@.subrange(0, k + 1));
                                assert(domain@ =~= value@.subrange(k + 1, value@.len() as int));
                                assert(only_at_sign(value@, k as int));
                                let g = GeneralNameValue::Rfc822Name(t);
                                assert(wire_form(*self, value@, g));
                                Some(g)
                            },
                            None => None,
                        }
                    },
                    None => None,
                }
            },
        }
    }

    /// Return the kind and text of a wire GeneralName, if it is well known:
    /// DNS names and mail domains decoded from punycode, IPv4 addresses in
    /// dotted decimal, IPv6 addresses as eight hexadecimal groups.
    pub fn from_rasn_type(general_name: &GeneralNameValue) -> (r: Option<(Self, String)>)
        ensures
            general_name is Unsupported ==> r is None,
            general_name matches GeneralNameValue::DnsName(t) ==> match r {
                Some((w, s)) => w == WellKnownGeneralName::DnsName && puny_decoded(t@) == Some(s@),
                None => puny_decoded(t@) is None,
            },
            general_name matches GeneralNameValue::Uri(t) ==> (r matches Some((w, s)) && w == WellKnownGeneralName::Uri && s@ == t@),
            general_name matches GeneralNameValue::RegisteredId(o) ==> (r matches Some((w, s)) && w == WellKnownGeneralName::RegisteredId && s@ == oid_text(o@)),
            general_name matches GeneralNameValue::IpAddress(o) ==> (o@.len() == 4 ==> (r matches Some((w, s)) && w == WellKnownGeneralName::IpAddress && s@ == ipv4_text(o@))),
            general_name matches GeneralNameValue::Rfc822Name(t) ==> (r matches Some((w, s)) ==> w == WellKnownGeneralName::Rfc822Name
                && exists|k: int| only_at_sign(t@, k) && s@.subrange(0, k + 1) == t@.subrange(0, k + 1)
                    && puny_decoded(t@.subrange(k + 1, t@.len() as int)) == Some(s@.subrange(k + 1, s@.len() as int))),
    {
        match general_name {
            GeneralNameValue::DnsName(t) => match crate::puny_code::decode(t.as_str()) {
                Some(s) => Some((WellKnownGeneralName::DnsName, s)),
                None => None,
            },
            GeneralNameValue::Uri(t) => Some((WellKnownGeneralName::Uri, t.as_str().to_owned())),
            GeneralNameValue::RegisteredId(o) => Some((WellKnownGeneralName::RegisteredId, as_string(o.as_slice()))),
            GeneralNameValue::IpAddress(o) => {
                if o.len() == 4 {
                    let arcs = vec![o[0] as u32, o[1] as u32, o[2] as u32, o[3] as u32];
                    assert(arcs@ =~= Seq::new(o@.len(), |i: int| o@[i] as u32));
                    Some((WellKnownGeneralName::IpAddress, as_string(arcs.as_slice())))
                } else if o.len() == 16 {
                    Some((WellKnownGeneralName::IpAddress, ipv6_text(o)))
                } else {
                    None
                }
            },
            GeneralNameValue::Rfc822Name(t) => {
                let chars = chars_of(t.as_str());
                let n = chars.len();
                match split_at_sign(&chars) {
                    Some(k) => {
                        let local = string_of(&chars.as_slice()[0..k + 1]);
                        let domain = string_of(&chars.as_slice()[k + 1..n]);
                        match crate::puny_code::decode(domain.as_str()) {
                            Some(d) => {
                                let mut s = local;
                                crate::text::push_text(&mut s, d.as_str());
                                assert(s@.subrange(k + 1, s@.len() as int) =~= d@);
                                assert(s@.subrange(0, k + 1) =~= t@.subrange(0, k + 1));
                                assert(domain@ =~= t@.subrange(k + 1, t@.len() as int));
                                assert(only_at_sign(t@, k as int));
                                Some((WellKnownGeneralName::Rfc822Name, s))
                            },
                            None => None,
                        }
                    },
                    None => None,
                }
            },
            GeneralNameValue::Unsupported => None,
        }
    }
}

/// The position of the only `@` of a mail address; `None` when there is none
/// or more than one.
fn split_at_sign(chars: &Vec<char>) -> (r: Option<usize>)
    ensures
        r matches Some(k) ==> k < chars@.len() && chars@[k as int] == '@'
            && forall|j: int| 0 <= j < chars@.len() && j != k ==> chars@[j] != '@',
{
    let mut found: Option<usize> = None;
    let mut i: usize = 0;
    while i < chars.len()
        invariant
            i <= chars@.len(),
            found matches Some(k) ==> k < i && chars@[k as int] == '@' && forall|j: int| 0 <= j < i && j != k ==> chars@[j] != '@',
            found is None ==> forall|j: int| 0 <= j < i ==> chars@[j] != '@',
        decreases chars@.len() - i,
    {
        if chars[i] == '@' {
            if found.is_some() {
                return None;
            }
            found = Some(i);
        }
        i += 1;
    }
    found
}

fn hex_value(c: char) -> (r: Option<u32>)
    ensures
        r matches Some(v) ==> v < 16,
{
    if '0' <= c && c <= '9' {
        Some((c as u32) - 48)
    } else if 'a' <= c && c <= 'f' {
        Some((c as u32) - 87)
    } else if 'A' <= c && c <= 'F' {
        Some((c as u32) - 55)
    } else {
        None
    }
}

/// The 16-bit groups of colon-separated hexadecimal text, one to four
/// digits each; an empty text has none.
fn hex_groups(s: &[char]) -> (r: Option<Vec<u32>>)
    ensures
        r matches Some(g) ==> forall|i: int| 0 <= i < g@.len() ==> g@[i] < 65536,
{
    let mut groups: Vec<u32> = Vec::new();
    if s.len() == 0 {
        return Some(groups);
    }
    let mut cur: u32 = 0;
    let mut digits: usize = 0;
    let mut i: usize = 0;
    while i < s.len()
        invariant
            i <= s@.len(),
            digits <= 4,
            digits == 0 ==> cur == 0,
            digits <= 1 ==> cur < 16,
            digits <= 2 ==> cur < 256,
            digits <= 3 ==> cur < 4096,
            cur < 65536,
            forall|k: int| 0 <= k < groups@.len() ==> groups@[k] < 65536,
        decreases s@.len() - i,
    {
        if s[i] == ':' {
            if digits == 0 {
                return None;
            }
            groups.push(cur);
            cur = 0;
            digits = 0;
        } else {
            match hex_value(s[i]) {
                Some(v) => {
                    if digits == 4 {
                        return None;
                    }
                    cur = cur * 16 + v;
                    digits += 1;
                },
                None => {
                    return None;
                },
            }
        }
        i += 1;
    }
    if digits == 0 {
        return None;
    }
    groups.push(cur);
    Some(groups)
}

/// The 16 octets of IPv6 text: eight hexadecimal groups, or fewer with one
/// `::` standing for the missing zero groups.
fn ipv6_octets(s: &Vec<char>) -> (r: Option<Vec<u8>>)
    ensures
        r matches Some(o) ==> o@.len() == 16,
{
    let n = s.len();
    let mut gap: Option<usize> = None;
    let mut i: usize = 0;
    while i < n
        invariant
            n == s@.len(),
            i <= n,
            gap matches Some(p) ==> p + 1 < n,
        decreases n - i,
    {
        if i + 1 < n && s[i] == ':' && s[i + 1] == ':' {
            if gap.is_some() {
                return None;
            }
            gap = Some(i);
            i += 2;
        } else {
            i += 1;
        }
    }
    let groups: Vec<u32> = match gap {
        None => {
            let g = hex_groups(s.as_slice())?;
            if g.len() != 8 {
                return None;
            }
            g
        },
        Some(p) => {
            let left = hex_groups(&s.as_slice()[0..p])?;
            let right = hex_groups(&s.as_slice()[p + 2..n])?;
            if left.len() > 7 || right.len() > 7 - left.len() {
                return None;
            }
            let mut g: Vec<u32> = Vec::new();
            let mut k: usize = 0;
            while k < left.len()
                invariant
                    k <= left@.len(),
                    g@.len() == k,
                    forall|m: int| 0 <= m < left@.len() ==> left@[m] < 65536,
                    forall|m: int| 0 <= m < g@.len() ==> g@[m] < 65536,
                decreases left@.len() - k,
            {
                g.push(left[k]);
                k += 1;
            }
            let zeros = 8 - left.len() - right.len();
            let mut z: usize = 0;
            while z < zeros
                invariant
                    z <= zeros,
                    g@.len() == left@.len() + z,
                    forall|m: int| 0 <= m < g@.len() ==> g@[m] < 65536,
                decreases zeros - z,
            {
                g.push(0);
                z += 1;
            }
            let mut k: usize = 0;
            while k < right.len()
                invariant
                    k <= right@.len(),
                    g@.len() == left@.len() + zeros + k,
                    forall|m: int| 0 <= m < right@.len() ==> right@[m] < 65536,
                    forall|m: int| 0 <= m < g@.len() ==> g@[m] < 65536,
                decreases right@.len() - k,
            {
                g.push(right[k]);
                k += 1;
            }
            g
        },
    };
    let mut o: Vec<u8> = Vec::new();
    let mut k: usize = 0;
    while k < 8
        invariant
            groups@.len() == 8,
            forall|m: int| 0 <= m < 8 ==> groups@[m] < 65536,
            k <= 8,
            o@.len() == 2 * k,
        decreases 8 - k,
    {
        o.push((groups[k] / 256) as u8);
        o.push((groups[k] % 256) as u8);
        k += 1;
    }
    Some(o)
}

fn push_hex_group(out: &mut Vec<char>, value: u32)
    requires
        value < 65536,
{
    let digits = [value / 4096, (value / 256) % 16, (value / 16) % 16, value % 16];
    let mut started = false;
    let mut k: usize = 0;
    while k < 4
        invariant
            k <= 4,
            forall|m: int| 0 <= m < 4 ==> digits@[m] < 16,
        decreases 4 - k,
    {
        let d = digits[k];
        if d != 0 || started || k == 3 {
            started = true;
            let c: u8 = if d < 10 { (d + 48) as u8 } else { (d + 87) as u8 };
            out.push(c as char);
        }
        k += 1;
    }
}

/// Text of a 16-octet IPv6 address as RFC 5952 recommends: lower-case
/// hexadecimal groups without leading zeros, the first longest run of two
/// or more zero groups written as `::`.
fn ipv6_text(o: &Vec<u8>) -> (r: String)
    requires
        o@.len() == 16,
{
    let mut groups: Vec<u32> = Vec::new();
    let mut g: usize = 0;
    while g < 8
        invariant
            o@.len() == 16,
            g <= 8,
            groups@.len() == g,
            forall|m: int| 0 <= m < groups@.len() ==> groups@[m] < 65536,
        decreases 8 - g,
    {
        groups.push((o[2 * g] as u32) * 256 + (o[2 * g + 1] as u32));
        g += 1;
    }
    let mut best_start: usize = 8;
    let mut best_len: usize = 0;
    let mut i: usize = 0;
    while i < 8
        invariant
            groups@.len() == 8,
            i <= 8,
            best_len <= 8,
            best_start <= 8,
        decreases 8 - i,
    {
        if groups[i] == 0 {
            let mut j: usize = i;
            while j < 8 && groups[j] == 0
                invariant
                    groups@.len() == 8,
                    i <= j <= 8,
                decreases 8 - j,
            {
                j += 1;
            }
            if j - i > best_len {
                best_start = i;
                best_len = j - i;
            }
            i = j;
        } else {
            i += 1;
        }
    }
    let mut out: Vec<char> = Vec::new();
    if best_len < 2 {
        let mut k: usize = 0;
        while k < 8
            invariant
                groups@.len() == 8,
                forall|m: int| 0 <= m < 8 ==> groups@[m] < 65536,
                k <= 8,
            decreases 8 - k,
        {
            if k > 0 {
                out.push(':');
            }
            push_hex_group(&mut out, groups[k]);
            k += 1;
        }
    } else {
        let mut k: usize = 0;
        while k < best_start && k < 8
            invariant
                groups@.len() == 8,
                forall|m: int| 0 <= m < 8 ==> groups@[m] < 65536,
                k <= 8,
            decreases 8 - k,
        {
            if k > 0 {
                out.push(':');
            }
            push_hex_group(&mut out, groups[k]);
            k += 1;
        }
        out.push(':');
        out.push(':');
        let mut k: usize = if best_start + best_len <= 8 { best_start + best_len } else { 8 };
        let first = k;
        while k < 8
            invariant
                groups@.len() == 8,
                forall|m: int| 0 <= m < 8 ==> groups@[m] < 65536,
                k <= 8,
            decreases 8 - k,
        {
            if k > first {
                out.push(':');
            }
            push_hex_group(&mut out, groups[k]);
            k += 1;
        }
    }
    string_of(out.as_slice())
}

} // verus!

verus! {

/// Return the snake_case name of the kind of a wire GeneralName, when it is
/// well known and its text decodes.
pub fn general_name_as_string(general_name: &GeneralNameValue) -> (r: Option<String>)
    ensures
        general_name is Unsupported ==> r is None,
        r matches Some(s) ==> exists|w: WellKnownGeneralName| s@ == general_name_label(w),
{
    match WellKnownGeneralName::from_rasn_type(general_name) {
        Some((w, _)) => Some(w.as_name()),
        None => None,
    }
}

} // verus!
