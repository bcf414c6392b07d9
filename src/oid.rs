//! Object identifiers as dotted decimal text.
use vstd::prelude::*;
use crate::errors::DecodingError;
use crate::text::{chars_of, decimal, push_decimal, string_of};

verus! {

/// Dotted decimal text of an object identifier, e.g. `2.5.29.19`.
pub open spec fn oid_text(oid: Seq<u32>) -> Seq<char>
    decreases oid.len(),
{
    if oid.len() == 0 {
        seq![]
    } else if oid.len() == 1 {
        decimal(oid[0] as nat)
    } else {
        oid_text(oid.drop_last()) + seq!['.'] + decimal(oid.last() as nat)
    }
}

/// State after reading a prefix of dotted decimal text: the finished arcs,
/// the value of the arc being read, whether it seen a digit yet, and whether
/// the text is still well-formed.
pub open spec fn scan_oid(s: Seq<char>) -> (Seq<u32>, nat, bool, bool)
    decreases s.len(),
{
    if s.len() == 0 {
        (seq![], 0, false, true)
    } else {
        let (done, cur, seen, ok) = scan_oid(s.drop_last());
        let c = s.last();
        if !ok {
            (done, cur, seen, false)
        } else if c == '.' {
            if seen {
                (done.push(cur as u32), 0, false, true)
            } else {
                (done, cur, seen, false)
            }
        } else if '0' <= c && c <= '9' {
            let n = cur * 10 + (c as nat - 48);
            if n <= u32::MAX {
                (done, n as nat, true, true)
            } else {
                (done, cur, seen, false)
            }
        } else {
            (done, cur, seen, false)
        }
    }
}

/// The arcs that dotted decimal text denotes: `None` unless the text is one
/// or more non-empty runs of decimal digits separated by single dots, each run
/// at most `u32::MAX`.
pub open spec fn parse_oid_text(s: Seq<char>) -> Option<Seq<u32>> {
    let (done, cur, seen, ok) = scan_oid(s);
    if ok && seen {
        Some(done.push(cur as u32))
    } else {
        None
    }
}

/// Convert dotted decimal text into the sequence of arcs.
pub fn from_string(oid: &str) -> (r: Result<Vec<u32>, DecodingError>)
    ensures
        r is Ok <==> parse_oid_text(oid@) is Some,
        r matches Ok(v) ==> parse_oid_text(oid@) == Some(v@),
{
    let s = chars_of(oid);
    let mut done: Vec<u32> = Vec::new();
    let mut cur: u32 = 0;
    let mut seen = false;
    let mut i: usize = 0;
    while i < s.len()
        invariant
            s@ == oid@,
            i <= s@.len(),
            scan_oid(s@.subrange(0, i as int)) == (done@, cur as nat, seen, true),
        decreases s@.len() - i,
    {
        let c = s[i];
        proof {
            let p = s@.subrange(0, i as int + 1);
            assert(p.drop_last() =~= s@.subrange(0, i as int));
            assert(p.last() == c);
        }
        if c == '.' {
            if seen {
                done.push(cur);
                cur = 0;
                seen = false;
            } else {
                proof { lemma_scan_stays_failed(s@, i as int + 1); }
                return Err(DecodingError::with_msg("Empty arc in object identifier."));
            }
        } else if '0' <= c && c <= '9' {
            let d: u32 = (c as u32) - 48;
            if cur > 429496729 || (cur == 429496729 && d > 5) {
                proof { lemma_scan_stays_failed(s@, i as int + 1); }
                return Err(DecodingError::with_msg("Object identifier arc is too large."));
            }
            cur = cur * 10 + d;
            seen = true;
        } else {
            proof { lemma_scan_stays_failed(s@, i as int + 1); }
            return Err(DecodingError::with_msg("Object identifier holds a character that is not a digit or a dot."));
        }
        i += 1;
    }
    assert(s@.subrange(0, s@.len() as int) =~= s@);
    if !seen {
        return Err(DecodingError::with_msg("Object identifier ends without an arc."));
    }
    done.push(cur);
    Ok(done)
}

/// Once the scan seen failed on a prefix it stays failed on the whole text.
proof fn lemma_scan_stays_failed(s: Seq<char>, k: int)
    requires
        0 <= k <= s.len(),
        !scan_oid(s.subrange(0, k)).3,
    ensures
        !scan_oid(s).3,
    decreases s.len() - k,
{
    if k < s.len() {
        let p = s.subrange(0, k + 1);
        assert(p.drop_last() =~= s.subrange(0, k));
        lemma_scan_stays_failed(s, k + 1);
    } else {
        assert(s.subrange(0, k) =~= s);
    }
}

/// Convert a sequence of arcs into dotted decimal text.
pub fn as_string(oid: &[u32]) -> (r: String)
    ensures
        r@ == oid_text(oid@),
{
    let mut v: Vec<char> = Vec::new();
    let mut i: usize = 0;
    while i < oid.len()
        invariant
            i <= oid@.len(),
            v@ == oid_text(oid@.subrange(0, i as int)),
        decreases oid@.len() - i,
    {
        let ghost before = v@;
        if i > 0 {
            v.push('.');
        }
        push_decimal(oid[i] as u64, &mut v);
        proof {
            let p = oid@.subrange(0, i as int + 1);
            assert(p.drop_last() =~= oid@.subrange(0, i as int));
            if i > 0 {
                assert(v@ =~= oid_text(p));
            } else {
                assert(v@ =~= oid_text(p));
            }
        }
        i += 1;
    }
    assert(oid@.subrange(0, oid@.len() as int) =~= oid@);
    string_of(v.as_slice())
}

} // verus!

verus! {

/// Return `true` when both object identifiers have the same arcs.
pub fn same_oid(a: &[u32], b: &[u32]) -> (r: bool)
    ensures
        r == (a@ == b@),
{
    if a.len() != b.len() {
        return false;
    }
    let mut i: usize = 0;
    while i < a.len()
        invariant
            a@.len() == b@.len(),
            i <= a@.len(),
            forall|j: int| 0 <= j < i ==> a@[j] == b@[j],
        decreases a@.len() - i,
    {
        if a[i] != b[i] {
            return false;
        }
        i += 1;
    }
    assert(a@ =~= b@);
    true
}

} // verus!
