//! DER framing: a tag, the definite length of the content, the content.
use vstd::prelude::*;

verus! {

/// Big-endian octets of `n` without leading zeros (none for 0).
pub open spec fn be_octets(n: nat) -> Seq<u8>
    decreases n,
{
    if n == 0 {
        seq![]
    } else {
        be_octets(n / 256).push((n % 256) as u8)
    }
}

/// DER definite length: one octet below 128, else `0x80` plus the number of
/// length octets, then the length big-endian.
pub open spec fn der_length(n: nat) -> Seq<u8> {
    if n < 128 {
        seq![n as u8]
    } else {
        seq![(128 + be_octets(n).len()) as u8] + be_octets(n)
    }
}

/// A DER element: tag, length, content.
pub open spec fn der_tlv(tag: u8, content: Seq<u8>) -> Seq<u8> {
    seq![tag] + der_length(content.len()) + content
}

proof fn lemma_be_octets_len(n: nat, k: nat)
    requires
        n < pow256(k),
    ensures
        be_octets(n).len() <= k,
    decreases n,
{
    if n > 0 {
        assert(k > 0) by {
            if k == 0 {
                assert(pow256(0) == 1);
            }
        }
        assert(n / 256 < pow256((k - 1) as nat)) by (nonlinear_arith)
            requires
                n < pow256(k),
                k > 0,
                pow256(k) == 256 * pow256((k - 1) as nat),
        ;
        lemma_be_octets_len(n / 256, (k - 1) as nat);
    }
}

/// 256 to the power `k`.
pub open spec fn pow256(k: nat) -> nat
    decreases k,
{
    if k == 0 {
        1
    } else {
        256 * pow256((k - 1) as nat)
    }
}

fn push_be(n: u64, out: &mut Vec<u8>)
    ensures
        final(out)@ == old(out)@ + be_octets(n as nat),
    decreases n,
{
    if n == 0 {
        assert(be_octets(0) =~= Seq::<u8>::empty());
        assert(old(out)@ + Seq::<u8>::empty() =~= old(out)@);
        return;
    }
    push_be(n / 256, out);
    out.push((n % 256) as u8);
}

/// Return the DER element with `tag` and `content`.
pub fn tlv(tag: u8, content: &Vec<u8>) -> (r: Vec<u8>)
    ensures
        r@ == der_tlv(tag, content@),
{
    let n = content.len() as u64;
    let mut out: Vec<u8> = vec![tag];
    if n < 128 {
        out.push(n as u8);
    } else {
        let mut len_octets: Vec<u8> = Vec::new();
        push_be(n, &mut len_octets);
        proof {
            reveal_with_fuel(pow256, 9);
            assert(pow256(8) == 18446744073709551616nat);
            lemma_be_octets_len(n as nat, 8);
        }
        out.push((128 + len_octets.len()) as u8);
        let mut i: usize = 0;
        let ghost base = out@;
        while i < len_octets.len()
            invariant
                i <= len_octets@.len(),
                out@ == base + len_octets@.subrange(0, i as int),
            decreases len_octets@.len() - i,
        {
            out.push(len_octets[i]);
            i += 1;
        }
        assert(len_octets@.subrange(0, len_octets@.len() as int) =~= len_octets@);
    }
    let ghost head = out@;
    let mut i: usize = 0;
    while i < content.len()
        invariant
            i <= content@.len(),
            out@ == head + content@.subrange(0, i as int),
        decreases content@.len() - i,
    {
        out.push(content[i]);
        i += 1;
    }
    assert(content@.subrange(0, content@.len() as int) =~= content@);
    assert(out@ =~= der_tlv(tag, content@));
    out
}

} // verus!
