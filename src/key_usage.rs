//! Key Usage extension model: nine ordered flags carried as a DER BIT STRING.
use vstd::prelude::*;

verus! {

/// Object identifier of the Key Usage extension.
pub open spec fn key_usage_oid() -> Seq<u32> {
    seq![2, 5, 29, 15]
}

/// Object identifier of the Key Usage extension.
pub fn key_usage_oid_vec() -> (r: Vec<u32>)
    ensures
        r@ == key_usage_oid(),
{
    let r = vec![2u32, 5, 29, 15];
    assert(r@ =~= key_usage_oid());
    r
}

/// Key Usage flags, in the order of their bits.
#[derive(Debug, Clone, Copy, PartialEq, Eq, Structural)]
pub enum KeyUsage {
    /// Verifying digital signatures other than on certificates and CRLs.
    DigitalSignature,
    /// A.k.a. `contentCommitment`.
    NonRepudiation,
    /// Enciphering private or secret keys.
    KeyEncipherment,
    /// Enciphering data directly.
    DataEncipherment,
    /// Key agreement.
    KeyAgreement,
    /// Verifying signatures on certificates.
    KeyCertSign,
    /// Verifying signatures on revocation lists.
    CRLSign,
    /// Only enciphering during key agreement.
    EncipherOnly,
    /// Only deciphering during key agreement.
    DecipherOnly,
}

/// Bit position of a flag: 0 is `DigitalSignature`, 8 is `DecipherOnly`.
pub open spec fn ku_index(k: KeyUsage) -> nat {
    match k {
        KeyUsage::DigitalSignature => 0,
        KeyUsage::NonRepudiation => 1,
        KeyUsage::KeyEncipherment => 2,
        KeyUsage::DataEncipherment => 3,
        KeyUsage::KeyAgreement => 4,
        KeyUsage::KeyCertSign => 5,
        KeyUsage::CRLSign => 6,
        KeyUsage::EncipherOnly => 7,
        KeyUsage::DecipherOnly => 8,
    }
}

/// `true` when some flag of `kus` sits at bit `i`.
pub open spec fn ku_flag(kus: Seq<KeyUsage>, i: int) -> bool {
    exists|j: int| 0 <= j < kus.len() && ku_index(kus[j]) == i
}

/// The bits with trailing zero bits removed.
pub open spec fn trim_false(b: Seq<bool>) -> Seq<bool>
    decreases b.len(),
{
    if b.len() > 0 && !b.last() {
        trim_false(b.drop_last())
    } else {
        b
    }
}

/// The bits of the Key Usage BIT STRING for a list of flags.
pub open spec fn ku_bits(kus: Seq<KeyUsage>) -> Seq<bool> {
    trim_false(Seq::new(9, |i: int| ku_flag(kus, i)))
}

/// Trimming leaves no trailing zero bit and keeps every bit it does not remove.
pub proof fn lemma_trim_false(b: Seq<bool>)
    ensures
        trim_false(b).len() <= b.len(),
        trim_false(b).len() == 0 || trim_false(b).last(),
        trim_false(b) == b.subrange(0, trim_false(b).len() as int),
        forall|i: int| trim_false(b).len() <= i < b.len() ==> !b[i],
    decreases b.len(),
{
    if b.len() > 0 && !b.last() {
        lemma_trim_false(b.drop_last());
        assert(trim_false(b) == b.drop_last().subrange(0, trim_false(b).len() as int));
        assert(b.drop_last().subrange(0, trim_false(b).len() as int) =~= b.subrange(0, trim_false(b).len() as int));
        assert forall|i: int| trim_false(b).len() <= i < b.len() implies !b[i] by {
            if i < b.len() - 1 {
                assert(b.drop_last()[i] == b[i]);
            }
        }
    } else {
        assert(b.subrange(0, b.len() as int) =~= b);
    }
}

impl KeyUsage {
    /// Return the bit position of this flag: 0 for `DigitalSignature`, 8 for
    /// `DecipherOnly`.
    pub fn index(&self) -> (r: usize)
        ensures
            r == ku_index(*self),
            r < 9,
    {
        match self {
            KeyUsage::DigitalSignature => 0,
            KeyUsage::NonRepudiation => 1,
            KeyUsage::KeyEncipherment => 2,
            KeyUsage::DataEncipherment => 3,
            KeyUsage::KeyAgreement => 4,
            KeyUsage::KeyCertSign => 5,
            KeyUsage::CRLSign => 6,
            KeyUsage::EncipherOnly => 7,
            KeyUsage::DecipherOnly => 8,
        }
    }

    /// The bits of the Key Usage BIT STRING for `key_usages`: bit `i` is set
    /// when a flag at position `i` is listed, trailing zero bits are removed.
    pub fn to_bits(key_usages: &[KeyUsage]) -> (r: Vec<bool>)
        ensures
            r@ == ku_bits(key_usages@),
            r@.len() == 0 || r@.last(),
    {
        let mut full: Vec<bool> = Vec::new();
        let mut i: usize = 0;
        while i < 9
            invariant
                i <= 9,
                full@.len() == i,
                forall|k: int| 0 <= k < i ==> full@[k] == ku_flag(key_usages@, k),
            decreases 9 - i,
        {
            let mut found = false;
            let mut j: usize = 0;
            while j < key_usages.len()
                invariant
                    j <= key_usages@.len(),
                    found == exists|m: int| 0 <= m < j && ku_index(key_usages@[m]) == i,
                decreases key_usages@.len() - j,
            {
                if key_usages[j].index() == i {
                    found = true;
                }
                j += 1;
            }
            full.push(found);
            i += 1;
        }
        assert(full@ =~= Seq::new(9, |k: int| ku_flag(key_usages@, k)));
        let ghost whole = full@;
        while full.len() > 0 && !full[full.len() - 1]
            invariant
                trim_false(full@) == trim_false(whole),
            decreases full@.len(),
        {
            let ghost before = full@;
            full.pop();
            assert(full@ =~= before.drop_last());
        }
        proof {
            lemma_trim_false(whole);
        }
        full
    }

    /// The nine flags that a Key Usage BIT STRING carries; bits beyond the
    /// string are clear.
    pub fn flags_of_bits(bits: &[bool]) -> (r: [bool; 9])
        ensures
            forall|i: int| 0 <= i < 9 ==> r@[i] == (i < bits@.len() && bits@[i]),
    {
        let mut r = [false; 9];
        let mut i: usize = 0;
        while i < 9
            invariant
                i <= 9,
                r@.len() == 9,
                forall|k: int| 0 <= k < i ==> r@[k] == (k < bits@.len() && bits@[k]),
                forall|k: int| i <= k < 9 ==> !r@[k],
            decreases 9 - i,
        {
            if i < bits.len() {
                r[i] = bits[i];
            }
            i += 1;
        }
        r
    }
}

} // verus!

verus! {

/// The flags that a Key Usage BIT STRING carries are exactly those listed
/// when it was built: removing trailing zero bits loses no flag.
pub proof fn lemma_key_usage_bits_round_trip(kus: Seq<KeyUsage>, i: int)
    requires
        0 <= i < 9,
    ensures
        (i < ku_bits(kus).len() && ku_bits(kus)[i]) == ku_flag(kus, i),
{
    let full = Seq::new(9, |k: int| ku_flag(kus, k));
    lemma_trim_false(full);
    let t = trim_false(full);
    assert(ku_bits(kus) == t);
    assert(full[i] == ku_flag(kus, i));
    if i < t.len() {
        assert(t[i] == full.subrange(0, t.len() as int)[i]);
        assert(full.subrange(0, t.len() as int)[i] == full[i]);
    } else {
        assert(!full[i]);
    }
}

} // verus!

verus! {

impl KeyUsage {
    /// Return the DER BIT STRING of the flags, without trailing zero bits.
    pub fn to_rasn_type(key_usages: &[KeyUsage]) -> (r: Option<Vec<u8>>)
        ensures
            r matches Some(b) ==> b@ == crate::der::der_bit_string(ku_bits(key_usages@)),
            r is Some,
    {
        let bits = Self::to_bits(key_usages);
        crate::der::encode_bit_string(bits.as_slice())
    }

    /// Return the nine flags that a DER Key Usage BIT STRING carries.
    pub fn from_rasn_type(key_usage: &[u8]) -> (r: Option<[bool; 9]>)
        ensures
            r is Some <==> crate::der::key_usage_bits_of_der(key_usage@) is Some,
            r matches Some(flags) ==> forall|i: int| 0 <= i < 9 ==> flags@[i] == (i < crate::der::key_usage_bits_of_der(key_usage@).unwrap().len()
                && crate::der::key_usage_bits_of_der(key_usage@).unwrap()[i]),
    {
        match crate::der::decode_key_usage(key_usage) {
            Some(bits) => Some(Self::flags_of_bits(bits.as_slice())),
            None => None,
        }
    }
}

} // verus!
