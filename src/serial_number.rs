//! Certificate serial number.
use vstd::prelude::*;

verus! {

/// Smallest number of octets of a generated serial number (at least 64 bits
/// of randomness after the sign bit is cleared).
pub const MIN_SERIAL_OCTETS: usize = 9;

/// Largest number of octets of a serial number (RFC 5280).
pub const MAX_SERIAL_OCTETS: usize = 20;

/// Certificate serial number: big-endian two's complement octets.
#[derive(Debug, Clone, PartialEq, Eq)]
pub struct SerialNumber {
    pub octets: Vec<u8>,
}

/// The octets hold a positive number of at most 20 octets: the top bit of the
/// first octet is clear and some octet is non-zero.
pub open spec fn serial_wf(o: Seq<u8>) -> bool {
    0 < o.len() <= MAX_SERIAL_OCTETS && o[0] < 128 && exists|i: int| 0 <= i < o.len() && o[i] != 0
}

/// The number of octets to generate for a requested length: 20 by default,
/// else clamped to 9..=20.
pub open spec fn clamped_octets(requested: Option<usize>) -> usize {
    match requested {
        None => MAX_SERIAL_OCTETS,
        Some(n) => if n < MIN_SERIAL_OCTETS {
            MIN_SERIAL_OCTETS
        } else if n > MAX_SERIAL_OCTETS {
            MAX_SERIAL_OCTETS
        } else {
            n
        },
    }
}

/// Relies on getrandom::getrandom: fills the buffer from the operating
/// system's CSPRNG; on failure the buffer keeps its length.
#[verifier::external_body]
fn fill_random(buf: &mut Vec<u8>) -> (r: bool)
    ensures
        final(buf)@.len() == old(buf)@.len(),
{
    getrandom::getrandom(buf.as_mut_slice()).is_ok()
}

impl SerialNumber {
    /// Return a serial number from the big-endian two's complement octets
    /// that the codec reads.
    pub fn from_rasn_type(octets: Vec<u8>) -> (r: Self)
        ensures
            r.octets@ == octets@,
    {
        SerialNumber { octets }
    }

    /// Turn random octets into a serial number candidate: the top bit of the
    /// first octet is cleared so that the number is not negative.
    pub fn from_random(random: &Vec<u8>) -> (r: Vec<u8>)
        requires
            random@.len() > 0,
        ensures
            r@.len() == random@.len(),
            r@[0] == random@[0] & 0x7f,
            forall|i: int| 1 <= i < r@.len() ==> r@[i] == random@[i],
            r@[0] < 128,
    {
        let mut r = crate::parse::copy_bytes(random);
        let top: u8 = r[0];
        let first: u8 = top & 0x7f;
        assert(first < 128) by (bit_vector)
            requires
                first == top & 0x7f,
        ;
        r.set(0, first);
        r
    }

    /// Return `true` when some octet is not zero.
    pub fn is_non_zero(octets: &Vec<u8>) -> (r: bool)
        ensures
            r == exists|i: int| 0 <= i < octets@.len() && octets@[i] != 0,
    {
        let mut i: usize = 0;
        while i < octets.len()
            invariant
                i <= octets@.len(),
                forall|k: int| 0 <= k < i ==> octets@[k] == 0,
            decreases octets@.len() - i,
        {
            if octets[i] != 0 {
                return true;
            }
            i += 1;
        }
        false
    }

    /// Generate a positive, non-zero serial number of `octets` octets (20 by
    /// default, clamped to 9..=20) from the operating system's CSPRNG.
    /// Returns `None` when the random source fails.
    pub fn generate(octets: Option<usize>) -> (r: Option<Self>)
        ensures
            r matches Some(s) ==> serial_wf(s.octets@) && s.octets@.len() == clamped_octets(octets),
            r matches Some(s) ==> MIN_SERIAL_OCTETS <= s.octets@.len() <= MAX_SERIAL_OCTETS,
    {
        let n: usize = match octets {
            None => MAX_SERIAL_OCTETS,
            Some(k) => if k < MIN_SERIAL_OCTETS {
                MIN_SERIAL_OCTETS
            } else if k > MAX_SERIAL_OCTETS {
                MAX_SERIAL_OCTETS
            } else {
                k
            },
        };
        let mut attempts: usize = 0;
        while attempts < 16
            invariant
                n == clamped_octets(octets),
                MIN_SERIAL_OCTETS <= n <= MAX_SERIAL_OCTETS,
            decreases 16 - attempts,
        {
            let mut rnd: Vec<u8> = vec![127u8; n];
            if !fill_random(&mut rnd) {
                return None;
            }
            let candidate = Self::from_random(&rnd);
            if Self::is_non_zero(&candidate) {
                return Some(SerialNumber { octets: candidate });
            }
            attempts += 1;
        }
        None
    }
}

} // verus!
