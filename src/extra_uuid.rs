use crate::error::{Error, Result};
use core::cmp::Ordering;
use vstd::arithmetic::div_mod::lemma_div_is_ordered;
use vstd::arithmetic::power::*;
use vstd::prelude::*;
use vstd::std_specs::cmp::{PartialOrdSpec, PartialOrdSpecImpl};

verus! {

broadcast use {lemma_pow_adds, lemma_pow_positive};

/// The number that `b` spells with its most significant byte first.
pub open spec fn be_value(b: Seq<u8>) -> nat
    decreases b.len(),
{
    if b.len() == 0 {
        0
    } else {
        be_value(b.drop_last()) * 256 + b.last() as nat
    }
}

/// Two to the 80th: what one unit of the top 48 bits weighs in the 128-bit number.
pub open spec fn low_80_bits_span() -> nat {
    0x1_0000_0000_0000_0000_0000
}

/// A 128-bit identifier, held as its 16 bytes in big-endian order.
#[derive(Clone, Copy, Debug, PartialEq, Eq, Ord, Hash)]
pub struct Uuid {
    pub bytes: [u8; 16],
}

impl View for Uuid {
    type V = Seq<u8>;

    open spec fn view(&self) -> Seq<u8> {
        self.bytes@
    }
}

impl Uuid {
    /// The identifier as a 128-bit big-endian number.
    pub open spec fn value(self) -> nat {
        be_value(self@)
    }

    /// The version tag: the high four bits of byte 6.
    pub open spec fn version(self) -> u8 {
        self@[6] >> 4
    }

    /// The variant bits, the top two of byte 8, read `10`.
    pub open spec fn has_standard_variant(self) -> bool {
        self@[8] >> 6 == 2
    }

    /// The top 48 bits: milliseconds since the Unix epoch in a version 7 identifier.
    pub open spec fn timestamp_ms(self) -> nat {
        self.value() / low_80_bits_span()
    }

    /// The identifier whose bytes, most significant first, are `bytes`.
    pub fn from_bytes(bytes: [u8; 16]) -> (r: Uuid)
        ensures
            r@ == bytes@,
    {
        Uuid { bytes }
    }

    /// The 16 bytes of the identifier, most significant first.
    pub fn as_bytes(&self) -> (r: &[u8; 16])
        ensures
            r@ == self@,
    {
        &self.bytes
    }

    /// The version tag, as `uuid::Uuid::get_version_num` reads it.
    pub fn get_version_num(&self) -> (r: usize)
        ensures
            r == self.version(),
            r < 16,
    {
        let b: u8 = self.bytes[6];
        assert(b >> 4 < 16) by (bit_vector);
        (b >> 4) as usize
    }

    /// The identifier as a 128-bit big-endian number.
    pub fn as_u128(&self) -> (r: u128)
        ensures
            r == self.value(),
    {
        let mut acc: u128 = 0;
        let mut i: usize = 0;
        while i < 16
            invariant
                i <= 16,
                self@.len() == 16,
                acc == be_value(self@.take(i as int)),
                acc < pow(256, i as nat),
            decreases 16 - i,
        {
            proof {
                lemma_pow_increases(256, (i + 1) as nat, 16);
                lemma_pow_256_16();
                assert(self@.take(i + 1).drop_last() =~= self@.take(i as int));
                assert(pow(256, (i + 1) as nat) == pow(256, i as nat) * 256) by {
                    lemma_pow1(256);
                }
                assert(acc * 256 + 255 < pow(256, (i + 1) as nat)) by (nonlinear_arith)
                    requires
                        acc < pow(256, i as nat),
                        pow(256, (i + 1) as nat) == pow(256, i as nat) * 256,
                ;
            }
            acc = acc * 256 + self.bytes[i] as u128;
            i = i + 1;
        }
        assert(self@.take(16) =~= self@);
        acc
    }
}

/// Identifiers are ordered as their 128-bit big-endian numbers, which is the order of their
/// bytes read left to right.
impl PartialOrd for Uuid {
    fn partial_cmp(&self, other: &Uuid) -> (r: Option<Ordering>) {
        let a = self.as_u128();
        let b = other.as_u128();
        if a < b {
            Some(Ordering::Less)
        } else if a == b {
            Some(Ordering::Equal)
        } else {
            Some(Ordering::Greater)
        }
    }
}

impl PartialOrdSpecImpl for Uuid {
    open spec fn obeys_partial_cmp_spec() -> bool {
        true
    }

    open spec fn partial_cmp_spec(&self, other: &Uuid) -> Option<Ordering> {
        if self.value() < other.value() {
            Some(Ordering::Less)
        } else if self.value() == other.value() {
            Some(Ordering::Equal)
        } else {
            Some(Ordering::Greater)
        }
    }
}

/// An identifier stamped with an earlier millisecond is less than one stamped with a later
/// millisecond, whatever their remaining 80 bits hold.
pub proof fn lemma_earlier_timestamp_is_less(a: Uuid, b: Uuid)
    requires
        a.timestamp_ms() < b.timestamp_ms(),
    ensures
        <Uuid as PartialOrdSpec>::partial_cmp_spec(&a, &b) == Some(Ordering::Less),
{
    if a.value() >= b.value() {
        lemma_div_is_ordered(b.value() as int, a.value() as int, low_80_bits_span() as int);
    }
}

/// Relies on `uuid::Uuid::new_v4`: random bits, with version tag 4 and variant bits `10`.
#[verifier::external_body]
fn random_v4() -> (r: Uuid)
    ensures
        r.version() == 4,
        r.has_standard_variant(),
{
    Uuid { bytes: uuid::Uuid::new_v4().into_bytes() }
}

/// Relies on `uuid::Uuid::now_v7`: the current Unix time in milliseconds in the top 48 bits,
/// version tag 7, variant bits `10`, and counter and random bits that keep the identifiers of
/// one process in increasing order.
#[verifier::external_body]
fn clock_v7() -> (r: Uuid)
    ensures
        r.version() == 7,
        r.has_standard_variant(),
{
    Uuid { bytes: uuid::Uuid::now_v7().into_bytes() }
}

/// A new random (version 4) identifier.
pub fn new_v4() -> (r: Uuid)
    ensures
        r.version() == 4,
        r.has_standard_variant(),
{
    random_v4()
}

/// A new time-ordered (version 7) identifier; the same as `now_v7`.
pub fn new_v7() -> (r: Uuid)
    ensures
        r.version() == 7,
        r.has_standard_variant(),
{
    now_v7()
}

/// A new time-ordered (version 7) identifier stamped with the current time.
pub fn now_v7() -> (r: Uuid)
    ensures
        r.version() == 7,
        r.has_standard_variant(),
{
    clock_v7()
}

/// The milliseconds since the Unix epoch that a version 7 identifier carries in its top 48 bits.
pub fn to_time_epoch_ms(uuid: &Uuid) -> (r: Result<i64>)
    ensures
        uuid.version() != 7 ==> r == Err::<i64, Error>(Error::FailExtractTimeNoUuidV7(*uuid)),
        uuid.version() == 7 ==> r == Ok::<i64, Error>(uuid.timestamp_ms() as i64),
        r matches Ok(t) ==> 0 <= t && t as nat == uuid.timestamp_ms(),
{
    if uuid.get_version_num() != 7 {
        return Err(Error::FailExtractTimeNoUuidV7(*uuid));
    }
    let as_int: u128 = uuid.as_u128();
    assert(as_int >> 80u128 == as_int / 0x1_0000_0000_0000_0000_0000u128) by (bit_vector);
    assert(as_int / 0x1_0000_0000_0000_0000_0000u128 < 0x1_0000_0000_0000u128) by (bit_vector);
    let ts_ms = (as_int >> 80) as i64;
    Ok(ts_ms)
}

proof fn lemma_pow_256_16()
    ensures
        pow(256, 16) == 0x1_0000_0000_0000_0000_0000_0000_0000_0000,
{
    reveal_with_fuel(pow, 17);
}

} // verus!
