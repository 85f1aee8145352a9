//! Platform configuration registers: the measured-identity slots a document
//! embeds.
//!
//! A [`Pcrs`] value holds [`PCR_COUNT`] ordered slots of [`PCR_BYTES`] bytes
//! each. Three construction modes: all-zero defaults, deterministic
//! derivation from seed strings, and a cryptographically random fill.

use vstd::prelude::*;

use crate::doc::AttestError;

verus! {

broadcast use vstd::std_specs::vec::vec_clone_deep_view_proof;

/// Number of platform configuration registers in a document.
pub const PCR_COUNT: usize = 16;

/// Size in bytes of one register value under SHA-384.
pub const PCR_BYTES: usize = 48;

/// What SHA-384 returns on the UTF-8 bytes of the given string. The result
/// depends on the characters alone.
pub uninterp spec fn sha384_of(s: Seq<char>) -> Seq<u8>;

/// The SHA-384 no-measurement value: all zero bytes.
pub open spec fn zero_value() -> Seq<u8> {
    Seq::new(PCR_BYTES as nat, |i: int| 0u8)
}

/// Every slot at the no-measurement value.
pub open spec fn zero_slots() -> Seq<Seq<u8>> {
    Seq::new(PCR_COUNT as nat, |i: int| zero_value())
}

/// Slot values deterministically derived from seed strings, slot for slot.
pub open spec fn seeded_from(slots: Seq<Seq<u8>>, seeds: Seq<Seq<char>>) -> bool {
    &&& slots.len() == PCR_COUNT
    &&& seeds.len() == PCR_COUNT
    &&& forall|i: int| 0 <= i < PCR_COUNT ==> #[trigger] slots[i] == sha384_of(seeds[i])
}

/// A full set of register values. Constructed once per document build and
/// immutable afterwards; the slot vector always holds [`PCR_COUNT`] entries
/// of [`PCR_BYTES`] bytes each (see [`Pcrs::wf`]).
#[derive(Debug, Clone, PartialEq, Eq)]
pub struct Pcrs {
    slots: Vec<Vec<u8>>,
}

impl View for Pcrs {
    type V = Seq<Seq<u8>>;

    closed spec fn view(&self) -> Seq<Seq<u8>> {
        self.slots.deep_view()
    }
}

/// Relies on `sha2::Sha384` through `digest::Digest::digest`: the SHA-384
/// digest of the seed's UTF-8 bytes, 48 bytes long.
#[verifier::external_body]
fn sha384_seed(s: &str) -> (r: Vec<u8>)
    ensures
        r@ == sha384_of(s@),
        r@.len() == PCR_BYTES,
{
    let d = <sha2::Sha384 as sha2::Digest>::digest(s.as_bytes());
    d.to_vec()
}

/// Relies on `rand::rngs::OsRng` through `rand::RngCore::fill_bytes`: fills
/// the slot from the operating system's secure random source. A failing
/// source aborts the process — an unusable cryptographic environment must
/// not come back as a value.
#[verifier::external_body]
fn random_value() -> (r: Vec<u8>)
    ensures
        r@.len() == PCR_BYTES,
{
    let mut buf = [0u8; 48];
    rand::RngCore::fill_bytes(&mut rand::rngs::OsRng, &mut buf);
    buf.to_vec()
}

impl Pcrs {
    /// Well-formedness: exactly [`PCR_COUNT`] slots of [`PCR_BYTES`] bytes.
    pub open spec fn wf(self) -> bool {
        &&& self@.len() == PCR_COUNT
        &&& forall|i: int| 0 <= i < PCR_COUNT ==> (#[trigger] self@[i]).len() == PCR_BYTES
    }

    /// Derive every slot from its seed string: slot `i` is the SHA-384
    /// digest of `seeds[i]`. Deterministic: equal seed arrays give equal
    /// register sets (see [`lemma_seed_deterministic`]). An empty seed
    /// string is rejected with `InvalidSeed`.
    pub fn seed(seeds: [String; 16]) -> (r: Result<Pcrs, AttestError>)
        ensures
            r matches Ok(p) ==> p.wf() && seeded_from(p@, seeds@.map_values(|s: String| s@)),
            r is Ok <==> forall|i: int| 0 <= i < PCR_COUNT ==> (#[trigger] seeds@[i])@.len() > 0,
            r matches Err(e) ==> e == AttestError::InvalidSeed,
    {
        let ss = seeds.as_slice();
        let mut slots: Vec<Vec<u8>> = Vec::new();
        let mut i: usize = 0;
        while i < PCR_COUNT
            invariant
                0 <= i <= PCR_COUNT,
                ss@ == seeds@,
                seeds@.len() == PCR_COUNT,
                slots@.len() == i,
                forall|j: int| 0 <= j < i ==> (#[trigger] slots@[j])@ == sha384_of(seeds@[j]@),
                forall|j: int| 0 <= j < i ==> (#[trigger] slots@[j])@.len() == PCR_BYTES,
                forall|j: int| 0 <= j < i ==> (#[trigger] seeds@[j])@.len() > 0,
            decreases PCR_COUNT - i,
        {
            let s: &String = &ss[i];
            if s.as_str().is_empty() {
                proof {
                    assert((seeds@[i as int])@.len() == 0);
                }
                return Err(AttestError::InvalidSeed);
            }
            slots.push(sha384_seed(s.as_str()));
            i = i + 1;
        }
        let p = Pcrs { slots };
        proof {
            assert forall|j: int| 0 <= j < PCR_COUNT implies #[trigger] p@[j] == (
            slots@[j])@ by {
                assert(slots@[j].deep_view() =~= slots@[j]@);
            }
        }
        Ok(p)
    }

    /// Fill every slot from a secure random source. No determinism is
    /// promised: two successive calls give unrelated values.
    pub fn rand() -> (r: Pcrs)
        ensures
            r.wf(),
    {
        let mut slots: Vec<Vec<u8>> = Vec::new();
        let mut i: usize = 0;
        while i < PCR_COUNT
            invariant
                0 <= i <= PCR_COUNT,
                slots@.len() == i,
                forall|j: int| 0 <= j < i ==> (#[trigger] slots@[j])@.len() == PCR_BYTES,
            decreases PCR_COUNT - i,
        {
            slots.push(random_value());
            i = i + 1;
        }
        let p = Pcrs { slots };
        proof {
            assert forall|j: int| 0 <= j < PCR_COUNT implies (#[trigger] p@[j]).len()
                == PCR_BYTES by {
                assert(slots@[j].deep_view() =~= slots@[j]@);
            }
        }
        p
    }

    /// The register entries as the document codec consumes them: one entry
    /// per slot, keyed by its index, in increasing index order.
    pub fn to_entries(&self) -> (r: Vec<(usize, Vec<u8>)>)
        requires
            self.wf(),
        ensures
            r.deep_view() == entries_of(self@),
    {
        let mut r: Vec<(usize, Vec<u8>)> = Vec::new();
        let mut i: usize = 0;
        while i < PCR_COUNT
            invariant
                self.wf(),
                0 <= i <= PCR_COUNT,
                r@.len() == i,
                forall|j: int| 0 <= j < i ==> (#[trigger] r@[j]).0 == j as usize && r@[j].1@
                    == self@[j],
            decreases PCR_COUNT - i,
        {
            let v: Vec<u8> = self.slots[i].clone();
            proof {
                assert(self.slots@[i as int].deep_view() =~= self.slots@[i as int]@);
                assert(v@ == self@[i as int]);
            }
            r.push((i, v));
            i = i + 1;
        }
        proof {
            assert forall|j: int| 0 <= j < PCR_COUNT implies #[trigger] r.deep_view()[j] == (
            j as usize, self@[j]) by {
                assert(r@[j].deep_view() =~= (r@[j].0, r@[j].1@));
            }
            assert(r.deep_view() =~= entries_of(self@));
        }
        r
    }
}

/// The entry list corresponding to a slot sequence: `(i, slots[i])` for each
/// index in order.
pub open spec fn entries_of(slots: Seq<Seq<u8>>) -> Seq<(usize, Seq<u8>)> {
    Seq::new(slots.len(), |i: int| (i as usize, slots[i]))
}

impl Default for Pcrs {
    /// Every slot at the SHA-384 no-measurement value: all zero bytes.
    fn default() -> (r: Pcrs)
        ensures
            r.wf(),
            r@ == zero_slots(),
    {
        let mut slots: Vec<Vec<u8>> = Vec::new();
        let mut i: usize = 0;
        while i < PCR_COUNT
            invariant
                0 <= i <= PCR_COUNT,
                slots@.len() == i,
                forall|j: int| 0 <= j < i ==> (#[trigger] slots@[j])@ == zero_value(),
            decreases PCR_COUNT - i,
        {
            let mut v: Vec<u8> = Vec::new();
            let mut j: usize = 0;
            while j < PCR_BYTES
                invariant
                    0 <= j <= PCR_BYTES,
                    v@.len() == j,
                    forall|k: int| 0 <= k < j ==> v@[k] == 0u8,
                decreases PCR_BYTES - j,
            {
                v.push(0u8);
                j = j + 1;
            }
            proof {
                assert(v@ =~= zero_value());
            }
            slots.push(v);
            i = i + 1;
        }
        let p = Pcrs { slots };
        proof {
            assert forall|j: int| 0 <= j < PCR_COUNT implies #[trigger] p@[j] == zero_value() by {
                assert(slots@[j].deep_view() =~= slots@[j]@);
            }
            assert(p@ =~= zero_slots());
        }
        p
    }
}

/// PCR seeding is deterministic: slot sequences seeded from equal seed
/// sequences are equal.
pub proof fn lemma_seed_deterministic(
    a: Seq<Seq<u8>>,
    b: Seq<Seq<u8>>,
    s1: Seq<Seq<char>>,
    s2: Seq<Seq<char>>,
)
    requires
        seeded_from(a, s1),
        seeded_from(b, s2),
        s1 == s2,
    ensures
        a == b,
{
    assert(a =~= b);
}

} // verus!
