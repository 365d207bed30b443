use vstd::prelude::*;
use vstd::std_specs::cmp::PartialEqSpec;

verus! {

/// A measured quantity (a mass, a retention time, an m/z value or an
/// intensity), held as the bit pattern of its IEEE 754 binary64 encoding.
#[derive(Clone, Copy, Debug, PartialEq, Eq, Structural)]
pub struct Measure {
    pub bits: u64,
}

impl Measure {
    /// The quantity whose binary64 encoding is `bits`.
    pub fn from_bits(bits: u64) -> (r: Measure)
        ensures
            r.bits == bits,
    {
        Measure { bits }
    }

    /// Positive zero, whose encoding has every bit clear.
    pub open spec fn spec_zero() -> Measure {
        Measure { bits: 0 }
    }

    /// Positive zero.
    pub fn zero() -> (r: Measure)
        ensures
            r == Measure::spec_zero(),
    {
        Measure { bits: 0 }
    }
}

/// A spectrum record: the parent ion's mass and retention time, and the m/z
/// values and intensities of its fragment ions, index-aligned.
pub trait MGFLike {
    /// The fragment m/z values, in stored order.
    spec fn mz_view(&self) -> Seq<Measure>;

    /// The fragment intensities, in the same order as the m/z values.
    spec fn intensity_view(&self) -> Seq<Measure>;

    /// The parent ion's mass.
    spec fn mass_view(&self) -> Measure;

    /// The parent ion's retention time, in seconds.
    spec fn retention_time_view(&self) -> Measure;

    fn iter_mz2(&self) -> (r: &[Measure])
        ensures
            r@ == self.mz_view(),
    ;

    fn iter_mz2_intensity(&self) -> (r: &[Measure])
        ensures
            r@ == self.intensity_view(),
    ;

    fn get_ms1_mass(&self) -> (r: Measure)
        ensures
            r == self.mass_view(),
    ;

    fn get_ms1_retention_time(&self) -> (r: Measure)
        ensures
            r == self.retention_time_view(),
    ;
}

/// A spectrum record held as plain vectors.
#[derive(Clone)]
pub struct ExampleMGF {
    pub ms1_mass: Measure,
    pub ms1_retention_time: Measure,
    pub ms2_mass: Vec<Measure>,
    pub ms2_intensity: Vec<Measure>,
}

impl MGFLike for ExampleMGF {
    open spec fn mz_view(&self) -> Seq<Measure> {
        self.ms2_mass@
    }

    open spec fn intensity_view(&self) -> Seq<Measure> {
        self.ms2_intensity@
    }

    open spec fn mass_view(&self) -> Measure {
        self.ms1_mass
    }

    open spec fn retention_time_view(&self) -> Measure {
        self.ms1_retention_time
    }

    fn iter_mz2(&self) -> (r: &[Measure]) {
        self.ms2_mass.as_slice()
    }

    fn iter_mz2_intensity(&self) -> (r: &[Measure]) {
        self.ms2_intensity.as_slice()
    }

    fn get_ms1_mass(&self) -> (r: Measure) {
        self.ms1_mass
    }

    fn get_ms1_retention_time(&self) -> (r: Measure) {
        self.ms1_retention_time
    }
}

/// Whether two sequences of measures agree element by element.
fn same_measures(a: &[Measure], b: &[Measure]) -> (r: bool)
    ensures
        r == (a@ == b@),
{
    if a.len() != b.len() {
        return false;
    }
    let mut i: usize = 0;
    while i < a.len()
        invariant
            a@.len() == b@.len(),
            0 <= i <= a@.len(),
            forall|k: int| 0 <= k < i ==> a@[k] == b@[k],
        decreases a@.len() - i,
    {
        if a[i].bits != b[i].bits {
            return false;
        }
        i = i + 1;
    }
    assert(a@ =~= b@);
    true
}

impl PartialEq for ExampleMGF {
    fn eq(&self, o: &ExampleMGF) -> (r: bool) {
        self.ms1_mass.bits == o.ms1_mass.bits
            && self.ms1_retention_time.bits == o.ms1_retention_time.bits
            && same_measures(self.ms2_mass.as_slice(), o.ms2_mass.as_slice())
            && same_measures(self.ms2_intensity.as_slice(), o.ms2_intensity.as_slice())
    }
}

impl vstd::std_specs::cmp::PartialEqSpecImpl for ExampleMGF {
    open spec fn obeys_eq_spec() -> bool {
        true
    }

    open spec fn eq_spec(&self, o: &ExampleMGF) -> bool {
        &&& self.mass_view() == o.mass_view()
        &&& self.retention_time_view() == o.retention_time_view()
        &&& self.mz_view() == o.mz_view()
        &&& self.intensity_view() == o.intensity_view()
    }
}

/// Two records compare equal exactly when their masses, retention times,
/// m/z sequences and intensity sequences are all the same; a difference in any
/// one of them makes them unequal.
pub proof fn lemma_records_equal_iff_fields(a: ExampleMGF, b: ExampleMGF)
    ensures
        a.eq_spec(&b) <==> (a.mass_view() == b.mass_view() && a.retention_time_view()
            == b.retention_time_view() && a.mz_view() == b.mz_view() && a.intensity_view()
            == b.intensity_view()),
{
}

impl ExampleMGF {
    /// A record with the given parent mass, retention time, fragment m/z
    /// values and fragment intensities.
    pub fn new(
        ms1_mass: Measure,
        ms1_retention_time: Measure,
        ms2_mass: Vec<Measure>,
        ms2_intensity: Vec<Measure>,
    ) -> (r: ExampleMGF)
        ensures
            r.mass_view() == ms1_mass,
            r.retention_time_view() == ms1_retention_time,
            r.mz_view() == ms2_mass@,
            r.intensity_view() == ms2_intensity@,
    {
        ExampleMGF { ms1_mass, ms1_retention_time, ms2_mass, ms2_intensity }
    }

    /// A sample MS2 spectrum of 42 fragments, from a parent ion of mass
    /// 520.3401184082031 at retention time 450.62851800000004 s.
    pub fn example1() -> (r: ExampleMGF)
        ensures
            r.mass_view().bits == 0x408042b890000000,
            r.retention_time_view().bits == 0x407c2a0e68e3ef29,
            r.mz_view().len() == 42,
            r.intensity_view().len() == 42,
            r.mz_view()[0].bits == 0x4049c735e0000000,
            r.intensity_view()[0].bits == 0x413b774000000000,
            r.mz_view()[41].bits == 0x408042b720000000,
            r.intensity_view()[41].bits == 0x4191679100000000,
    {
        let ms2_mass = vec![
            Measure { bits: 0x4049c735e0000000 },
            Measure { bits: 0x404b871260000000 },
            Measure { bits: 0x404ce86ac0000000 },
            Measure { bits: 0x404d087780000000 },
            Measure { bits: 0x404e0a7380000000 },
            Measure { bits: 0x404e411cc0000000 },
            Measure { bits: 0x4050c385c0000000 },
            Measure { bits: 0x40514486c0000000 },
            Measure { bits: 0x4051c4b820000000 },
            Measure { bits: 0x4053c38160000000 },
            Measure { bits: 0x4054448400000000 },
            Measure { bits: 0x4054b4a1c0000000 },
            Measure { bits: 0x4054c58040000000 },
            Measure { bits: 0x40558635e0000000 },
            Measure { bits: 0x4055fd3320000000 },
            Measure { bits: 0x4057448580000000 },
            Measure { bits: 0x4057bcd4c0000000 },
            Measure { bits: 0x4057c58000000000 },
            Measure { bits: 0x40580e8640000000 },
            Measure { bits: 0x4058383820000000 },
            Measure { bits: 0x4058a72b00000000 },
            Measure { bits: 0x4058bf0680000000 },
            Measure { bits: 0x405a05f2c0000000 },
            Measure { bits: 0x405a06e020000000 },
            Measure { bits: 0x405a073720000000 },
            Measure { bits: 0x405ac581e0000000 },
            Measure { bits: 0x405b467e60000000 },
            Measure { bits: 0x405ec780e0000000 },
            Measure { bits: 0x405f3fff80000000 },
            Measure { bits: 0x405f4098a0000000 },
            Measure { bits: 0x406131e7c0000000 },
            Measure { bits: 0x4064607c80000000 },
            Measure { bits: 0x4067014400000000 },
            Measure { bits: 0x4067025920000000 },
            Measure { bits: 0x406d944a00000000 },
            Measure { bits: 0x407021c580000000 },
            Measure { bits: 0x4075145b60000000 },
            Measure { bits: 0x407b2ee6c0000000 },
            Measure { bits: 0x407b6e4940000000 },
            Measure { bits: 0x407cbeb5a0000000 },
            Measure { bits: 0x407f653f40000000 },
            Measure { bits: 0x408042b720000000 },
        ];
        let ms2_intensity = vec![
            Measure { bits: 0x413b774000000000 },
            Measure { bits: 0x4130c8e000000000 },
            Measure { bits: 0x414e848000000000 },
            Measure { bits: 0x414312d000000000 },
            Measure { bits: 0x418406f400000000 },
            Measure { bits: 0x4130c8e000000000 },
            Measure { bits: 0x4154fb1800000000 },
            Measure { bits: 0x41418c3000000000 },
            Measure { bits: 0x4161edd800000000 },
            Measure { bits: 0x414312d000000000 },
            Measure { bits: 0x4153747800000000 },
            Measure { bits: 0x4133d62000000000 },
            Measure { bits: 0x41355cc000000000 },
            Measure { bits: 0x419c9c3800000000 },
            Measure { bits: 0x41324f8000000000 },
            Measure { bits: 0x413cfde000000000 },
            Measure { bits: 0x41324f8000000000 },
            Measure { bits: 0x4156201000000000 },
            Measure { bits: 0x4130c8e000000000 },
            Measure { bits: 0x414f47d000000000 },
            Measure { bits: 0x4130c8e000000000 },
            Measure { bits: 0x41492d5000000000 },
            Measure { bits: 0x413e848000000000 },
            Measure { bits: 0x41b3ab6680000000 },
            Measure { bits: 0x415bd8e800000000 },
            Measure { bits: 0x4139f0a000000000 },
            Measure { bits: 0x4140059000000000 },
            Measure { bits: 0x4133d62000000000 },
            Measure { bits: 0x418c222600000000 },
            Measure { bits: 0x4139f0a000000000 },
            Measure { bits: 0x4133d62000000000 },
            Measure { bits: 0x4147a6b000000000 },
            Measure { bits: 0x413b774000000000 },
            Measure { bits: 0x41b3ab6680000000 },
            Measure { bits: 0x41324f8000000000 },
            Measure { bits: 0x41424f8000000000 },
            Measure { bits: 0x4143d62000000000 },
            Measure { bits: 0x4133d62000000000 },
            Measure { bits: 0x4133d62000000000 },
            Measure { bits: 0x41355cc000000000 },
            Measure { bits: 0x4168cba800000000 },
            Measure { bits: 0x4191679100000000 },
        ];
        ExampleMGF {
            ms1_mass: Measure { bits: 0x408042b890000000 },
            ms1_retention_time: Measure { bits: 0x407c2a0e68e3ef29 },
            ms2_mass,
            ms2_intensity,
        }
    }
}

} // verus!
