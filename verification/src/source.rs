use vstd::prelude::*;
use crate::variant::NoiseValue;
use rand::SeedableRng;
use rand_xoshiro::Xoroshiro128Plus;
use rodio::source::noise::{Blue, Brownian, Pink, Velvet, Violet, WhiteGaussian, WhiteTriangular,
    WhiteUniform};
use rodio::source::SeekError;

verus! {

#[verifier::external_type_specification]
#[verifier::external_body]
pub struct ExXoroshiro128Plus(Xoroshiro128Plus);

/// Holds rodio's uniform white noise generator, opaque to verification.
#[verifier::external_body]
struct WhiteGen(WhiteUniform<Xoroshiro128Plus>);

/// Holds rodio's Gaussian white noise generator, opaque to verification.
#[verifier::external_body]
struct GaussianGen(WhiteGaussian<Xoroshiro128Plus>);

/// Holds rodio's triangular white noise generator, opaque to verification.
#[verifier::external_body]
struct TriangularGen(WhiteTriangular<Xoroshiro128Plus>);

/// Holds rodio's pink noise generator, opaque to verification.
#[verifier::external_body]
struct PinkGen(Pink<Xoroshiro128Plus>);

/// Holds rodio's blue noise generator, opaque to verification.
#[verifier::external_body]
struct BlueGen(Blue<Xoroshiro128Plus>);

/// Holds rodio's violet noise generator, opaque to verification.
#[verifier::external_body]
struct VioletGen(Violet<Xoroshiro128Plus>);

/// Holds rodio's brownian noise generator, opaque to verification.
#[verifier::external_body]
struct BrownianGen(Brownian<Xoroshiro128Plus>);

/// Holds rodio's velvet noise generator, opaque to verification.
#[verifier::external_body]
struct VelvetGen(Velvet<Xoroshiro128Plus>);

#[verifier::external_type_specification]
#[verifier::external_body]
pub struct ExSeekError(SeekError);

/// The fixed 16-byte seed every run starts from: with it, a run with a
/// given variant produces one reproducible sample sequence.
pub open spec fn seed_bytes() -> Seq<u8> {
    seq![
        0x45u8,
        0x6Eu8,
        0x6Au8,
        0x6Fu8,
        0x79u8,
        0x20u8,
        0x74u8,
        0x2Eu8,
        0x20u8,
        0x73u8,
        0x69u8,
        0x6Cu8,
        0x65u8,
        0x6Eu8,
        0x63u8,
        0x65u8,
    ]
}

/// The fixed seed, as the byte array the pseudo-random source is built
/// from.
pub fn default_seed() -> (r: [u8; 16])
    ensures
        r@ == seed_bytes(),
{
    let r: [u8; 16] = [
        0x45u8,
        0x6Eu8,
        0x6Au8,
        0x6Fu8,
        0x79u8,
        0x20u8,
        0x74u8,
        0x2Eu8,
        0x20u8,
        0x73u8,
        0x69u8,
        0x6Cu8,
        0x65u8,
        0x6Eu8,
        0x63u8,
        0x65u8,
    ];
    proof {
        assert(r@ =~= seed_bytes());
    }
    r
}

/// Relies on rand's `SeedableRng::from_seed` for `Xoroshiro128Plus`: the
/// owned pseudo-random bit source, built deterministically from its
/// 16-byte seed.
#[verifier::external_body]
fn rng_from_seed(seed: [u8; 16]) -> Xoroshiro128Plus {
    Xoroshiro128Plus::from_seed(seed)
}

/// Relies on rodio's `WhiteUniform::new_with_rng`: builds the uniform
/// white noise generator for a positive sample rate.
#[verifier::external_body]
fn new_white(rate: u32, rng: Xoroshiro128Plus) -> WhiteGen
    requires
        1 <= rate,
{
    WhiteGen(WhiteUniform::new_with_rng(std::num::NonZero::new(rate).unwrap(), rng))
}

/// Relies on rodio's `WhiteGaussian::new_with_rng`: builds the Gaussian
/// white noise generator for a positive sample rate.
#[verifier::external_body]
fn new_gaussian(rate: u32, rng: Xoroshiro128Plus) -> GaussianGen
    requires
        1 <= rate,
{
    GaussianGen(WhiteGaussian::new_with_rng(std::num::NonZero::new(rate).unwrap(), rng))
}

/// Relies on rodio's `WhiteTriangular::new_with_rng`: builds the
/// triangular white noise generator for a positive sample rate.
#[verifier::external_body]
fn new_triangular(rate: u32, rng: Xoroshiro128Plus) -> TriangularGen
    requires
        1 <= rate,
{
    TriangularGen(WhiteTriangular::new_with_rng(std::num::NonZero::new(rate).unwrap(), rng))
}

/// Relies on rodio's `Pink::new_with_rng`: builds the pink noise
/// generator for a positive sample rate.
#[verifier::external_body]
fn new_pink(rate: u32, rng: Xoroshiro128Plus) -> PinkGen
    requires
        1 <= rate,
{
    PinkGen(Pink::new_with_rng(std::num::NonZero::new(rate).unwrap(), rng))
}

/// Relies on rodio's `Blue::new_with_rng`: builds the blue noise
/// generator for a positive sample rate.
#[verifier::external_body]
fn new_blue(rate: u32, rng: Xoroshiro128Plus) -> BlueGen
    requires
        1 <= rate,
{
    BlueGen(Blue::new_with_rng(std::num::NonZero::new(rate).unwrap(), rng))
}

/// Relies on rodio's `Violet::new_with_rng`: builds the violet noise
/// generator for a positive sample rate.
#[verifier::external_body]
fn new_violet(rate: u32, rng: Xoroshiro128Plus) -> VioletGen
    requires
        1 <= rate,
{
    VioletGen(Violet::new_with_rng(std::num::NonZero::new(rate).unwrap(), rng))
}

/// Relies on rodio's `Brownian::new_with_rng`: builds the brownian noise
/// generator for a positive sample rate.
#[verifier::external_body]
fn new_brownian(rate: u32, rng: Xoroshiro128Plus) -> BrownianGen
    requires
        1 <= rate,
{
    BrownianGen(Brownian::new_with_rng(std::num::NonZero::new(rate).unwrap(), rng))
}

/// Relies on rodio's `Velvet::new_with_rng`: builds the velvet noise
/// generator for a positive sample rate.
#[verifier::external_body]
fn new_velvet(rate: u32, rng: Xoroshiro128Plus) -> VelvetGen
    requires
        1 <= rate,
{
    VelvetGen(Velvet::new_with_rng(std::num::NonZero::new(rate).unwrap(), rng))
}

/// Relies on rodio's `WhiteUniform` iteration: the stream never ends, so
/// a sample is always produced; it is handed back as its bit pattern.
#[verifier::external_body]
fn next_white(g: &mut WhiteGen) -> (r: Option<u32>)
    ensures
        r is Some,
{
    g.0.next().map(|s| s.to_bits())
}

/// Relies on rodio's `WhiteGaussian` iteration: the stream never ends, so
/// a sample is always produced; it is handed back as its bit pattern.
#[verifier::external_body]
fn next_gaussian(g: &mut GaussianGen) -> (r: Option<u32>)
    ensures
        r is Some,
{
    g.0.next().map(|s| s.to_bits())
}

/// Relies on rodio's `WhiteTriangular` iteration: the stream never ends,
/// so a sample is always produced; it is handed back as its bit pattern.
#[verifier::external_body]
fn next_triangular(g: &mut TriangularGen) -> (r: Option<u32>)
    ensures
        r is Some,
{
    g.0.next().map(|s| s.to_bits())
}

/// Relies on rodio's `Pink` iteration: the stream never ends, so a sample
/// is always produced; it is handed back as its bit pattern.
#[verifier::external_body]
fn next_pink(g: &mut PinkGen) -> (r: Option<u32>)
    ensures
        r is Some,
{
    g.0.next().map(|s| s.to_bits())
}

/// Relies on rodio's `Blue` iteration: the stream never ends, so a sample
/// is always produced; it is handed back as its bit pattern.
#[verifier::external_body]
fn next_blue(g: &mut BlueGen) -> (r: Option<u32>)
    ensures
        r is Some,
{
    g.0.next().map(|s| s.to_bits())
}

/// Relies on rodio's `Violet` iteration: the stream never ends, so a
/// sample is always produced; it is handed back as its bit pattern.
#[verifier::external_body]
fn next_violet(g: &mut VioletGen) -> (r: Option<u32>)
    ensures
        r is Some,
{
    g.0.next().map(|s| s.to_bits())
}

/// Relies on rodio's `Brownian` iteration: the stream never ends, so a
/// sample is always produced; it is handed back as its bit pattern.
#[verifier::external_body]
fn next_brownian(g: &mut BrownianGen) -> (r: Option<u32>)
    ensures
        r is Some,
{
    g.0.next().map(|s| s.to_bits())
}

/// Relies on rodio's `Velvet` iteration: the stream never ends, so a
/// sample is always produced; it is handed back as its bit pattern.
#[verifier::external_body]
fn next_velvet(g: &mut VelvetGen) -> (r: Option<u32>)
    ensures
        r is Some,
{
    g.0.next().map(|s| s.to_bits())
}

/// The generator state of whichever variant is active, holding its owned
/// pseudo-random source.
enum NoiseGen {
    White(WhiteGen),
    Gaussian(GaussianGen),
    Triangular(TriangularGen),
    Pink(PinkGen),
    Blue(BlueGen),
    Violet(VioletGen),
    Brownian(BrownianGen),
    Velvet(VelvetGen),
}

/// Which variant's generator is held.
spec fn gen_tag(g: NoiseGen) -> NoiseValue {
    match g {
        NoiseGen::White(_) => NoiseValue::White,
        NoiseGen::Gaussian(_) => NoiseValue::Gaussian,
        NoiseGen::Triangular(_) => NoiseValue::Triangular,
        NoiseGen::Pink(_) => NoiseValue::Pink,
        NoiseGen::Blue(_) => NoiseValue::Blue,
        NoiseGen::Violet(_) => NoiseValue::Violet,
        NoiseGen::Brownian(_) => NoiseValue::Brownian,
        NoiseGen::Velvet(_) => NoiseValue::Velvet,
    }
}

/// The unified source: one wrapper over whichever of the eight generator
/// variants is active, dispatching each call by an exhaustive branch on
/// the active tag. All variants are mono and logically infinite.
pub struct Noise {
    variant: NoiseValue,
    rate: u32,
    gen: NoiseGen,
}

impl Noise {
    /// The variant this source was built for.
    pub closed spec fn variant_spec(self) -> NoiseValue {
        self.variant
    }

    /// The sample rate supplied at construction.
    pub closed spec fn rate_spec(self) -> u32 {
        self.rate
    }

    /// The held generator is the active variant's, and the rate is
    /// positive.
    pub closed spec fn wf(self) -> bool {
        &&& 1 <= self.rate
        &&& gen_tag(self.gen) == self.variant
    }

    /// Advance the stream by one sample and return its bit pattern. The
    /// stream is infinite: a sample is always produced. Pulling mutates
    /// only the generator state; variant and rate are kept.
    pub fn next(&mut self) -> (r: Option<u32>)
        requires
            old(self).wf(),
        ensures
            final(self).wf(),
            r is Some,
            final(self).variant_spec() == old(self).variant_spec(),
            final(self).rate_spec() == old(self).rate_spec(),
    {
        match &mut self.gen {
            NoiseGen::White(g) => next_white(g),
            NoiseGen::Gaussian(g) => next_gaussian(g),
            NoiseGen::Triangular(g) => next_triangular(g),
            NoiseGen::Pink(g) => next_pink(g),
            NoiseGen::Blue(g) => next_blue(g),
            NoiseGen::Violet(g) => next_violet(g),
            NoiseGen::Brownian(g) => next_brownian(g),
            NoiseGen::Velvet(g) => next_velvet(g),
        }
    }

    /// Every variant is a mono source.
    pub fn channels(&self) -> (r: u16)
        ensures
            r == 1,
    {
        1
    }

    /// The sample rate supplied at construction, unchanged.
    pub fn sample_rate(&self) -> (r: u32)
        ensures
            r == self.rate_spec(),
    {
        self.rate
    }

    /// The stream is unbounded: it has no current span.
    pub fn current_span_len(&self) -> (r: Option<usize>)
        ensures
            r is None,
    {
        None
    }

    /// The stream is unbounded: it has no total duration.
    pub fn total_duration(&self) -> (r: Option<u64>)
        ensures
            r is None,
    {
        None
    }

    /// Accept a seek request for interface compatibility: it always
    /// succeeds and performs no positional change, so the next sample is
    /// the one that would have been produced anyway.
    pub fn try_seek(&mut self, _pos_nanos: u64) -> (r: Result<(), SeekError>)
        ensures
            r is Ok,
            *final(self) == *old(self),
    {
        Ok(())
    }
}

impl NoiseValue {
    /// Build the active generator for this variant: seeded once, from the
    /// fixed constant, so every run with the same variant and rate plays
    /// the same stream.
    pub fn to_noise(self, sample_rate: u32) -> (r: Noise)
        requires
            1 <= sample_rate,
        ensures
            r.wf(),
            r.variant_spec() == self,
            r.rate_spec() == sample_rate,
    {
        let rng = rng_from_seed(default_seed());
        let gen = match self {
            NoiseValue::White => NoiseGen::White(new_white(sample_rate, rng)),
            NoiseValue::Gaussian => NoiseGen::Gaussian(new_gaussian(sample_rate, rng)),
            NoiseValue::Triangular => NoiseGen::Triangular(new_triangular(sample_rate, rng)),
            NoiseValue::Pink => NoiseGen::Pink(new_pink(sample_rate, rng)),
            NoiseValue::Blue => NoiseGen::Blue(new_blue(sample_rate, rng)),
            NoiseValue::Violet => NoiseGen::Violet(new_violet(sample_rate, rng)),
            NoiseValue::Brownian => NoiseGen::Brownian(new_brownian(sample_rate, rng)),
            NoiseValue::Velvet => NoiseGen::Velvet(new_velvet(sample_rate, rng)),
        };
        Noise { variant: self, rate: sample_rate, gen }
    }
}

} // verus!
