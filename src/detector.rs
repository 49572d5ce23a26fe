//! The start-signal detector: decides from a window's spectrum whether the
//! alignment tone is sounding.
//!
//! The transform itself is computed outside this crate; the detector states
//! how large a window it takes, which bins it reads, and what it concludes
//! from the magnitudes found there. Magnitudes are whole units of the
//! unnormalised DFT, rounded down; every threshold is whole, so a magnitude
//! reaches a threshold exactly when its rounded-down value does.
use vstd::prelude::*;

verus! {

/// The sample rate the encoder writes and the decoder expects, in Hz.
pub const SAMPLE_RATE_HZ: u32 = 44100;

/// Default number of samples the detector inspects.
pub const DEFAULT_WINDOW: usize = 512;

/// Largest window a detector may be asked for.
pub const MAX_WINDOW: usize = 1073741824;

/// One component of the alignment tone's fingerprint.
#[derive(Clone, Copy, Debug, PartialEq, Eq, Structural)]
pub struct Tone {
    /// Frequency in Hz.
    pub freq_hz: u32,
    /// Least magnitude the bin of `freq_hz` must show.
    pub min_magnitude: u64,
}

/// Why a detector could not be configured.
#[derive(Clone, Copy, Debug, PartialEq, Eq, Structural)]
pub enum DetectorError {
    /// The sample rate is zero.
    ZeroSampleRate,
    /// The requested window is larger than `MAX_WINDOW`.
    WindowTooLarge,
    /// The tone at `index` lies above half the sample rate.
    AboveNyquist { index: usize },
}

/// Two to the power `k`.
pub open spec fn pow2(k: nat) -> nat
    decreases k,
{
    if k == 0 {
        1
    } else {
        2 * pow2((k - 1) as nat)
    }
}

pub open spec fn is_pow2(n: nat) -> bool {
    exists|k: nat| pow2(k) == n
}

/// `r` is the least power of two not below `n`.
pub open spec fn is_fft_size_for(r: nat, n: nat) -> bool {
    &&& is_pow2(r)
    &&& n <= r
    &&& (r == 1 || r < 2 * n)
}

/// The bin nearest to `freq` in a transform of `n` points at `rate` Hz,
/// rounded half up.
pub open spec fn nearest_bin(freq: nat, n: nat, rate: nat) -> nat
    recommends
        rate > 0,
{
    (2 * freq * n + rate) / (2 * rate)
}

/// The bin read for `freq`: the nearest one, clamped to `n / 2`.
pub open spec fn bin_for(freq: nat, n: nat, rate: nat) -> nat {
    let b = nearest_bin(freq, n, rate);
    if b > n / 2 {
        n / 2
    } else {
        b
    }
}

pub open spec fn above_nyquist(t: Tone, rate: nat) -> bool {
    2 * t.freq_hz > rate
}

/// Every tone of `tones` shows at least its least magnitude in its bin.
pub open spec fn tones_match(tones: Seq<Tone>, n: nat, rate: nat, mags: Seq<u64>) -> bool {
    forall|i: int|
        0 <= i < tones.len() ==> mags[bin_for(tones[i].freq_hz as nat, n, rate) as int]
            >= tones[i].min_magnitude
}

/// The fingerprint of the alignment tone: 200 Hz at 10 or more, and 16 kHz at
/// 15 or more.
pub open spec fn standard_tones() -> Seq<Tone> {
    seq![Tone { freq_hz: 200, min_magnitude: 10 }, Tone { freq_hz: 16000, min_magnitude: 15 }]
}

proof fn lemma_pow2_grows(a: nat, b: nat)
    requires
        a < b,
    ensures
        pow2(b) >= 2 * pow2(a),
    decreases b,
{
    if a + 1 < b {
        lemma_pow2_grows(a, (b - 1) as nat);
    }
}

/// There is one least power of two not below `n`.
pub proof fn lemma_fft_size_unique(r1: nat, r2: nat, n: nat)
    requires
        is_fft_size_for(r1, n),
        is_fft_size_for(r2, n),
    ensures
        r1 == r2,
{
    let a = choose|k: nat| pow2(k) == r1;
    let b = choose|k: nat| pow2(k) == r2;
    if a < b {
        lemma_pow2_grows(a, b);
    } else if b < a {
        lemma_pow2_grows(b, a);
    }
}

/// The least power of two not below `requested` (one for zero).
pub fn fft_size(requested: usize) -> (r: usize)
    requires
        requested <= MAX_WINDOW,
    ensures
        is_fft_size_for(r as nat, requested as nat),
{
    let mut p: usize = 1;
    let ghost mut k: nat = 0;
    while p < requested
        invariant
            p == pow2(k),
            1 <= p,
            requested <= MAX_WINDOW,
            p == 1 || p < 2 * requested,
        decreases 2 * MAX_WINDOW - p,
    {
        p = p * 2;
        proof {
            k = k + 1;
        }
    }
    p
}

/// The bin read for `freq` in a transform of `n` points at `rate` Hz.
pub fn bin_index(freq: u32, n: usize, rate: u32) -> (r: usize)
    requires
        rate > 0,
        n <= 2 * MAX_WINDOW,
    ensures
        r == bin_for(freq as nat, n as nat, rate as nat),
{
    let f: u64 = freq as u64;
    let w: u64 = n as u64;
    assert(f * w <= 0xFFFF_FFFFu64 * 0x8000_0000u64) by (nonlinear_arith)
        requires
            f <= 0xFFFF_FFFFu64,
            w <= 0x8000_0000u64,
    ;
    let num: u64 = 2 * (f * w) + rate as u64;
    let b: u64 = num / (2 * rate as u64);
    assert(2 * f * w == 2 * (f * w)) by (nonlinear_arith);
    let half: usize = n / 2;
    if b > half as u64 {
        half
    } else {
        b as usize
    }
}

/// A configured detector: a window size, a sample rate and a fingerprint.
pub struct Detector {
    window: usize,
    rate: u32,
    tones: Vec<Tone>,
    bins: Vec<usize>,
}

impl Detector {
    /// Number of samples inspected, a power of two.
    pub closed spec fn window_spec(&self) -> nat {
        self.window as nat
    }

    pub closed spec fn rate_spec(&self) -> nat {
        self.rate as nat
    }

    pub closed spec fn tones_spec(&self) -> Seq<Tone> {
        self.tones@
    }

    pub closed spec fn wf(&self) -> bool {
        &&& is_pow2(self.window as nat)
        &&& 0 < self.window <= 2 * MAX_WINDOW
        &&& 0 < self.rate
        &&& self.bins@.len() == self.tones@.len()
        &&& forall|i: int|
            0 <= i < self.tones@.len() ==> self.bins@[i] == bin_for(
                self.tones@[i].freq_hz as nat,
                self.window as nat,
                self.rate as nat,
            )
        &&& forall|i: int| 0 <= i < self.tones@.len() ==> !above_nyquist(self.tones@[i], self.rate as nat)
    }

    /// A detector over the least power-of-two window not below
    /// `requested_window`, at `sample_rate` Hz, looking for `tones`.
    pub fn new(requested_window: usize, sample_rate: u32, tones: Vec<Tone>) -> (r: Result<Detector, DetectorError>)
        ensures
            r == Err::<Detector, _>(DetectorError::ZeroSampleRate) <==> sample_rate == 0,
            r == Err::<Detector, _>(DetectorError::WindowTooLarge) <==> (sample_rate > 0 && requested_window > MAX_WINDOW),
            r matches Err(DetectorError::AboveNyquist { index }) ==> {
                &&& sample_rate > 0
                &&& requested_window <= MAX_WINDOW
                &&& index < tones@.len()
                &&& above_nyquist(tones@[index as int], sample_rate as nat)
                &&& forall|j: int| 0 <= j < index ==> !above_nyquist(tones@[j], sample_rate as nat)
            },
            r is Ok <==> {
                &&& sample_rate > 0
                &&& requested_window <= MAX_WINDOW
                &&& forall|j: int| 0 <= j < tones@.len() ==> !above_nyquist(tones@[j], sample_rate as nat)
            },
            r matches Ok(d) ==> {
                &&& d.wf()
                &&& is_fft_size_for(d.window_spec(), requested_window as nat)
                &&& d.rate_spec() == sample_rate
                &&& d.tones_spec() == tones@
            },
    {
        if sample_rate == 0 {
            return Err(DetectorError::ZeroSampleRate);
        }
        if requested_window > MAX_WINDOW {
            return Err(DetectorError::WindowTooLarge);
        }
        let window = fft_size(requested_window);
        let mut bins: Vec<usize> = Vec::with_capacity(tones.len());
        let mut i: usize = 0;
        while i < tones.len()
            invariant
                i <= tones@.len(),
                sample_rate > 0,
                is_fft_size_for(window as nat, requested_window as nat),
                requested_window <= MAX_WINDOW,
                bins@.len() == i,
                forall|j: int| 0 <= j < i ==> !above_nyquist(tones@[j], sample_rate as nat),
                forall|j: int|
                    0 <= j < i ==> bins@[j] == bin_for(
                        tones@[j].freq_hz as nat,
                        window as nat,
                        sample_rate as nat,
                    ),
            decreases tones@.len() - i,
        {
            let t = tones[i];
            if t.freq_hz as u64 * 2 > sample_rate as u64 {
                return Err(DetectorError::AboveNyquist { index: i });
            }
            bins.push(bin_index(t.freq_hz, window, sample_rate));
            i = i + 1;
        }
        Ok(Detector { window, rate: sample_rate, tones, bins })
    }

    /// The standard detector: 512 samples at 44.1 kHz, standard fingerprint.
    pub fn standard() -> (r: Detector)
        ensures
            r.wf(),
            r.window_spec() == DEFAULT_WINDOW,
            r.rate_spec() == SAMPLE_RATE_HZ,
            r.tones_spec() == standard_tones(),
    {
        let tones: Vec<Tone> = vec![
            Tone { freq_hz: 200, min_magnitude: 10 },
            Tone { freq_hz: 16000, min_magnitude: 15 },
        ];
        assert(tones@ == standard_tones());
        let d = Detector::new(DEFAULT_WINDOW, SAMPLE_RATE_HZ, tones).unwrap();
        proof {
            reveal_with_fuel(pow2, 10);
            assert(pow2(9) == 512);
            assert(is_fft_size_for(512, 512));
            lemma_fft_size_unique(d.window_spec(), 512, 512);
        }
        d
    }

    /// Number of samples inspected.
    pub fn window_len(&self) -> (r: usize)
        ensures
            r == self.window_spec(),
    {
        self.window
    }

    /// The sample rate, in Hz.
    pub fn sample_rate(&self) -> (r: u32)
        ensures
            r == self.rate_spec(),
    {
        self.rate
    }

    /// Whether the spectrum of one window shows every tone of the
    /// fingerprint; `magnitudes` holds one rounded-down magnitude per bin.
    pub fn tones_present(&self, magnitudes: &Vec<u64>) -> (r: bool)
        requires
            self.wf(),
            magnitudes@.len() == self.window_spec(),
        ensures
            r == tones_match(self.tones_spec(), self.window_spec(), self.rate_spec(), magnitudes@),
    {
        let mut i: usize = 0;
        while i < self.tones.len()
            invariant
                self.wf(),
                magnitudes@.len() == self.window_spec(),
                i <= self.tones@.len(),
                forall|j: int|
                    0 <= j < i ==> magnitudes@[bin_for(
                        self.tones@[j].freq_hz as nat,
                        self.window as nat,
                        self.rate as nat,
                    ) as int] >= self.tones@[j].min_magnitude,
            decreases self.tones@.len() - i,
        {
            let b = self.bins[i];
            if magnitudes[b] < self.tones[i].min_magnitude {
                return false;
            }
            i = i + 1;
        }
        true
    }
}

/// At 512 points and 44.1 kHz the standard tones fall in bins 2 and 186.
pub proof fn lemma_standard_bins()
    ensures
        bin_for(200, DEFAULT_WINDOW as nat, SAMPLE_RATE_HZ as nat) == 2,
        bin_for(16000, DEFAULT_WINDOW as nat, SAMPLE_RATE_HZ as nat) == 186,
{
    vstd::arithmetic::div_mod::lemma_fundamental_div_mod_converse(248900, 88200, 2, 72500);
    vstd::arithmetic::div_mod::lemma_fundamental_div_mod_converse(16428100, 88200, 186, 22900);
}

/// A 512-point spectrum reaching 10 in the 200 Hz bin and 15 in the 16 kHz
/// bin fires the standard fingerprint; one falling short in either does not.
pub proof fn lemma_standard_fires(mags: Seq<u64>)
    requires
        mags.len() == DEFAULT_WINDOW,
    ensures
        tones_match(standard_tones(), DEFAULT_WINDOW as nat, SAMPLE_RATE_HZ as nat, mags) <==> (
        mags[2] >= 10 && mags[186] >= 15),
{
    lemma_standard_bins();
    let tones = standard_tones();
    if mags[2] >= 10 && mags[186] >= 15 {
        assert forall|i: int| 0 <= i < tones.len() implies mags[bin_for(
            tones[i].freq_hz as nat,
            DEFAULT_WINDOW as nat,
            SAMPLE_RATE_HZ as nat,
        ) as int] >= tones[i].min_magnitude by {
            if i == 0 {
            } else {
                assert(i == 1);
            }
        }
    } else if mags[2] < 10 {
        assert(tones[0] == Tone { freq_hz: 200, min_magnitude: 10 });
    } else {
        assert(tones[1] == Tone { freq_hz: 16000, min_magnitude: 15 });
    }
}

/// A well-formed detector inspects a positive power-of-two window at a
/// positive sample rate.
pub proof fn lemma_detector_window(d: &Detector)
    requires
        d.wf(),
    ensures
        is_pow2(d.window_spec()),
        0 < d.window_spec(),
        0 < d.rate_spec(),
{
}

/// A spectrum of zeros matches no fingerprint that asks for a positive
/// magnitude somewhere.
pub proof fn lemma_silence_never_matches(tones: Seq<Tone>, n: nat, rate: nat, mags: Seq<u64>)
    requires
        0 < n,
        mags.len() == n,
        forall|i: int| 0 <= i < mags.len() ==> mags[i] == 0,
        exists|i: int| 0 <= i < tones.len() && tones[i].min_magnitude > 0,
    ensures
        !tones_match(tones, n, rate, mags),
{
    let i = choose|i: int| 0 <= i < tones.len() && tones[i].min_magnitude > 0;
    let b = bin_for(tones[i].freq_hz as nat, n, rate);
    assert(b <= n / 2);
}

/// The standard fingerprint asks for positive magnitudes, so a silent window
/// never fires it.
pub proof fn lemma_standard_silence(mags: Seq<u64>)
    requires
        mags.len() == DEFAULT_WINDOW,
        forall|i: int| 0 <= i < mags.len() ==> mags[i] == 0,
    ensures
        !tones_match(standard_tones(), DEFAULT_WINDOW as nat, SAMPLE_RATE_HZ as nat, mags),
{
    assert(standard_tones()[0].min_magnitude > 0);
    lemma_silence_never_matches(standard_tones(), DEFAULT_WINDOW as nat, SAMPLE_RATE_HZ as nat, mags);
}

} // verus!
