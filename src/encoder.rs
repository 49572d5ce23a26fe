//! The image-to-sound side: one 16-bit sample per pixel, after the
//! alignment tone, as a mono PCM WAV file.
use vstd::prelude::*;
use crate::detector::SAMPLE_RATE_HZ;

verus! {

#[verifier::external_type_specification]
#[verifier::external_body]
pub struct ExWavError(hound::Error);

/// The 16-bit samples of a WAV file's bytes, or `None` when `hound` cannot
/// read them as such.
pub uninterp spec fn wav_pcm16_samples(bytes: Seq<u8>) -> Option<Seq<i16>>;

/// The bytes of an integer PCM WAV file holding `samples`, or `None` when
/// `hound` refuses to write them in that format.
pub uninterp spec fn wav_pcm16_file(samples: Seq<i16>, channels: u16, sample_rate: u32, bits: u16) -> Option<Seq<u8>>;

/// Relies on `hound::WavReader::new` over an in-memory cursor and on
/// `WavReader::samples::<i16>`: the file's samples, in order.
#[verifier::external_body]
fn read_wav_pcm16(bytes: &Vec<u8>) -> (r: Result<Vec<i16>, hound::Error>)
    ensures
        r is Ok <==> wav_pcm16_samples(bytes@) is Some,
        r matches Ok(v) ==> wav_pcm16_samples(bytes@) == Some(v@),
{
    let mut reader = hound::WavReader::new(std::io::Cursor::new(bytes.as_slice()))?;
    reader.samples::<i16>().collect()
}

/// Relies on `hound::WavWriter::new` over an in-memory cursor, on
/// `WavWriter::write_sample` for each sample and on `WavWriter::finalize`:
/// the bytes of the finished file. Sixteen-bit samples always fit, writes to
/// memory do not fail, and `finalize` fails only when the samples do not fill
/// whole frames of `channels`. hound divides by the sample rate and the
/// channel count, and keeps the byte rate and the file size in `u32`; the
/// header takes at most 60 bytes of the file size.
#[verifier::external_body]
fn write_wav_pcm16(samples: &Vec<i16>, format: PcmFormat) -> (r: Result<Vec<u8>, hound::Error>)
    requires
        format.channels > 0,
        format.sample_rate > 0,
        format.bits_per_sample == 16,
        format.sample_rate * 2 * format.channels <= u32::MAX,
        samples@.len() <= MAX_CLIP_SAMPLES,
    ensures
        samples@.len() as int % (format.channels as int) == 0 ==> r is Ok,
        r is Ok <==> wav_pcm16_file(samples@, format.channels, format.sample_rate, format.bits_per_sample) is Some,
        r matches Ok(v) ==> wav_pcm16_file(samples@, format.channels, format.sample_rate, format.bits_per_sample) == Some(v@),
{
    let spec = hound::WavSpec {
        channels: format.channels,
        sample_rate: format.sample_rate,
        bits_per_sample: format.bits_per_sample,
        sample_format: hound::SampleFormat::Int,
    };
    let mut cursor = std::io::Cursor::new(Vec::new());
    let mut writer = hound::WavWriter::new(&mut cursor, spec)?;
    for s in samples.iter() {
        writer.write_sample(*s)?;
    }
    writer.finalize()?;
    Ok(cursor.into_inner())
}

/// Most samples a 16-bit WAV file can hold: two bytes each, plus a header
/// of up to 60 bytes, within a 32-bit file size.
pub const MAX_CLIP_SAMPLES: usize = 2147483617;

/// Layout of the integer PCM audio written.
#[derive(Clone, Copy, Debug, PartialEq, Eq, Structural)]
pub struct PcmFormat {
    pub channels: u16,
    pub sample_rate: u32,
    pub bits_per_sample: u16,
}

/// Mono, 44.1 kHz, 16 bits.
pub open spec fn clip_format_spec() -> PcmFormat {
    PcmFormat { channels: 1, sample_rate: SAMPLE_RATE_HZ, bits_per_sample: 16 }
}

pub fn clip_format() -> (r: PcmFormat)
    ensures
        r == clip_format_spec(),
{
    PcmFormat { channels: 1, sample_rate: SAMPLE_RATE_HZ, bits_per_sample: 16 }
}

/// Why an image could not be encoded.
#[derive(Clone, Copy, Debug, PartialEq, Eq, Structural)]
pub enum EncodeError {
    /// The alignment tone is not a WAV file of integer samples.
    ToneUnreadable,
    /// Tone and pixels together exceed `MAX_CLIP_SAMPLES` samples.
    ClipTooLong,
}

pub open spec fn brightness_spec(r: u8, g: u8, b: u8) -> u8 {
    ((r + g + b) / 3) as u8
}

/// The brightness of a pixel: the mean of its three colour channels, rounded
/// down.
pub fn brightness(r: u8, g: u8, b: u8) -> (v: u8)
    ensures
        v == brightness_spec(r, g, b),
{
    ((r as u32 + g as u32 + b as u32) / 3) as u8
}

/// The brightness of each pixel of RGBA data (four bytes per pixel, a
/// trailing partial pixel ignored).
pub open spec fn brightness_of_rgba(rgba: Seq<u8>) -> Seq<u8> {
    Seq::new(
        rgba.len() / 4,
        |i: int| brightness_spec(rgba[4 * i], rgba[4 * i + 1], rgba[4 * i + 2]),
    )
}

pub fn brightness_values(rgba: &Vec<u8>) -> (r: Vec<u8>)
    ensures
        r@ == brightness_of_rgba(rgba@),
{
    let len: usize = rgba.len();
    let n: usize = len / 4;
    let mut out: Vec<u8> = Vec::with_capacity(n);
    let mut i: usize = 0;
    let mut j: usize = 0;
    proof {
        vstd::arithmetic::div_mod::lemma_fundamental_div_mod(rgba@.len() as int, 4);
    }
    while i < n
        invariant
            len == rgba@.len(),
            n == rgba@.len() / 4,
            4 * n <= len,
            i <= n,
            j == 4 * i,
            out@ == brightness_of_rgba(rgba@).take(i as int),
        decreases n - i,
    {
        out.push(brightness(rgba[j], rgba[j + 1], rgba[j + 2]));
        assert(out@ =~= brightness_of_rgba(rgba@).take(i + 1));
        i = i + 1;
        j = j + 4;
    }
    assert(brightness_of_rgba(rgba@).take(n as int) =~= brightness_of_rgba(rgba@));
    out
}

/// The sample for a pixel of brightness `b`: `b / 255` mapped onto
/// `[-1, 1]` and scaled by `i16::MAX`, rounded toward zero.
pub open spec fn pixel_sample_spec(b: u8) -> i16 {
    let v = 2 * b - 255;
    if v >= 0 {
        (v * 32767 / 255) as i16
    } else {
        (-((-v) * 32767 / 255)) as i16
    }
}

pub fn pixel_sample(b: u8) -> (s: i16)
    ensures
        s == pixel_sample_spec(b),
{
    let v: i32 = 2 * (b as i32) - 255;
    if v >= 0 {
        assert(v * 32767 / 255 <= 32767) by (nonlinear_arith)
            requires
                0 <= v <= 255,
        ;
        (v * 32767 / 255) as i16
    } else {
        let w: i32 = -v;
        assert(w * 32767 / 255 <= 32767) by (nonlinear_arith)
            requires
                0 < w <= 255,
        ;
        (-(w * 32767 / 255)) as i16
    }
}

/// The samples of an encoded clip: the tone, then one sample per pixel.
pub open spec fn clip_samples(tone: Seq<i16>, brightness: Seq<u8>) -> Seq<i16> {
    tone + brightness.map_values(|b: u8| pixel_sample_spec(b))
}

pub fn encode_clip(tone: &Vec<i16>, brightness: &Vec<u8>) -> (r: Vec<i16>)
    ensures
        r@ == clip_samples(tone@, brightness@),
{
    let mut out: Vec<i16> = tone.clone();
    let mut i: usize = 0;
    while i < brightness.len()
        invariant
            i <= brightness@.len(),
            out@ == tone@ + brightness@.take(i as int).map_values(|b: u8| pixel_sample_spec(b)),
        decreases brightness@.len() - i,
    {
        out.push(pixel_sample(brightness[i]));
        assert(brightness@.take(i + 1).map_values(|b: u8| pixel_sample_spec(b))
            =~= brightness@.take(i as int).map_values(|b: u8| pixel_sample_spec(b)).push(pixel_sample_spec(brightness@[i as int])));
        i = i + 1;
    }
    assert(brightness@.take(i as int) == brightness@);
    out
}

/// Encodes RGBA pixel data as a WAV clip: the tone read from `tone_wav`,
/// then one sample per pixel, as mono 44.1 kHz 16-bit PCM.
pub fn encode_image(tone_wav: &Vec<u8>, rgba: &Vec<u8>) -> (r: Result<Vec<u8>, EncodeError>)
    ensures
        r == Err::<Vec<u8>, _>(EncodeError::ToneUnreadable) <==> wav_pcm16_samples(tone_wav@) is None,
        wav_pcm16_samples(tone_wav@) matches Some(tone) ==> {
            let clip = clip_samples(tone, brightness_of_rgba(rgba@));
            let file = wav_pcm16_file(clip, 1, SAMPLE_RATE_HZ, 16);
            &&& (r == Err::<Vec<u8>, _>(EncodeError::ClipTooLong) <==> clip.len() > MAX_CLIP_SAMPLES)
            &&& (clip.len() <= MAX_CLIP_SAMPLES ==> (r matches Ok(bytes) && file == Some(bytes@)))
        },
{
    let tone = match read_wav_pcm16(tone_wav) {
        Ok(t) => t,
        Err(_) => {
            return Err(EncodeError::ToneUnreadable);
        },
    };
    let levels = brightness_values(rgba);
    if tone.len() > MAX_CLIP_SAMPLES || levels.len() > MAX_CLIP_SAMPLES - tone.len() {
        return Err(EncodeError::ClipTooLong);
    }
    let clip = encode_clip(&tone, &levels);
    match write_wav_pcm16(&clip, clip_format()) {
        Ok(bytes) => Ok(bytes),
        Err(_) => {
            proof {
                assert(clip@.len() as int % 1 == 0);
                assert(false);
            }
            Err(EncodeError::ClipTooLong)
        },
    }
}

} // verus!
