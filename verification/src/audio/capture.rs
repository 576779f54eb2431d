//! Negotiation of the capture format, and the life of a capture session.
//!
//! The caller asks the audio host for the input device and describes it as
//! an [`InputDevice`]. [`AudioCapture::start`] picks the format to open it
//! with and says how its samples are to be cut into chunks; the caller opens
//! the stream accordingly. [`AudioCapture::stop`] says whether there is a
//! stream to release.

use vstd::prelude::*;
use crate::audio::format::SampleFormat;

verus! {

/// The sample rate of the audio sent to the recognition service, in hertz.
pub const TARGET_SAMPLE_RATE: u32 = 16000;

/// The channel count of the audio sent to the recognition service.
pub const TARGET_CHANNELS: u16 = 1;

/// The duration of one chunk of audio, in milliseconds.
pub const CHUNK_DURATION_MS: u32 = 100;

/// The highest rate that is picked when a device cannot run at the target
/// rate.
pub const MAX_FALLBACK_RATE: u32 = 48000;

/// A configuration that a device offers: a channel count and a sample
/// representation, at any rate of a range.
#[derive(Debug, Clone, Copy, PartialEq, Eq, Structural)]
pub struct SupportedConfigRange {
    pub channels: u16,
    pub min_sample_rate: u32,
    pub max_sample_rate: u32,
    pub sample_format: SampleFormat,
}

/// A configuration at one rate.
#[derive(Debug, Clone, Copy, PartialEq, Eq, Structural)]
pub struct StreamFormat {
    pub channels: u16,
    pub sample_rate: u32,
    pub sample_format: SampleFormat,
}

/// What the audio host reports of an input device.
#[derive(Debug, Clone)]
pub struct InputDevice {
    pub name: String,
    /// The configurations it offers, in the order in which it reports them.
    pub supported: Vec<SupportedConfigRange>,
    /// Its default configuration, if it has one.
    pub default_format: Option<StreamFormat>,
}

/// The format of one capture session. It is chosen when capture starts and
/// stays the same until capture stops.
#[derive(Debug, Clone)]
pub struct CaptureConfig {
    pub device: String,
    pub sample_rate: u32,
    pub channels: u16,
    pub sample_format: SampleFormat,
}

pub struct CaptureConfigView {
    pub device: Seq<char>,
    pub sample_rate: u32,
    pub channels: u16,
    pub sample_format: SampleFormat,
}

impl View for CaptureConfig {
    type V = CaptureConfigView;

    open spec fn view(&self) -> CaptureConfigView {
        CaptureConfigView {
            device: self.device@,
            sample_rate: self.sample_rate,
            channels: self.channels,
            sample_format: self.sample_format,
        }
    }
}

/// How the caller is to run a capture session.
#[derive(Debug, Clone)]
pub struct CapturePlan {
    pub config: CaptureConfig,
    /// The number of mono samples, at the rate of the device, that make one
    /// chunk.
    pub samples_per_chunk: usize,
    /// Whether chunks have to be converted to the target rate.
    pub resample: bool,
}

pub struct CapturePlanView {
    pub config: CaptureConfigView,
    pub samples_per_chunk: usize,
    pub resample: bool,
}

impl View for CapturePlan {
    type V = CapturePlanView;

    open spec fn view(&self) -> CapturePlanView {
        CapturePlanView {
            config: self.config@,
            samples_per_chunk: self.samples_per_chunk,
            resample: self.resample,
        }
    }
}

/// Why capture could not start.
#[derive(Debug, Clone, Copy, PartialEq, Eq, Structural)]
pub enum CaptureError {
    /// The host has no input device.
    NoInputDevice,
    /// The device offers no configuration and has no default one.
    NoSuitableConfig,
    /// The negotiated configuration has a sample representation that capture
    /// cannot handle.
    UnsupportedSampleFormat,
}

impl CaptureError {
    /// The error in words.
    pub fn message(&self) -> (text: String)
        ensures
            text@ == match *self {
                CaptureError::NoInputDevice => "No input device available"@,
                CaptureError::NoSuitableConfig => "No suitable input config found"@,
                CaptureError::UnsupportedSampleFormat => "Unsupported sample format"@,
            },
    {
        match self {
            CaptureError::NoInputDevice => "No input device available".to_string(),
            CaptureError::NoSuitableConfig => "No suitable input config found".to_string(),
            CaptureError::UnsupportedSampleFormat => "Unsupported sample format".to_string(),
        }
    }
}

/// Whether the range of rates includes the target rate.
pub open spec fn covers_target(c: SupportedConfigRange) -> bool {
    c.min_sample_rate <= TARGET_SAMPLE_RATE <= c.max_sample_rate
}

/// Whether `c` has `channels` channels and, if `at_target` is set, can run
/// at the target rate.
pub open spec fn wanted(c: SupportedConfigRange, channels: u16, at_target: bool) -> bool {
    c.channels == channels && (at_target ==> covers_target(c))
}

/// The rate at which a configuration is used: the target rate if it is in
/// range, else the highest rate of the range, but at most 48 kHz.
pub open spec fn preferred_rate(c: SupportedConfigRange) -> u32 {
    if covers_target(c) {
        TARGET_SAMPLE_RATE
    } else if c.max_sample_rate < MAX_FALLBACK_RATE {
        c.max_sample_rate
    } else {
        MAX_FALLBACK_RATE
    }
}

/// The configuration `c` at the rate `sample_rate`.
pub open spec fn at_rate(c: SupportedConfigRange, sample_rate: u32) -> StreamFormat {
    StreamFormat { channels: c.channels, sample_rate, sample_format: c.sample_format }
}

/// The first configuration of `s` that is wanted.
pub open spec fn first_match(s: Seq<SupportedConfigRange>, channels: u16, at_target: bool) -> Option<
    SupportedConfigRange,
>
    decreases s.len(),
{
    if s.len() == 0 {
        None
    } else if wanted(s[0], channels, at_target) {
        Some(s[0])
    } else {
        first_match(s.drop_first(), channels, at_target)
    }
}

/// The negotiation policy. In this order: the first mono configuration that
/// can run at the target rate, at that rate; the first mono configuration,
/// at its preferred rate; the first stereo configuration, at its preferred
/// rate; the default configuration of the device.
pub open spec fn spec_best_config(
    supported: Seq<SupportedConfigRange>,
    default_format: Option<StreamFormat>,
) -> Option<StreamFormat> {
    if let Some(c) = first_match(supported, TARGET_CHANNELS, true) {
        Some(at_rate(c, TARGET_SAMPLE_RATE))
    } else if let Some(c) = first_match(supported, TARGET_CHANNELS, false) {
        Some(at_rate(c, preferred_rate(c)))
    } else if let Some(c) = first_match(supported, 2, false) {
        Some(at_rate(c, preferred_rate(c)))
    } else {
        default_format
    }
}

/// The number of samples per channel in one chunk at the given rate.
pub open spec fn spec_samples_per_chunk(sample_rate: u32) -> int {
    sample_rate as int * CHUNK_DURATION_MS as int / 1000
}

/// The plan for capturing from `device` in `format`.
pub open spec fn plan_for(device: Seq<char>, format: StreamFormat) -> CapturePlanView {
    CapturePlanView {
        config: CaptureConfigView {
            device,
            sample_rate: format.sample_rate,
            channels: format.channels,
            sample_format: format.sample_format,
        },
        samples_per_chunk: spec_samples_per_chunk(format.sample_rate) as usize,
        resample: format.sample_rate != TARGET_SAMPLE_RATE,
    }
}

/// What starting capture on the given device comes to.
pub open spec fn spec_start(device: Option<InputDevice>) -> Result<CapturePlanView, CaptureError> {
    match device {
        None => Err(CaptureError::NoInputDevice),
        Some(d) => match spec_best_config(d.supported@, d.default_format) {
            None => Err(CaptureError::NoSuitableConfig),
            Some(format) => if format.sample_format == SampleFormat::Other {
                Err(CaptureError::UnsupportedSampleFormat)
            } else {
                Ok(plan_for(d.name@, format))
            },
        },
    }
}

/// What stopping comes to: no session is open afterwards, and there is a
/// stream to release exactly if one was open before.
pub open spec fn spec_stop(session: Option<CaptureConfigView>) -> (Option<CaptureConfigView>, bool) {
    (None, session is Some)
}

/// If no configuration before `i` is wanted, the first match of `s` is the
/// first match from `i` on.
proof fn first_match_skips(s: Seq<SupportedConfigRange>, channels: u16, at_target: bool, i: int)
    requires
        0 <= i <= s.len(),
        forall|j: int| 0 <= j < i ==> !wanted(#[trigger] s[j], channels, at_target),
    ensures
        first_match(s, channels, at_target) == first_match(s.skip(i), channels, at_target),
    decreases i,
{
    if i == 0 {
        assert(s.skip(0) =~= s);
    } else {
        assert(!wanted(s[0], channels, at_target));
        let rest = s.drop_first();
        assert forall|j: int| 0 <= j < i - 1 implies !wanted(
            #[trigger] rest[j],
            channels,
            at_target,
        ) by {
            assert(rest[j] == s[j + 1]);
        }
        first_match_skips(rest, channels, at_target, i - 1);
        assert(rest.skip(i - 1) =~= s.skip(i));
    }
}

/// What the search finds is wanted and is the first such configuration;
/// it finds nothing only where no configuration is wanted.
pub proof fn first_match_is_the_first_wanted(
    s: Seq<SupportedConfigRange>,
    channels: u16,
    at_target: bool,
)
    ensures
        match first_match(s, channels, at_target) {
            Some(c) => exists|i: int|
                0 <= i < s.len() && #[trigger] s[i] == c && wanted(c, channels, at_target)
                    && forall|j: int| 0 <= j < i ==> !wanted(#[trigger] s[j], channels, at_target),
            None => forall|j: int| 0 <= j < s.len() ==> !wanted(#[trigger] s[j], channels, at_target),
        },
    decreases s.len(),
{
    if s.len() > 0 && !wanted(s[0], channels, at_target) {
        let rest = s.drop_first();
        first_match_is_the_first_wanted(rest, channels, at_target);
        match first_match(rest, channels, at_target) {
            Some(c) => {
                let i = choose|i: int|
                    0 <= i < rest.len() && #[trigger] rest[i] == c && wanted(c, channels, at_target)
                        && forall|j: int|
                        0 <= j < i ==> !wanted(#[trigger] rest[j], channels, at_target);
                assert(s[i + 1] == c);
                assert forall|j: int| 0 <= j < i + 1 implies !wanted(
                    #[trigger] s[j],
                    channels,
                    at_target,
                ) by {
                    if j > 0 {
                        assert(s[j] == rest[j - 1]);
                    }
                }
            },
            None => {
                assert forall|j: int| 0 <= j < s.len() implies !wanted(
                    #[trigger] s[j],
                    channels,
                    at_target,
                ) by {
                    if j > 0 {
                        assert(s[j] == rest[j - 1]);
                    }
                }
            },
        }
    } else if s.len() > 0 {
        assert(s[0] == s[0]);
    }
}

/// Negotiation fails only on a device that offers neither a mono nor a
/// stereo configuration and has no default one. Where a mono configuration
/// can run at the target rate, the outcome is mono at the target rate.
/// Whatever is picked from the offered configurations is mono or stereo and
/// runs at 48 kHz at most.
pub proof fn negotiation_follows_the_policy(
    supported: Seq<SupportedConfigRange>,
    default_format: Option<StreamFormat>,
)
    ensures
        spec_best_config(supported, default_format) is None <==> default_format is None && forall|
            j: int,
        |
            0 <= j < supported.len() ==> (#[trigger] supported[j]).channels != 1
                && supported[j].channels != 2,
        (exists|j: int| 0 <= j < supported.len() && wanted(#[trigger] supported[j], 1, true)) ==> {
            &&& spec_best_config(supported, default_format) is Some
            &&& spec_best_config(supported, default_format)->0.channels == 1
            &&& spec_best_config(supported, default_format)->0.sample_rate == TARGET_SAMPLE_RATE
        },
        spec_best_config(supported, default_format) is Some ==> {
            ||| spec_best_config(supported, default_format) == default_format
            ||| {
                &&& spec_best_config(supported, default_format)->0.channels == 1
                    || spec_best_config(supported, default_format)->0.channels == 2
                &&& spec_best_config(supported, default_format)->0.sample_rate <= MAX_FALLBACK_RATE
            }
        },
{
    first_match_is_the_first_wanted(supported, TARGET_CHANNELS, true);
    first_match_is_the_first_wanted(supported, TARGET_CHANNELS, false);
    first_match_is_the_first_wanted(supported, 2, false);
}

fn covers(c: &SupportedConfigRange) -> (b: bool)
    ensures
        b == covers_target(*c),
{
    c.min_sample_rate <= TARGET_SAMPLE_RATE && c.max_sample_rate >= TARGET_SAMPLE_RATE
}

fn rate_for(c: &SupportedConfigRange) -> (rate: u32)
    ensures
        rate == preferred_rate(*c),
{
    if covers(c) {
        TARGET_SAMPLE_RATE
    } else if c.max_sample_rate < MAX_FALLBACK_RATE {
        c.max_sample_rate
    } else {
        MAX_FALLBACK_RATE
    }
}

/// The first supported configuration with `channels` channels and, if
/// `at_target` is set, with the target rate in its range.
fn first_with(supported: &Vec<SupportedConfigRange>, channels: u16, at_target: bool) -> (found:
    Option<SupportedConfigRange>)
    ensures
        found == first_match(supported@, channels, at_target),
{
    let mut i: usize = 0;
    while i < supported.len()
        invariant
            i <= supported.len(),
            forall|j: int| 0 <= j < i ==> !wanted(#[trigger] supported@[j], channels, at_target),
        decreases supported.len() - i,
    {
        let c = supported[i];
        if c.channels == channels && (!at_target || covers(&c)) {
            proof {
                first_match_skips(supported@, channels, at_target, i as int);
                assert(supported@.skip(i as int)[0] == c);
            }
            return Some(c);
        }
        i += 1;
    }
    proof {
        first_match_skips(supported@, channels, at_target, supported@.len() as int);
    }
    None
}

/// Picks the format to open the device with; `None` if the device offers
/// nothing at all.
pub fn find_best_config(device: &InputDevice) -> (best: Option<StreamFormat>)
    ensures
        best == spec_best_config(device.supported@, device.default_format),
{
    if let Some(c) = first_with(&device.supported, TARGET_CHANNELS, true) {
        return Some(
            StreamFormat {
                channels: c.channels,
                sample_rate: TARGET_SAMPLE_RATE,
                sample_format: c.sample_format,
            },
        );
    }
    if let Some(c) = first_with(&device.supported, TARGET_CHANNELS, false) {
        return Some(
            StreamFormat {
                channels: c.channels,
                sample_rate: rate_for(&c),
                sample_format: c.sample_format,
            },
        );
    }
    if let Some(c) = first_with(&device.supported, 2, false) {
        return Some(
            StreamFormat {
                channels: c.channels,
                sample_rate: rate_for(&c),
                sample_format: c.sample_format,
            },
        );
    }
    device.default_format
}

/// The number of samples per channel in one chunk at the given rate.
pub fn samples_per_chunk(sample_rate: u32) -> (n: usize)
    ensures
        n == spec_samples_per_chunk(sample_rate),
{
    let n: u64 = sample_rate as u64 * CHUNK_DURATION_MS as u64 / 1000;
    n as usize
}

/// The capture engine's view of its own life: whether a session is open, and
/// in which format.
pub struct AudioCapture {
    session: Option<CaptureConfig>,
}

impl AudioCapture {
    /// The configuration of the open session, if one is open.
    pub closed spec fn session(&self) -> Option<CaptureConfigView> {
        match self.session {
            Some(c) => Some(c@),
            None => None,
        }
    }

    pub fn new() -> (capture: AudioCapture)
        ensures
            capture.session() is None,
    {
        AudioCapture { session: None }
    }

    /// Negotiates the format for `device` and opens a session in it. On an
    /// error nothing changes. A session that was open is replaced: its stream
    /// is the caller's to release.
    pub fn start(&mut self, device: Option<&InputDevice>) -> (plan: Result<
        CapturePlan,
        CaptureError,
    >)
        ensures
            match spec_start(
                match device {
                    Some(d) => Some(*d),
                    None => None,
                },
            ) {
                Ok(p) => plan matches Ok(q) && q@ == p && final(self).session() == Some(p.config),
                Err(e) => plan == Err::<CapturePlan, CaptureError>(e) && final(self).session() == old(
                    self,
                ).session(),
            },
    {
        let device = match device {
            Some(d) => d,
            None => {
                return Err(CaptureError::NoInputDevice);
            },
        };
        let format = match find_best_config(device) {
            Some(f) => f,
            None => {
                return Err(CaptureError::NoSuitableConfig);
            },
        };
        match format.sample_format {
            SampleFormat::Other => {
                return Err(CaptureError::UnsupportedSampleFormat);
            },
            _ => {},
        }
        let config = CaptureConfig {
            device: device.name.clone(),
            sample_rate: format.sample_rate,
            channels: format.channels,
            sample_format: format.sample_format,
        };
        self.session = Some(config.clone_config());
        Ok(
            CapturePlan {
                config,
                samples_per_chunk: samples_per_chunk(format.sample_rate),
                resample: format.sample_rate != TARGET_SAMPLE_RATE,
            },
        )
    }

    /// Closes the session. Returns whether one was open, that is, whether
    /// the caller has a stream to release.
    pub fn stop(&mut self) -> (release: bool)
        ensures
            (final(self).session(), release) == spec_stop(old(self).session()),
    {
        let release = self.session.is_some();
        self.session = None;
        release
    }

    pub fn is_recording(&self) -> (recording: bool)
        ensures
            recording == self.session() is Some,
    {
        self.session.is_some()
    }

    /// The configuration of the open session.
    pub fn config(&self) -> (config: &Option<CaptureConfig>)
        ensures
            match *config {
                Some(c) => self.session() == Some(c@),
                None => self.session() is None,
            },
    {
        &self.session
    }
}

impl CaptureConfig {
    /// A copy of the configuration.
    pub fn clone_config(&self) -> (copy: CaptureConfig)
        ensures
            copy@ == self@,
    {
        CaptureConfig {
            device: self.device.clone(),
            sample_rate: self.sample_rate,
            channels: self.channels,
            sample_format: self.sample_format,
        }
    }
}

impl Default for AudioCapture {
    fn default() -> (capture: AudioCapture)
        ensures
            capture.session() is None,
    {
        AudioCapture::new()
    }
}

/// Stopping twice in a row is stopping once: the second stop finds no
/// session, releases nothing and changes nothing.
pub proof fn second_stop_releases_nothing(session: Option<CaptureConfigView>)
    ensures
        spec_stop(spec_stop(session).0) == (spec_stop(session).0, false),
        spec_stop(session).1 == session is Some,
{
}

} // verus!
