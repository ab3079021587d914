//! Audio framing: turning a stream of captured samples into fixed-size frames,
//! the duration of an encoded frame, and the choice of an input configuration.

use vstd::prelude::*;

verus! {

/// Number of samples in one raw frame: 20 ms of mono audio at 48 kHz.
pub const FRAME_SIZE: usize = 960;

/// The only capture rate the pipeline accepts.
pub const SAMPLE_RATE: u64 = 48000;

/// Duration in milliseconds of a block of `sample_count` samples at 48 kHz.
pub open spec fn duration_ms_spec(sample_count: u64) -> int {
    (sample_count as int * 1000) / (SAMPLE_RATE as int)
}

/// Duration in milliseconds of a block of `sample_count` samples at 48 kHz,
/// rounded down.
pub fn frame_duration_ms(sample_count: u64) -> (r: u64)
    ensures
        r as int == duration_ms_spec(sample_count),
{
    proof {
        let n = sample_count as int;
        assert((n * 1000) / 48000 == n / 48) by (nonlinear_arith)
            requires n >= 0;
    }
    sample_count / 48
}

/// The samples of a list of frames, each frame seen as a sequence.
pub open spec fn frames_view<S>(frames: Seq<Vec<S>>) -> Seq<Seq<S>> {
    frames.map_values(|f: Vec<S>| f@)
}

/// Frames of `FRAME_SIZE` samples each hold `FRAME_SIZE` times as many
/// samples in all.
pub proof fn lemma_flatten_frames_len<S>(frames: Seq<Seq<S>>)
    requires
        forall|i: int| 0 <= i < frames.len() ==> (#[trigger] frames[i]).len() == FRAME_SIZE,
    ensures
        frames.flatten().len() == frames.len() * FRAME_SIZE,
    decreases frames.len(),
{
    if frames.len() > 0 {
        let init = frames.drop_last();
        assert forall|i: int| 0 <= i < init.len() implies (#[trigger] init[i]).len() == FRAME_SIZE by {
            assert(init[i] == frames[i]);
        }
        lemma_flatten_frames_len(init);
        init.lemma_flatten_push(frames.last());
        assert(init.push(frames.last()) =~= frames);
        assert(frames.len() * FRAME_SIZE == init.len() * FRAME_SIZE + FRAME_SIZE) by (nonlinear_arith)
            requires frames.len() == init.len() + 1;
    }
}

/// Collects captured samples and cuts them into frames of exactly
/// `FRAME_SIZE` samples, keeping the remainder for the next call.
pub struct FrameAccumulator<S> {
    buffer: Vec<S>,
}

impl<S: Copy> FrameAccumulator<S> {
    /// The samples received and not yet emitted in a frame.
    pub closed spec fn pending(&self) -> Seq<S> {
        self.buffer@
    }

    /// The pending samples never fill a whole frame.
    pub open spec fn wf(&self) -> bool {
        self.pending().len() < FRAME_SIZE
    }

    pub fn new() -> (r: Self)
        ensures
            r.wf(),
            r.pending() == Seq::<S>::empty(),
    {
        FrameAccumulator { buffer: Vec::new() }
    }

    /// Appends `data` to the pending samples and returns, in capture order,
    /// every frame completed on the way. Each returned frame holds exactly
    /// `FRAME_SIZE` samples; the frames followed by what stays pending are the
    /// old pending samples followed by `data`.
    pub fn push_samples(&mut self, data: &[S]) -> (frames: Vec<Vec<S>>)
        requires
            old(self).wf(),
        ensures
            final(self).wf(),
            forall|i: int| 0 <= i < frames@.len() ==> (#[trigger] frames@[i])@.len() == FRAME_SIZE,
            frames_view(frames@).flatten() + final(self).pending() == old(self).pending() + data@,
            frames@.len() as int == (old(self).pending().len() + data@.len()) as int / (
            FRAME_SIZE as int),
            final(self).pending().len() as int == (old(self).pending().len() + data@.len()) as int
                % (FRAME_SIZE as int),
    {
        let mut frames: Vec<Vec<S>> = Vec::new();
        let ghost start = self.buffer@;
        let mut i: usize = 0;
        while i < data.len()
            invariant
                i <= data@.len(),
                self.buffer@.len() < FRAME_SIZE,
                forall|k: int| 0 <= k < frames@.len() ==> (#[trigger] frames@[k])@.len() == FRAME_SIZE,
                frames_view(frames@).flatten() + self.buffer@ == start + data@.subrange(0, i as int),
            decreases data@.len() - i,
        {
            let ghost before = frames_view(frames@).flatten();
            self.buffer.push(data[i]);
            assert(start + data@.subrange(0, i + 1) =~= (start + data@.subrange(0, i as int)).push(data@[i as int]));
            if self.buffer.len() == FRAME_SIZE {
                let mut full: Vec<S> = Vec::new();
                std::mem::swap(&mut full, &mut self.buffer);
                let ghost old_frames = frames@;
                frames.push(full);
                proof {
                    assert(frames_view(frames@) =~= frames_view(old_frames).push(full@));
                    frames_view(old_frames).lemma_flatten_push(full@);
                    assert(frames_view(frames@).flatten() + self.buffer@ =~= before + full@);
                }
            }
            i = i + 1;
        }
        assert(data@.subrange(0, data@.len() as int) =~= data@);
        proof {
            let fv = frames_view(frames@);
            assert forall|k: int| 0 <= k < fv.len() implies (#[trigger] fv[k]).len() == FRAME_SIZE by {
                assert(fv[k] == frames@[k]@);
            }
            lemma_flatten_frames_len(fv);
            let total = (start.len() + data@.len()) as int;
            let nf = frames@.len() as int;
            let p = self.buffer@.len() as int;
            assert(total == nf * 960 + p);
            vstd::arithmetic::div_mod::lemma_fundamental_div_mod_converse(total, 960, nf, p);
        }
        frames
    }
}

/// One block of compressed audio and the time it plays for.
#[derive(Clone, Debug, PartialEq, Eq)]
pub struct AudioEncodedFrame {
    pub bytes: Vec<u8>,
    pub duration_ms: u64,
}

impl AudioEncodedFrame {
    /// The encoding of `sample_count` captured samples; its duration is
    /// derived from the sample count at 48 kHz.
    pub fn new(bytes: Vec<u8>, sample_count: u64) -> (r: Self)
        ensures
            r.bytes@ == bytes@,
            r.duration_ms as int == duration_ms_spec(sample_count),
    {
        AudioEncodedFrame { bytes, duration_ms: frame_duration_ms(sample_count) }
    }
}

/// How a device delivers its samples.
#[derive(Clone, Copy, Debug, PartialEq, Eq)]
pub enum SampleFormat {
    /// 32-bit IEEE floating point samples.
    Float32,
    /// Any integer or wider floating point format.
    Other,
}

/// A range of input configurations that a capture device supports.
#[derive(Clone, Copy, Debug, PartialEq, Eq)]
pub struct InputConfigRange {
    pub channels: u16,
    pub min_sample_rate: u32,
    pub max_sample_rate: u32,
    pub sample_format: SampleFormat,
}

/// Errors of the capture pipeline that are fatal to the agent.
#[derive(Clone, Copy, Debug, PartialEq, Eq)]
pub enum AudioError {
    /// No supported configuration offers mono 32-bit float samples at 48 kHz.
    DeviceConfigurationUnsupported,
}

/// A configuration range can be opened as mono 32-bit float at 48 kHz.
pub open spec fn config_usable(c: InputConfigRange) -> bool {
    &&& c.min_sample_rate as int <= SAMPLE_RATE as int
    &&& c.max_sample_rate as int >= SAMPLE_RATE as int
    &&& c.sample_format == SampleFormat::Float32
    &&& c.channels == 1
}

/// The index of the first usable configuration range; no resampling or
/// channel mixing is ever offered in place of a usable range.
pub fn find_audio_config(configs: &Vec<InputConfigRange>) -> (r: Result<usize, AudioError>)
    ensures
        match r {
            Ok(i) => {
                &&& i < configs@.len()
                &&& config_usable(configs@[i as int])
                &&& forall|j: int| 0 <= j < i ==> !config_usable(#[trigger] configs@[j])
            },
            Err(e) => {
                &&& e == AudioError::DeviceConfigurationUnsupported
                &&& forall|j: int| 0 <= j < configs@.len() ==> !config_usable(#[trigger] configs@[j])
            },
        },
{
    let mut i: usize = 0;
    while i < configs.len()
        invariant
            i <= configs@.len(),
            forall|j: int| 0 <= j < i ==> !config_usable(#[trigger] configs@[j]),
        decreases configs@.len() - i,
    {
        let c = configs[i];
        let float32 = match c.sample_format {
            SampleFormat::Float32 => true,
            SampleFormat::Other => false,
        };
        if c.min_sample_rate as u64 <= SAMPLE_RATE && c.max_sample_rate as u64 >= SAMPLE_RATE
            && float32 && c.channels == 1 {
            return Ok(i);
        }
        i = i + 1;
    }
    Err(AudioError::DeviceConfigurationUnsupported)
}

} // verus!
