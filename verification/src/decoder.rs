//! The FLAC source adapter: construction against a byte source, static format
//! facts, and the pull loop that drives the block reassembler over claxon.

use vstd::prelude::*;

use crate::reassembler::Reassembler;

verus! {

#[verifier::external_type_specification]
#[verifier::external_body]
pub struct ExClaxonError(claxon::Error);

/// The open stream parser. It holds the collaborator's reader over the
/// type-erased byte source; Verus sees nothing inside, and every use goes
/// through the trusted wrappers below.
#[verifier::external_body]
pub struct ReaderHandle {
    inner: claxon::FlacReader<Box<dyn std::io::Read>>,
}

/// A byte source reclaimed from a decoder at teardown, ready for further
/// sequential reads by the caller.
#[verifier::external_body]
pub struct ByteSource {
    pub inner: Box<dyn std::io::Read>,
}

/// Why construction of a decoder failed, mirroring the three failure classes
/// of the stream parser: an ill-formed stream, an I/O failure of the
/// underlying byte source, or a feature the parser does not implement.
#[derive(Debug, PartialEq, Eq, Structural, Clone, Copy)]
pub enum FlacError {
    Format,
    Io,
    Unsupported,
}

/// The immutable format facts of a stream, read once from its header.
pub struct FormatInfo {
    pub channels: u16,
    pub bits_per_sample: u32,
    pub sample_rate: u32,
    pub max_block_size: u16,
    pub total_frames: Option<u64>,
}

/// One pull on the block supply: a decoded planar block together with its
/// channel count, a clean end of stream, or a decode failure.
pub enum BlockRead {
    Got { samples: Vec<i32>, channels: u32 },
    EndOfStream,
    Failed,
}

/// Relies on claxon::FlacReader::new: parses the stream header and metadata
/// blocks of the byte source, failing on a malformed or unsupported stream.
#[verifier::external_body]
fn open_reader<R: std::io::Read + 'static>(data: R) -> (r: Result<ReaderHandle, claxon::Error>) {
    match claxon::FlacReader::new(Box::new(data) as Box<dyn std::io::Read>) {
        Ok(inner) => Ok(ReaderHandle { inner }),
        Err(e) => Err(e),
    }
}

/// Relies on claxon::FlacReader::streaminfo and the validation its header
/// parser performs: the channel count is a three-bit field plus one (1..=8),
/// bits per sample a five-bit field plus one (1..=32), the sample rate is
/// rejected outside 1..=655350, and the total frame count is a 36-bit field
/// whose zero value means "unknown" and is reported as absent.
#[verifier::external_body]
fn stream_info(reader: &ReaderHandle) -> (r: FormatInfo)
    ensures
        1 <= r.channels <= 8,
        1 <= r.bits_per_sample <= 32,
        1 <= r.sample_rate <= 655350,
        (r.total_frames matches Some(f) ==> 1 <= f < 0x10_0000_0000),
{
    let si = reader.inner.streaminfo();
    FormatInfo {
        channels: si.channels as u16,
        bits_per_sample: si.bits_per_sample,
        sample_rate: si.sample_rate,
        max_block_size: si.max_block_size,
        total_frames: si.samples,
    }
}

/// Relies on claxon::frame::FrameReader::read_next_or_eof, reached through
/// claxon::FlacReader::blocks: a decoded block stores its samples planar in a
/// buffer of exactly `channels * block_size` entries, where the frame header
/// bounds the channel count to 1..=8 and the block size to at least 1; the
/// storage passed in is reused for the new block. The reader must come from
/// FlacReader::new, which reads audio (blocks() panics on a metadata-only
/// reader, and this crate never constructs one).
#[verifier::external_body]
fn read_next_block(reader: &mut ReaderHandle, storage: Vec<i32>) -> (r: BlockRead)
    ensures
        (r matches BlockRead::Got { samples, channels } ==> 1 <= channels <= 8 && samples@.len()
            as int % (channels as int) == 0 && samples@.len() >= channels),
{
    match reader.inner.blocks().read_next_or_eof(storage) {
        Ok(Some(block)) => {
            let channels = block.channels();
            BlockRead::Got { samples: block.into_buffer(), channels }
        },
        Ok(None) => BlockRead::EndOfStream,
        Err(_) => BlockRead::Failed,
    }
}

/// Relies on claxon::FlacReader::into_inner: destroys the reader and hands
/// back the underlying byte source.
#[verifier::external_body]
fn reader_into_inner(reader: ReaderHandle) -> ByteSource {
    ByteSource { inner: reader.inner.into_inner() }
}

/// Relies on the three variants of claxon::Error: FormatError for an
/// ill-formed stream, IoError for a failure of the byte source, and
/// Unsupported for an unimplemented feature; each is mapped to the matching
/// variant of this crate's error type.
#[verifier::external_body]
fn classify_error(e: claxon::Error) -> FlacError {
    match e {
        claxon::Error::FormatError(_) => FlacError::Format,
        claxon::Error::IoError(_) => FlacError::Io,
        claxon::Error::Unsupported(_) => FlacError::Unsupported,
    }
}

/// The total duration in microseconds of a stream of `frames` inter-channel
/// sample groups at `sample_rate` frames per second, truncated to whole
/// microseconds; unknown when the frame count is unknown. The channel count
/// plays no part: a frame counts one instant, not one sample per channel.
pub open spec fn duration_micros_spec(frames: Option<u64>, sample_rate: u32) -> Option<u64>
    recommends
        sample_rate >= 1,
{
    match frames {
        Some(f) => Some(((f * 1_000_000) / (sample_rate as int)) as u64),
        None => None,
    }
}

/// Compute the total duration in microseconds from a frame count and a sample
/// rate. The frame count bound keeps the product inside a 64-bit integer: the
/// header stores it in 36 bits.
pub fn duration_micros(frames: Option<u64>, sample_rate: u32) -> (r: Option<u64>)
    requires
        sample_rate >= 1,
        (frames matches Some(f) ==> f < 0x10_0000_0000),
    ensures
        r == duration_micros_spec(frames, sample_rate),
{
    match frames {
        Some(f) => {
            proof {
                assert(f * 1_000_000 <= 0xF_FFFF_FFFF * 1_000_000) by (nonlinear_arith)
                    requires
                        f <= 0xF_FFFF_FFFF,
                ;
            }
            Some(f * 1_000_000 / (sample_rate as u64))
        },
        None => None,
    }
}

/// The decoder adapter over a sequential byte source. It presents the static
/// format facts of the stream and a lazy, finite, non-restartable sequence of
/// normalized 32-bit samples in frame-major order.
pub struct FlacDecoder {
    reader: ReaderHandle,
    core: Reassembler,
    sample_rate: u32,
    total_frames: Option<u64>,
}

impl FlacDecoder {
    /// Well-formedness: the reassembler is well-formed, the sample rate and
    /// frame count lie in the ranges the header parser admits, and once the
    /// terminal state is reached nothing is left buffered.
    pub closed spec fn wf(self) -> bool {
        &&& self.core.wf()
        &&& 1 <= self.sample_rate <= 655350
        &&& (self.total_frames matches Some(f) ==> 1 <= f < 0x10_0000_0000)
        &&& (self.core.spec_exhausted() ==> self.core.remaining().len() == 0)
    }

    pub closed spec fn spec_channels(self) -> u16 {
        self.core.spec_channels()
    }

    pub closed spec fn spec_bits_per_sample(self) -> u32 {
        self.core.spec_bits_per_sample()
    }

    pub closed spec fn spec_sample_rate(self) -> u32 {
        self.sample_rate
    }

    pub closed spec fn spec_total_frames(self) -> Option<u64> {
        self.total_frames
    }

    /// Whether the sample sequence has terminated for good.
    pub closed spec fn spec_exhausted(self) -> bool {
        self.core.spec_exhausted()
    }

    /// The samples of the current block not yet served.
    pub closed spec fn remaining(self) -> Seq<i32> {
        self.core.remaining()
    }

    /// Attempt to decode the byte source as a FLAC stream. On success the
    /// format facts are captured once and an empty buffer sized to the
    /// declared maximum block capacity is allocated as a reuse hint; on a
    /// parse failure the collaborator's error class is returned and no
    /// decoder exists.
    pub fn new<R: std::io::Read + 'static>(data: R) -> (r: Result<FlacDecoder, FlacError>)
        ensures
            (r matches Ok(d) ==> d.wf() && !d.spec_exhausted() && d.remaining().len() == 0 && 1
                <= d.spec_channels() <= 8 && 1 <= d.spec_bits_per_sample() <= 32 && 1
                <= d.spec_sample_rate() <= 655350),
    {
        match open_reader(data) {
            Ok(reader) => {
                let info = stream_info(&reader);
                proof {
                    assert((info.max_block_size as usize) * (info.channels as usize) <= 65535 * 8)
                        by (nonlinear_arith)
                        requires
                            info.max_block_size <= 65535,
                            info.channels <= 8,
                    ;
                }
                let capacity = (info.max_block_size as usize) * (info.channels as usize);
                let core = Reassembler::new(info.channels, info.bits_per_sample, capacity);
                Ok(
                    FlacDecoder {
                        reader,
                        core,
                        sample_rate: info.sample_rate,
                        total_frames: info.total_frames,
                    },
                )
            },
            Err(e) => Err(classify_error(e)),
        }
    }

    /// Destroy the decoder and reclaim the underlying byte source, without
    /// re-parsing; anything buffered is lost.
    pub fn into_inner(self) -> ByteSource {
        let FlacDecoder { reader, .. } = self;
        reader_into_inner(reader)
    }

    /// The channel count of the stream.
    pub fn channels(&self) -> (r: u16)
        ensures
            r == self.spec_channels(),
    {
        self.core.channels()
    }

    /// The sample rate of the stream in frames per second.
    pub fn sample_rate(&self) -> (r: u32)
        ensures
            r == self.spec_sample_rate(),
    {
        self.sample_rate
    }

    /// The length of the chunk now being served is never pre-announced:
    /// block sizes vary block to block and callers must not assume a fixed
    /// chunking.
    pub fn current_frame_len(&self) -> (r: Option<usize>)
        ensures
            r is None,
    {
        None
    }

    /// The total duration of the stream in microseconds, when the header
    /// declared a total frame count; unknown otherwise, never a guess.
    pub fn total_duration(&self) -> (r: Option<u64>)
        requires
            self.wf(),
        ensures
            r == duration_micros_spec(self.spec_total_frames(), self.spec_sample_rate()),
            r is None <==> self.spec_total_frames() is None,
    {
        duration_micros(self.total_frames, self.sample_rate)
    }

    /// Serve the next normalized sample. Samples of the buffered block come
    /// first, in frame-major order; when the block is spent, the next block
    /// is pulled from the stream, reusing the old storage. A clean end of
    /// stream, a decode failure, or a block that contradicts the declared
    /// channel count all end the sequence permanently.
    pub fn next(&mut self) -> (r: Option<i32>)
        requires
            old(self).wf(),
        ensures
            final(self).wf(),
            final(self).spec_channels() == old(self).spec_channels(),
            final(self).spec_bits_per_sample() == old(self).spec_bits_per_sample(),
            final(self).spec_sample_rate() == old(self).spec_sample_rate(),
            final(self).spec_total_frames() == old(self).spec_total_frames(),
            old(self).spec_exhausted() ==> r is None,
            old(self).spec_exhausted() ==> final(self).spec_exhausted(),
            old(self).remaining().len() > 0 && !old(self).spec_exhausted() ==> r == Some(
                old(self).remaining()[0],
            ) && final(self).remaining() == old(self).remaining().skip(1),
            r is None ==> final(self).spec_exhausted() && final(self).remaining().len() == 0,
            r is Some ==> final(self).spec_exhausted() == old(self).spec_exhausted(),
            // A sample served out of a freshly pulled block is the head of
            // that block's interleaved reading, and its tail is what remains.
            r is Some && old(self).remaining().len() == 0 ==> exists|
                b: Seq<i32>,
                channel_len: int,
            |
                {
                    let s = #[trigger] crate::reassembler::interleaved(
                        b,
                        old(self).spec_channels() as int,
                        channel_len,
                        old(self).spec_bits_per_sample(),
                    );
                    &&& s.len() > 0
                    &&& r->Some_0 == s[0]
                    &&& final(self).remaining() == s.skip(1)
                },
    {
        if self.core.is_exhausted() {
            return None;
        }
        let buffered = self.core.take_buffered();
        if let Some(v) = buffered {
            return Some(v);
        }
        let storage = self.core.take_storage();
        match read_next_block(&mut self.reader, storage) {
            BlockRead::Got { samples, channels } => {
                if channels == self.core.channels() as u32 {
                    let ghost b = samples@;
                    self.core.load_block(samples);
                    let ghost loaded = self.core.remaining();
                    let first = self.core.take_buffered();
                    proof {
                        assert(first is Some);
                        let channel_len = b.len() as int / old(self).spec_channels() as int;
                        assert(loaded == crate::reassembler::interleaved(
                            b,
                            old(self).spec_channels() as int,
                            channel_len,
                            old(self).spec_bits_per_sample(),
                        ));
                    }
                    Some(first.unwrap())
                } else {
                    // A block whose channel count contradicts the stream
                    // header cannot be laid out against it; the sequence ends
                    // as on any other decode failure.
                    self.core.mark_exhausted();
                    None
                }
            },
            BlockRead::EndOfStream => {
                self.core.mark_exhausted();
                None
            },
            BlockRead::Failed => {
                self.core.mark_exhausted();
                None
            },
        }
    }
}

/// The total duration is a function of the frame count and the sample rate
/// alone: two streams that share those have equal durations, whatever their
/// channel counts.
pub proof fn lemma_duration_independent_of_channels(a: &FlacDecoder, b: &FlacDecoder)
    requires
        a.spec_total_frames() == b.spec_total_frames(),
        a.spec_sample_rate() == b.spec_sample_rate(),
    ensures
        duration_micros_spec(a.spec_total_frames(), a.spec_sample_rate()) == duration_micros_spec(
            b.spec_total_frames(),
            b.spec_sample_rate(),
        ),
{
}

} // verus!
