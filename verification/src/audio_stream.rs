//! The decode loop of one track, as a machine that is driven from outside.
//!
//! The machine decides, and it alone feeds the sample buffer; its caller
//! does the rest. The caller does what an [`Action`] asks for, reports how
//! that went, together with the state that the stream's flag holds at that
//! moment, and is told what to do next.

pub mod run;

use crate::error::{device_error, AudioStream as StreamError, Device, Media};
use crate::ring::{
    consumer_ready, has_room, is_offer, producer_queued, producer_slots, sample_buffer,
    valid_capacity, SampleConsumer, SampleProducer,
};
use crate::stream_state::{may_change, StreamState, Writer};
use vstd::prelude::*;

verus! {

/// The sample formats that an output device may ask for, as far as the
/// player tells them apart.
#[derive(Debug, Clone, Copy, PartialEq, Eq, Structural)]
pub enum SampleFormat {
    I16,
    U16,
    F32,
    /// Any other format.
    Other,
}

/// The sample formats that the resampler is asked for. Both are packed:
/// the samples of all channels alternate in one run.
#[derive(Debug, Clone, Copy, PartialEq, Eq, Structural)]
pub enum PackedFormat {
    I16,
    F32,
}

impl SampleFormat {
    /// The format to ask of the resampler for a device of this format, if
    /// the resampler has one.
    pub open spec fn packed(self) -> Option<PackedFormat> {
        match self {
            SampleFormat::I16 => Some(PackedFormat::I16),
            SampleFormat::F32 => Some(PackedFormat::F32),
            _ => None,
        }
    }

    /// The format to ask of the resampler for a device of this format, if
    /// the resampler has one.
    pub fn packed_format(&self) -> (format: Option<PackedFormat>)
        ensures
            format == self.packed(),
    {
        match self {
            SampleFormat::I16 => Some(PackedFormat::I16),
            SampleFormat::F32 => Some(PackedFormat::F32),
            _ => None,
        }
    }
}

/// The number of samples in a packed frame of `samples` samples on each of
/// `channels` channels; `None` where the frame is not packed or the number
/// does not fit.
pub fn packed_len(is_packed: bool, samples: usize, channels: u16) -> (len: Option<usize>)
    ensures
        len is Some <==> is_packed && samples * channels <= usize::MAX,
        len matches Some(n) ==> n == samples * channels,
{
    if is_packed {
        samples.checked_mul(channels as usize)
    } else {
        None
    }
}

/// Milliseconds between two looks at the flag of a paused stream.
pub const PAUSE_POLL_MS: u64 = 50;

/// Milliseconds between two attempts to queue a block in a full buffer.
pub const BUFFER_POLL_MS: u64 = 10;

/// What the caller of a stream is asked to do next.
#[derive(Debug, PartialEq, Eq)]
pub enum Action {
    /// Start or resume the device's output, and report [`Report::OutputStarted`]
    /// or [`Report::OutputFailed`].
    StartOutput,
    /// Suspend the device's output, and report [`Report::OutputSuspended`] or
    /// [`Report::OutputFailed`].
    SuspendOutput,
    /// Read the track's next packet, and report [`Report::Packet`] or
    /// [`Report::EndOfInput`].
    ReadPacket,
    /// Hand the packet last read to the decoder, and report
    /// [`Report::PacketSent`] or [`Report::DecodeFailed`].
    SendPacket,
    /// Take the decoder's next frame and resample it into a block, and report
    /// [`Report::Block`], [`Report::NoFrame`] or [`Report::ResampleFailed`].
    ReceiveFrame,
    /// Sleep for this many milliseconds, and report [`Report::Woke`].
    Sleep(u64),
    /// Write [`StreamState::Done`] to the stream's flag and return success:
    /// the track has played to its end.
    Finish,
    /// Return this result, leaving the stream's flag as it is.
    Return(Result<(), StreamError>),
    /// Nothing: the stream has ended.
    Nothing,
}

/// How the action last asked for went.
#[derive(Debug, PartialEq, Eq)]
pub enum Report {
    OutputStarted,
    OutputSuspended,
    OutputFailed(Device),
    /// A packet was read; it belongs to the track's stream of this index.
    Packet(usize),
    EndOfInput,
    PacketSent,
    DecodeFailed(Media),
    /// A frame was decoded and resampled into these samples, those of all
    /// channels in turn.
    Block(Vec<u32>),
    /// The decoder has no further frame for the packet.
    NoFrame,
    ResampleFailed(Media),
    Woke,
}

/// Where a stream stands in its decode loop.
#[derive(Debug, Clone, Copy, PartialEq, Eq, Structural)]
pub enum Phase {
    /// Waiting for the device to start.
    Starting,
    /// Waiting for the next packet.
    Reading,
    /// Found the stream paused; waiting for the device to suspend. Holds the
    /// stream index of the packet at hand.
    Suspending(usize),
    /// Paused and asleep. Holds the stream index of the packet at hand.
    Suspended(usize),
    /// Found the stream playing again; waiting for the device to resume.
    /// Holds the stream index of the packet at hand.
    Resuming(usize),
    /// Waiting for the decoder to take the packet.
    Sending,
    /// Waiting for the next resampled block.
    Receiving,
    /// Holding a block for which the buffer had no room, and asleep.
    Waiting,
    /// Ended: the track played to its end.
    Finished,
    /// Ended: the stream was found stopped.
    Stopped,
    /// Ended: the device, the decoder or the resampler failed.
    Failed,
}

impl Phase {
    /// Whether the decode loop has returned.
    pub open spec fn ended(self) -> bool {
        self == Phase::Finished || self == Phase::Stopped || self == Phase::Failed
    }

    /// The action that a stream in this phase is waiting on.
    pub open spec fn awaits(self) -> Action {
        match self {
            Phase::Starting => Action::StartOutput,
            Phase::Reading => Action::ReadPacket,
            Phase::Suspending(_) => Action::SuspendOutput,
            Phase::Suspended(_) => Action::Sleep(PAUSE_POLL_MS),
            Phase::Resuming(_) => Action::StartOutput,
            Phase::Sending => Action::SendPacket,
            Phase::Receiving => Action::ReceiveFrame,
            Phase::Waiting => Action::Sleep(BUFFER_POLL_MS),
            Phase::Finished => Action::Nothing,
            Phase::Stopped => Action::Nothing,
            Phase::Failed => Action::Nothing,
        }
    }
}

/// What a stream does with a packet of stream `packet` once it may go on:
/// decode it if it belongs to the stream `selected`, skip it otherwise.
pub open spec fn take_packet(selected: usize, packet: usize) -> (Phase, Action) {
    if packet == selected {
        (Phase::Sending, Action::SendPacket)
    } else {
        (Phase::Reading, Action::ReadPacket)
    }
}

/// What a stream does once it has offered a block to the buffer: it goes on
/// to the next frame if the buffer took the block, and sleeps to offer the
/// block again if the buffer had no room for all of it.
pub open spec fn after_block(queued: bool) -> (Phase, Action) {
    if queued {
        (Phase::Receiving, Action::ReceiveFrame)
    } else {
        (Phase::Waiting, Action::Sleep(BUFFER_POLL_MS))
    }
}

/// The block that a stream in `phase`, holding `block`, offers to the buffer
/// when `report` comes in: the block that is reported, or on waking the
/// block that it holds.
pub open spec fn offers(phase: Phase, report: Report, block: Seq<u32>) -> Option<Seq<u32>> {
    match (phase, report) {
        (Phase::Receiving, Report::Block(samples)) => Some(samples@),
        (Phase::Waiting, Report::Woke) => Some(block),
        _ => None,
    }
}

/// The phase that a stream of selected stream index `selected` enters from
/// `phase`, and the action it asks for, when `report` comes in while the
/// stream's flag holds `observed`. Where the stream offers a block to the
/// buffer, `queued` says whether the buffer took it.
///
/// A report that does not answer the action awaited changes nothing, and the
/// action is asked for again. A stream that has ended stays as it is.
pub open spec fn next(
    selected: usize,
    phase: Phase,
    report: Report,
    observed: StreamState,
    queued: bool,
) -> (Phase, Action) {
    match (phase, report) {
        (Phase::Starting, Report::OutputStarted) => (Phase::Reading, Action::ReadPacket),
        (Phase::Starting, Report::OutputFailed(failure)) => (
            Phase::Failed,
            Action::Return(Err(device_error(failure))),
        ),
        (Phase::Reading, Report::EndOfInput) => (Phase::Finished, Action::Finish),
        (Phase::Reading, Report::Packet(packet)) => match observed {
            StreamState::Pause => (Phase::Suspending(packet), Action::SuspendOutput),
            StreamState::Stop => (Phase::Stopped, Action::Return(Ok(()))),
            _ => take_packet(selected, packet),
        },
        (Phase::Suspending(packet), Report::OutputSuspended) => (
            Phase::Suspended(packet),
            Action::Sleep(PAUSE_POLL_MS),
        ),
        (Phase::Suspending(_), Report::OutputFailed(failure)) => (
            Phase::Failed,
            Action::Return(Err(device_error(failure))),
        ),
        (Phase::Suspended(packet), Report::Woke) => match observed {
            StreamState::Play => (Phase::Resuming(packet), Action::StartOutput),
            StreamState::Stop => (Phase::Stopped, Action::Return(Ok(()))),
            _ => (Phase::Suspended(packet), Action::Sleep(PAUSE_POLL_MS)),
        },
        (Phase::Resuming(packet), Report::OutputStarted) => take_packet(selected, packet),
        (Phase::Resuming(_), Report::OutputFailed(failure)) => (
            Phase::Failed,
            Action::Return(Err(device_error(failure))),
        ),
        (Phase::Sending, Report::PacketSent) => (Phase::Receiving, Action::ReceiveFrame),
        (Phase::Sending, Report::DecodeFailed(error)) => (
            Phase::Failed,
            Action::Return(Err(StreamError::Decode(error))),
        ),
        (Phase::Receiving, Report::Block(_)) => after_block(queued),
        (Phase::Receiving, Report::NoFrame) => (Phase::Reading, Action::ReadPacket),
        (Phase::Receiving, Report::ResampleFailed(error)) => (
            Phase::Failed,
            Action::Return(Err(StreamError::Resample(error))),
        ),
        (Phase::Waiting, Report::Woke) => after_block(queued),
        _ => (phase, phase.awaits()),
    }
}

/// The phase that a stream reaches from `phase` through `inputs`: each a
/// report, the state that the flag held when it came in, and whether the
/// buffer took the block that was offered then, if one was.
pub open spec fn phase_after(
    selected: usize,
    phase: Phase,
    inputs: Seq<(Report, StreamState, bool)>,
) -> Phase
    decreases inputs.len(),
{
    if inputs.len() == 0 {
        phase
    } else {
        next(
            selected,
            phase_after(selected, phase, inputs.drop_last()),
            inputs.last().0,
            inputs.last().1,
            inputs.last().2,
        ).0
    }
}

/// A stream that has ended asks for nothing, offers nothing to the buffer
/// and stays as it is, whatever comes in.
pub proof fn lemma_ended_stream_stays_ended(
    selected: usize,
    phase: Phase,
    inputs: Seq<(Report, StreamState, bool)>,
)
    requires
        phase.ended(),
    ensures
        phase_after(selected, phase, inputs) == phase,
        forall|report: Report, observed: StreamState, queued: bool|
            next(selected, phase, report, observed, queued) == (phase, Action::Nothing),
        forall|report: Report, block: Seq<u32>| offers(phase, report, block) is None,
    decreases inputs.len(),
{
    if inputs.len() > 0 {
        lemma_ended_stream_stays_ended(selected, phase, inputs.drop_last());
    }
}

/// A stream marks itself as done at the end of its input and nowhere else,
/// and that is the only change it makes to its flag: of the actions, only
/// [`Action::Finish`] writes to the flag. Where the flag shows play or pause
/// at that moment, the change is one that the engine may make.
pub proof fn lemma_stream_is_done_only_at_end_of_input(
    selected: usize,
    phase: Phase,
    report: Report,
    observed: StreamState,
    queued: bool,
)
    ensures
        next(selected, phase, report, observed, queued).1 == Action::Finish <==> phase
            == Phase::Reading && report == Report::EndOfInput,
        next(selected, phase, report, observed, queued).0 == Phase::Finished <==> phase
            == Phase::Finished || next(selected, phase, report, observed, queued).1
            == Action::Finish,
        observed == StreamState::Play || observed == StreamState::Pause ==> may_change(
            Writer::Engine,
            observed,
            StreamState::Done,
        ),
{
}

/// A stream ends as stopped only where it finds its flag at stop, and then
/// it returns at once, with success.
pub proof fn lemma_stream_stops_only_when_told(
    selected: usize,
    phase: Phase,
    report: Report,
    observed: StreamState,
    queued: bool,
)
    requires
        phase != Phase::Stopped,
        next(selected, phase, report, observed, queued).0 == Phase::Stopped,
    ensures
        observed == StreamState::Stop,
        next(selected, phase, report, observed, queued).1 == Action::Return(Ok(())),
{
}

/// A stream that holds a block for which the buffer had no room decodes
/// nothing more until the buffer has taken that block as a whole: it sleeps,
/// offers the same block again, and goes on to the next frame only once the
/// block is queued.
pub proof fn lemma_block_is_held_until_queued(
    selected: usize,
    report: Report,
    observed: StreamState,
    queued: bool,
    block: Seq<u32>,
)
    ensures
        ({
            let (after, action) = next(selected, Phase::Waiting, report, observed, queued);
            &&& after == Phase::Waiting || after == Phase::Receiving
            &&& after == Phase::Waiting ==> action == Action::Sleep(BUFFER_POLL_MS)
            &&& after == Phase::Receiving <==> report == Report::Woke && queued
            &&& offers(Phase::Waiting, report, block) is Some ==> offers(
                Phase::Waiting,
                report,
                block,
            ) == Some(block)
        }),
{
}

/// The decode loop of one track, with the producing half of the track's
/// sample buffer.
pub struct AudioStream {
    stream_index: usize,
    phase: Phase,
    buffer_prod: SampleProducer,
    block: Vec<u32>,
}

impl AudioStream {
    /// The index of the track's stream that is decoded.
    pub closed spec fn selected(&self) -> usize {
        self.stream_index
    }

    /// Where the stream stands.
    pub closed spec fn at(&self) -> Phase {
        self.phase
    }

    /// The block that the stream offered last to the buffer.
    pub closed spec fn block(&self) -> Seq<u32> {
        self.block@
    }

    /// The number of samples that the stream's buffer can hold.
    pub closed spec fn slots(&self) -> nat {
        producer_slots(self.buffer_prod)
    }

    /// The samples that the stream has queued and has not yet seen taken,
    /// oldest first.
    pub closed spec fn queued(&self) -> Seq<u32> {
        producer_queued(self.buffer_prod)
    }

    /// A stream that decodes the track's stream of index `stream_index` into
    /// the buffer of `producer`, and has not started yet.
    pub fn new(stream_index: usize, producer: SampleProducer) -> (stream: Self)
        ensures
            stream.selected() == stream_index,
            stream.at() == Phase::Starting,
            stream.block() == Seq::<u32>::empty(),
            stream.slots() == producer_slots(producer),
            stream.queued() == producer_queued(producer),
    {
        Self { stream_index, phase: Phase::Starting, buffer_prod: producer, block: Vec::new() }
    }

    pub fn stream_index(&self) -> (index: usize)
        ensures
            index == self.selected(),
    {
        self.stream_index
    }

    pub fn phase(&self) -> (phase: Phase)
        ensures
            phase == self.at(),
    {
        self.phase
    }

    /// Whether the decode loop has returned.
    pub fn has_ended(&self) -> (ended: bool)
        ensures
            ended == self.at().ended(),
    {
        matches!(self.phase, Phase::Finished | Phase::Stopped | Phase::Failed)
    }

    /// The action that the stream is waiting on.
    pub fn awaits(&self) -> (action: Action)
        ensures
            action == self.at().awaits(),
    {
        match self.phase {
            Phase::Starting => Action::StartOutput,
            Phase::Reading => Action::ReadPacket,
            Phase::Suspending(_) => Action::SuspendOutput,
            Phase::Suspended(_) => Action::Sleep(PAUSE_POLL_MS),
            Phase::Resuming(_) => Action::StartOutput,
            Phase::Sending => Action::SendPacket,
            Phase::Receiving => Action::ReceiveFrame,
            Phase::Waiting => Action::Sleep(BUFFER_POLL_MS),
            Phase::Finished => Action::Nothing,
            Phase::Stopped => Action::Nothing,
            Phase::Failed => Action::Nothing,
        }
    }

    /// Whether the buffer is as it was and the stream holds the block it
    /// held.
    pub open spec fn keeps_buffer_of(&self, before: &Self) -> bool {
        &&& self.selected() == before.selected()
        &&& self.slots() == before.slots()
        &&& self.queued() == before.queued()
        &&& self.block() == before.block()
    }

    fn take_packet(&mut self, packet: usize) -> (action: Action)
        ensures
            final(self).keeps_buffer_of(old(self)),
            (final(self).at(), action) == take_packet(old(self).selected(), packet),
    {
        if packet == self.stream_index {
            self.phase = Phase::Sending;
            Action::SendPacket
        } else {
            self.phase = Phase::Reading;
            Action::ReadPacket
        }
    }

    fn fail(&mut self, error: StreamError) -> (action: Action)
        ensures
            final(self).keeps_buffer_of(old(self)),
            final(self).at() == Phase::Failed,
            action == Action::Return(Err(error)),
    {
        self.phase = Phase::Failed;
        Action::Return(Err(error))
    }

    /// Offers the block held to the buffer, as a whole.
    fn offer(&mut self) -> (action: Action)
        ensures
            final(self).selected() == old(self).selected(),
            final(self).slots() == old(self).slots(),
            final(self).block() == old(self).block(),
            is_offer(
                old(self).slots(),
                old(self).queued(),
                old(self).block(),
                final(self).queued(),
                final(self).at() == Phase::Receiving,
            ),
            (final(self).at(), action) == after_block(final(self).at() == Phase::Receiving),
            has_room(old(self).slots(), old(self).queued(), old(self).block()) ==> final(self).at()
                == Phase::Receiving,
    {
        if self.buffer_prod.push_block(self.block.as_slice()) {
            self.phase = Phase::Receiving;
            Action::ReceiveFrame
        } else {
            self.phase = Phase::Waiting;
            Action::Sleep(BUFFER_POLL_MS)
        }
    }

    /// Takes the report on the action last asked for, and the state that the
    /// stream's flag holds now, and says what to do next.
    ///
    /// A block that is reported is offered to the buffer as a whole, and so
    /// is, on waking, a block for which the buffer had no room before. The
    /// buffer takes all of the block or nothing of it; it takes it wherever
    /// the stream knows of room for it. Nothing else changes the buffer.
    pub fn step(&mut self, report: Report, observed: StreamState) -> (action: Action)
        ensures
            final(self).selected() == old(self).selected(),
            final(self).slots() == old(self).slots(),
            match offers(old(self).at(), report, old(self).block()) {
                Some(block) => {
                    &&& final(self).block() == block
                    &&& is_offer(
                        old(self).slots(),
                        old(self).queued(),
                        block,
                        final(self).queued(),
                        final(self).at() == Phase::Receiving,
                    )
                    &&& (final(self).at(), action) == next(
                        old(self).selected(),
                        old(self).at(),
                        report,
                        observed,
                        final(self).at() == Phase::Receiving,
                    )
                    &&& has_room(old(self).slots(), old(self).queued(), block)
                        ==> final(self).at() == Phase::Receiving
                },
                None => {
                    &&& final(self).block() == old(self).block()
                    &&& final(self).queued() == old(self).queued()
                    &&& forall|queued: bool|
                        (final(self).at(), action) == #[trigger] next(
                            old(self).selected(),
                            old(self).at(),
                            report,
                            observed,
                            queued,
                        )
                },
            },
    {
        match (self.phase, report) {
            (Phase::Starting, Report::OutputStarted) => {
                self.phase = Phase::Reading;
                Action::ReadPacket
            },
            (Phase::Starting, Report::OutputFailed(failure)) => self.fail(StreamError::from(failure)),
            (Phase::Reading, Report::EndOfInput) => {
                self.phase = Phase::Finished;
                Action::Finish
            },
            (Phase::Reading, Report::Packet(packet)) => match observed {
                StreamState::Pause => {
                    self.phase = Phase::Suspending(packet);
                    Action::SuspendOutput
                },
                StreamState::Stop => {
                    self.phase = Phase::Stopped;
                    Action::Return(Ok(()))
                },
                _ => self.take_packet(packet),
            },
            (Phase::Suspending(packet), Report::OutputSuspended) => {
                self.phase = Phase::Suspended(packet);
                Action::Sleep(PAUSE_POLL_MS)
            },
            (Phase::Suspending(_), Report::OutputFailed(failure)) => self.fail(
                StreamError::from(failure),
            ),
            (Phase::Suspended(packet), Report::Woke) => match observed {
                StreamState::Play => {
                    self.phase = Phase::Resuming(packet);
                    Action::StartOutput
                },
                StreamState::Stop => {
                    self.phase = Phase::Stopped;
                    Action::Return(Ok(()))
                },
                _ => Action::Sleep(PAUSE_POLL_MS),
            },
            (Phase::Resuming(packet), Report::OutputStarted) => self.take_packet(packet),
            (Phase::Resuming(_), Report::OutputFailed(failure)) => self.fail(
                StreamError::from(failure),
            ),
            (Phase::Sending, Report::PacketSent) => {
                self.phase = Phase::Receiving;
                Action::ReceiveFrame
            },
            (Phase::Sending, Report::DecodeFailed(error)) => self.fail(StreamError::Decode(error)),
            (Phase::Receiving, Report::Block(samples)) => {
                self.block = samples;
                self.offer()
            },
            (Phase::Receiving, Report::NoFrame) => {
                self.phase = Phase::Reading;
                Action::ReadPacket
            },
            (Phase::Receiving, Report::ResampleFailed(error)) => self.fail(
                StreamError::Resample(error),
            ),
            (Phase::Waiting, Report::Woke) => self.offer(),
            _ => self.awaits(),
        }
    }
}

/// What it takes to set up a stream: the format and rate of the samples that
/// the output device asks for, and the size of the sample buffer.
#[derive(Debug, Clone, Copy, PartialEq, Eq, Structural)]
pub struct AudioStreamBuilder {
    sample_format: SampleFormat,
    sample_rate: u32,
    buffer_size: usize,
}

impl AudioStreamBuilder {
    pub closed spec fn format(&self) -> SampleFormat {
        self.sample_format
    }

    pub closed spec fn rate(&self) -> u32 {
        self.sample_rate
    }

    pub closed spec fn capacity(&self) -> usize {
        self.buffer_size
    }

    /// Why no stream can be set up for a track whose best audio stream is
    /// `stream_index`, if that is so: a sample buffer of the configured size
    /// cannot be made, the track has no audio stream, or the device asks for
    /// samples other than 32-bit floats.
    pub open spec fn refusal(&self, stream_index: Option<usize>) -> Option<Media> {
        if !valid_capacity(self.capacity()) {
            Some(Media::BufferSize)
        } else if stream_index is None {
            Some(Media::StreamNotFound)
        } else if self.format() != SampleFormat::F32 {
            Some(Media::UnsupportedFormat)
        } else {
            None
        }
    }

    pub fn new(sample_format: SampleFormat, sample_rate: u32, buffer_size: usize) -> (builder: Self)
        ensures
            builder.format() == sample_format,
            builder.rate() == sample_rate,
            builder.capacity() == buffer_size,
    {
        Self { sample_format, sample_rate, buffer_size }
    }

    pub fn sample_format(&self) -> (format: SampleFormat)
        ensures
            format == self.format(),
    {
        self.sample_format
    }

    pub fn sample_rate(&self) -> (rate: u32)
        ensures
            rate == self.rate(),
    {
        self.sample_rate
    }

    pub fn buffer_size(&self) -> (size: usize)
        ensures
            size == self.capacity(),
    {
        self.buffer_size
    }

    /// Sets up a stream for a track whose best audio stream is
    /// `stream_index` (`None` where it has none): the stream, not yet
    /// started, which feeds a new and empty sample buffer, and the consuming
    /// half of that buffer.
    pub fn load(&self, stream_index: Option<usize>) -> (result: Result<
        (AudioStream, SampleConsumer),
        Media,
    >)
        ensures
            match result {
                Ok((stream, consumer)) => {
                    &&& self.refusal(stream_index) is None
                    &&& stream_index == Some(stream.selected())
                    &&& stream.at() == Phase::Starting
                    &&& stream.block() == Seq::<u32>::empty()
                    &&& stream.slots() == self.capacity()
                    &&& stream.queued() == Seq::<u32>::empty()
                    &&& consumer_ready(consumer) == Seq::<u32>::empty()
                },
                Err(error) => self.refusal(stream_index) == Some(error),
            },
    {
        let halves = sample_buffer(self.buffer_size);
        match (halves, stream_index) {
            (None, _) => Err(Media::BufferSize),
            (Some(_), None) => Err(Media::StreamNotFound),
            (Some((producer, consumer)), Some(index)) => {
                if matches!(self.sample_format, SampleFormat::F32) {
                    Ok((AudioStream::new(index, producer), consumer))
                } else {
                    Err(Media::UnsupportedFormat)
                }
            },
        }
    }
}

} // verus!
