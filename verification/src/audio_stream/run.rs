//! A whole run of the decode loop over a track, put together from its steps.
//!
//! A run is told turn by turn: each turn is a report, the state that the
//! stream's flag shows when the report comes in, and, where the stream
//! offers a block to the buffer on that report, whether the buffer takes it.

use super::{next, offers, Action, Phase, Report};
use crate::stream_state::StreamState;
use vstd::prelude::*;

verus! {

/// One turn of a run: a report, what the flag shows, and whether the buffer
/// takes the block that is offered, if one is.
pub type Turn = (Report, StreamState, bool);

/// A stream in the course of a run.
pub struct RunState {
    /// Where the stream stands.
    pub phase: Phase,
    /// The block that the stream offered last.
    pub block: Seq<u32>,
    /// The blocks that the buffer has taken, in order.
    pub queued: Seq<Seq<u32>>,
    /// How many packets the stream has asked to have decoded.
    pub sent: nat,
}

/// A stream that has not started yet.
pub open spec fn at_start() -> RunState {
    RunState { phase: Phase::Starting, block: Seq::empty(), queued: Seq::empty(), sent: 0 }
}

/// The stream after one turn.
pub open spec fn run_step(selected: usize, state: RunState, turn: Turn) -> RunState {
    let (phase, action) = next(selected, state.phase, turn.0, turn.1, turn.2);
    let offer = offers(state.phase, turn.0, state.block);
    RunState {
        phase,
        block: match offer {
            Some(block) => block,
            None => state.block,
        },
        queued: match offer {
            Some(block) => if turn.2 {
                state.queued.push(block)
            } else {
                state.queued
            },
            None => state.queued,
        },
        sent: if action == Action::SendPacket && state.phase != Phase::Sending {
            state.sent + 1
        } else {
            state.sent
        },
    }
}

/// The stream after `turns`, in order.
pub open spec fn run_after(selected: usize, state: RunState, turns: Seq<Turn>) -> RunState
    decreases turns.len(),
{
    if turns.len() == 0 {
        state
    } else {
        run_after(selected, run_step(selected, state, turns[0]), turns.skip(1))
    }
}

/// One packet of a track, as a run meets it.
pub struct PacketRun {
    /// The index of the stream that the packet belongs to.
    pub stream: usize,
    /// How many times the flag shows pause before the packet is taken up.
    pub pauses: nat,
    /// The blocks into which the packet's frames are resampled if it is
    /// decoded, in order, each with the number of times that the buffer has
    /// no room for it.
    pub blocks: Seq<(Vec<u32>, nat)>,
}

/// The turns in which a stream that waits for room wakes `count` times: the
/// buffer takes the block on the last of them.
pub open spec fn waking_turns(count: nat, flag: StreamState) -> Seq<Turn>
    decreases count,
{
    if count == 0 {
        seq![]
    } else {
        seq![(Report::Woke, flag, count == 1)] + waking_turns((count - 1) as nat, flag)
    }
}

/// The turns of one block for which the buffer has no room `full` times.
pub open spec fn block_turns(block: Vec<u32>, full: nat, flag: StreamState) -> Seq<Turn> {
    seq![(Report::Block(block), flag, full == 0)] + waking_turns(full, flag)
}

/// The turns of the frames of one packet, up to the report that the decoder
/// has no further frame.
pub open spec fn frame_turns(blocks: Seq<(Vec<u32>, nat)>, flag: StreamState) -> Seq<Turn>
    decreases blocks.len(),
{
    if blocks.len() == 0 {
        seq![(Report::NoFrame, flag, false)]
    } else {
        block_turns(blocks[0].0, blocks[0].1, flag) + frame_turns(blocks.skip(1), flag)
    }
}

/// The turns in which a paused stream wakes `count` times and finds itself
/// paused still.
pub open spec fn paused_turns(count: nat) -> Seq<Turn>
    decreases count,
{
    if count == 0 {
        seq![]
    } else {
        seq![(Report::Woke, StreamState::Pause, false)] + paused_turns((count - 1) as nat)
    }
}

/// The turns from the reading of a packet to the moment the stream may go
/// on with it: the flag shows play at once, or it shows pause `pauses`
/// times, the device is suspended meanwhile, and resumed when the flag
/// shows play.
pub open spec fn check_turns(stream: usize, pauses: nat, flag: StreamState) -> Seq<Turn> {
    if pauses == 0 {
        seq![(Report::Packet(stream), StreamState::Play, false)]
    } else {
        seq![
            (Report::Packet(stream), StreamState::Pause, false),
            (Report::OutputSuspended, flag, false),
        ] + paused_turns((pauses - 1) as nat) + seq![
            (Report::Woke, StreamState::Play, false),
            (Report::OutputStarted, flag, false),
        ]
    }
}

/// The turns of one packet: it is read, the flag is looked at, and if the
/// packet belongs to the stream `selected` it is decoded and its blocks are
/// offered.
pub open spec fn packet_turns(selected: usize, packet: PacketRun, flag: StreamState) -> Seq<Turn> {
    check_turns(packet.stream, packet.pauses, flag) + if packet.stream == selected {
        seq![(Report::PacketSent, flag, false)] + frame_turns(packet.blocks, flag)
    } else {
        seq![]
    }
}

/// The turns of the packets of a track, in order.
pub open spec fn track_turns(selected: usize, packets: Seq<PacketRun>, flag: StreamState) -> Seq<
    Turn,
>
    decreases packets.len(),
{
    if packets.len() == 0 {
        seq![]
    } else {
        track_turns(selected, packets.drop_last(), flag) + packet_turns(
            selected,
            packets.last(),
            flag,
        )
    }
}

/// The turns of a run that nothing cuts short: the device starts, no
/// report tells of a failure, the flag never shows stop when the stream
/// looks at it, and the input ends behind the last packet. `flag` is what
/// the flag shows on the turns on which the stream does not look at it.
pub open spec fn run_turns(selected: usize, packets: Seq<PacketRun>, flag: StreamState) -> Seq<
    Turn,
> {
    seq![(Report::OutputStarted, flag, false)] + track_turns(selected, packets, flag) + seq![
        (Report::EndOfInput, flag, false),
    ]
}

/// The samples of each of `blocks`.
pub open spec fn samples_of(blocks: Seq<(Vec<u32>, nat)>) -> Seq<Seq<u32>> {
    Seq::new(blocks.len(), |i: int| blocks[i].0@)
}

/// The blocks of the packets that belong to the stream `selected`, in the
/// order of the packets.
pub open spec fn blocks_of(selected: usize, packets: Seq<PacketRun>) -> Seq<Seq<u32>>
    decreases packets.len(),
{
    if packets.len() == 0 {
        seq![]
    } else {
        blocks_of(selected, packets.drop_last()) + if packets.last().stream == selected {
            samples_of(packets.last().blocks)
        } else {
            seq![]
        }
    }
}

/// The number of packets that belong to the stream `selected`.
pub open spec fn packets_of(selected: usize, packets: Seq<PacketRun>) -> nat
    decreases packets.len(),
{
    if packets.len() == 0 {
        0
    } else {
        packets_of(selected, packets.drop_last()) + if packets.last().stream == selected {
            1nat
        } else {
            0nat
        }
    }
}

/// A run over turns that follow one another is the run over the first of
/// them followed by the run over the rest.
pub proof fn lemma_run_in_parts(
    selected: usize,
    state: RunState,
    first: Seq<Turn>,
    rest: Seq<Turn>,
)
    ensures
        run_after(selected, state, first + rest) == run_after(
            selected,
            run_after(selected, state, first),
            rest,
        ),
    decreases first.len(),
{
    if first.len() == 0 {
        assert(first + rest =~= rest);
    } else {
        assert((first + rest)[0] == first[0]);
        assert((first + rest).skip(1) =~= first.skip(1) + rest);
        lemma_run_in_parts(selected, run_step(selected, state, first[0]), first.skip(1), rest);
    }
}

proof fn lemma_run_one(selected: usize, state: RunState, turn: Turn)
    ensures
        run_after(selected, state, seq![turn]) == run_step(selected, state, turn),
{
    let turns = seq![turn];
    assert(turns.skip(1).len() == 0);
    assert(run_after(selected, run_step(selected, state, turns[0]), turns.skip(1)) == run_step(
        selected,
        state,
        turn,
    ));
}

proof fn lemma_waking(selected: usize, state: RunState, count: nat, flag: StreamState)
    requires
        state.phase == Phase::Waiting,
        count >= 1,
    ensures
        run_after(selected, state, waking_turns(count, flag)) == (RunState {
            phase: Phase::Receiving,
            queued: state.queued.push(state.block),
            ..state
        }),
    decreases count,
{
    let turn = (Report::Woke, flag, count == 1);
    let rest = waking_turns((count - 1) as nat, flag);
    lemma_run_in_parts(selected, state, seq![turn], rest);
    lemma_run_one(selected, state, turn);
    if count > 1 {
        assert(run_step(selected, state, turn) == state);
        lemma_waking(selected, state, (count - 1) as nat, flag);
    }
}

proof fn lemma_block(
    selected: usize,
    state: RunState,
    block: Vec<u32>,
    full: nat,
    flag: StreamState,
)
    requires
        state.phase == Phase::Receiving,
    ensures
        run_after(selected, state, block_turns(block, full, flag)) == (RunState {
            phase: Phase::Receiving,
            block: block@,
            queued: state.queued.push(block@),
            sent: state.sent,
        }),
{
    let turn = (Report::Block(block), flag, full == 0);
    lemma_run_in_parts(selected, state, seq![turn], waking_turns(full, flag));
    lemma_run_one(selected, state, turn);
    if full > 0 {
        lemma_waking(selected, run_step(selected, state, turn), full, flag);
    }
}

proof fn lemma_frames(
    selected: usize,
    state: RunState,
    blocks: Seq<(Vec<u32>, nat)>,
    flag: StreamState,
)
    requires
        state.phase == Phase::Receiving,
    ensures
        run_after(selected, state, frame_turns(blocks, flag)).phase == Phase::Reading,
        run_after(selected, state, frame_turns(blocks, flag)).queued == state.queued + samples_of(
            blocks,
        ),
        run_after(selected, state, frame_turns(blocks, flag)).sent == state.sent,
    decreases blocks.len(),
{
    if blocks.len() == 0 {
        lemma_run_one(selected, state, (Report::NoFrame, flag, false));
        assert(state.queued + samples_of(blocks) =~= state.queued);
    } else {
        let first = block_turns(blocks[0].0, blocks[0].1, flag);
        let rest = frame_turns(blocks.skip(1), flag);
        lemma_run_in_parts(selected, state, first, rest);
        lemma_block(selected, state, blocks[0].0, blocks[0].1, flag);
        let middle = run_after(selected, state, first);
        lemma_frames(selected, middle, blocks.skip(1), flag);
        assert(middle.queued + samples_of(blocks.skip(1)) =~= state.queued + samples_of(blocks));
    }
}

proof fn lemma_paused(selected: usize, state: RunState, count: nat)
    requires
        state.phase is Suspended,
    ensures
        run_after(selected, state, paused_turns(count)) == state,
    decreases count,
{
    if count > 0 {
        let turn = (Report::Woke, StreamState::Pause, false);
        lemma_run_in_parts(selected, state, seq![turn], paused_turns((count - 1) as nat));
        lemma_run_one(selected, state, turn);
        assert(run_step(selected, state, turn) == state);
        lemma_paused(selected, state, (count - 1) as nat);
    }
}

proof fn lemma_check(
    selected: usize,
    state: RunState,
    stream: usize,
    pauses: nat,
    flag: StreamState,
)
    requires
        state.phase == Phase::Reading,
    ensures
        run_after(selected, state, check_turns(stream, pauses, flag)) == (RunState {
            phase: if stream == selected {
                Phase::Sending
            } else {
                Phase::Reading
            },
            sent: if stream == selected {
                state.sent + 1
            } else {
                state.sent
            },
            ..state
        }),
{
    if pauses == 0 {
        lemma_run_one(selected, state, (Report::Packet(stream), StreamState::Play, false));
    } else {
        let found = (Report::Packet(stream), StreamState::Pause, false);
        let suspended = (Report::OutputSuspended, flag, false);
        let woke = (Report::Woke, StreamState::Play, false);
        let resumed = (Report::OutputStarted, flag, false);
        let polls = paused_turns((pauses - 1) as nat);
        let turns = check_turns(stream, pauses, flag);
        assert(turns =~= seq![found] + (seq![suspended] + (polls + (seq![woke] + seq![resumed]))));
        lemma_run_in_parts(
            selected,
            state,
            seq![found],
            seq![suspended] + (polls + (seq![woke] + seq![resumed])),
        );
        lemma_run_one(selected, state, found);
        let first = run_step(selected, state, found);
        lemma_run_in_parts(selected, first, seq![suspended], polls + (seq![woke] + seq![resumed]));
        lemma_run_one(selected, first, suspended);
        let second = run_step(selected, first, suspended);
        lemma_run_in_parts(selected, second, polls, seq![woke] + seq![resumed]);
        lemma_paused(selected, second, (pauses - 1) as nat);
        lemma_run_in_parts(selected, second, seq![woke], seq![resumed]);
        lemma_run_one(selected, second, woke);
        let third = run_step(selected, second, woke);
        lemma_run_one(selected, third, resumed);
    }
}

proof fn lemma_packet(selected: usize, state: RunState, packet: PacketRun, flag: StreamState)
    requires
        state.phase == Phase::Reading,
    ensures
        run_after(selected, state, packet_turns(selected, packet, flag)).phase == Phase::Reading,
        run_after(selected, state, packet_turns(selected, packet, flag)).queued == state.queued
            + if packet.stream == selected {
            samples_of(packet.blocks)
        } else {
            seq![]
        },
        run_after(selected, state, packet_turns(selected, packet, flag)).sent == state.sent
            + if packet.stream == selected {
            1nat
        } else {
            0nat
        },
{
    let check = check_turns(packet.stream, packet.pauses, flag);
    lemma_check(selected, state, packet.stream, packet.pauses, flag);
    let checked = run_after(selected, state, check);
    if packet.stream == selected {
        let sent = (Report::PacketSent, flag, false);
        let frames = frame_turns(packet.blocks, flag);
        lemma_run_in_parts(selected, state, check, seq![sent] + frames);
        lemma_run_in_parts(selected, checked, seq![sent], frames);
        lemma_run_one(selected, checked, sent);
        lemma_frames(selected, run_step(selected, checked, sent), packet.blocks, flag);
    } else {
        assert(check + Seq::<Turn>::empty() =~= check);
        assert(state.queued + Seq::<Seq<u32>>::empty() =~= state.queued);
    }
}

proof fn lemma_track(selected: usize, state: RunState, packets: Seq<PacketRun>, flag: StreamState)
    requires
        state.phase == Phase::Reading,
    ensures
        run_after(selected, state, track_turns(selected, packets, flag)).phase == Phase::Reading,
        run_after(selected, state, track_turns(selected, packets, flag)).queued == state.queued
            + blocks_of(selected, packets),
        run_after(selected, state, track_turns(selected, packets, flag)).sent == state.sent
            + packets_of(selected, packets),
    decreases packets.len(),
{
    if packets.len() == 0 {
        assert(state.queued + blocks_of(selected, packets) =~= state.queued);
    } else {
        let earlier = track_turns(selected, packets.drop_last(), flag);
        lemma_track(selected, state, packets.drop_last(), flag);
        lemma_run_in_parts(selected, state, earlier, packet_turns(selected, packets.last(), flag));
        let middle = run_after(selected, state, earlier);
        lemma_packet(selected, middle, packets.last(), flag);
        assert(middle.queued + if packets.last().stream == selected {
            samples_of(packets.last().blocks)
        } else {
            seq![]
        } =~= state.queued + blocks_of(selected, packets));
    }
}

/// A run that nothing cuts short plays the track to its end: whatever
/// packets the track holds, however often the stream is paused and resumed
/// on the way, and however often the buffer has no room for a block, the
/// stream decodes every packet of its stream, the buffer takes every block
/// of these packets, whole and in the order in which they were decoded, and
/// nothing else, and on the last turn the stream marks itself as done and
/// returns with success.
pub proof fn lemma_run_plays_track_to_end(
    selected: usize,
    packets: Seq<PacketRun>,
    flag: StreamState,
)
    ensures
        ({
            let body = seq![(Report::OutputStarted, flag, false)] + track_turns(
                selected,
                packets,
                flag,
            );
            let before = run_after(selected, at_start(), body);
            let end = run_after(selected, at_start(), run_turns(selected, packets, flag));
            &&& before.phase == Phase::Reading
            &&& next(selected, before.phase, Report::EndOfInput, flag, false) == (
                Phase::Finished,
                Action::Finish,
            )
            &&& end.phase == Phase::Finished
            &&& end.queued == blocks_of(selected, packets)
            &&& end.sent == packets_of(selected, packets)
        }),
{
    let started = (Report::OutputStarted, flag, false);
    let ended = (Report::EndOfInput, flag, false);
    let track = track_turns(selected, packets, flag);
    lemma_run_in_parts(selected, at_start(), seq![started] + track, seq![ended]);
    lemma_run_in_parts(selected, at_start(), seq![started], track);
    lemma_run_one(selected, at_start(), started);
    let reading = run_step(selected, at_start(), started);
    lemma_track(selected, reading, packets, flag);
    let before = run_after(selected, reading, track);
    lemma_run_one(selected, before, ended);
    assert(reading.queued + blocks_of(selected, packets) =~= blocks_of(selected, packets));
}

/// A stream marks itself as done only at the end of its input: a run that
/// leaves a stream finished that was not finished before holds a turn that
/// reports the end of the input.
pub proof fn lemma_run_is_done_only_at_end_of_input(
    selected: usize,
    state: RunState,
    turns: Seq<Turn>,
)
    requires
        state.phase != Phase::Finished,
        run_after(selected, state, turns).phase == Phase::Finished,
    ensures
        exists|i: int| 0 <= i < turns.len() && (#[trigger] turns[i]).0 == Report::EndOfInput,
    decreases turns.len(),
{
    if turns.len() > 0 {
        let first = run_step(selected, state, turns[0]);
        if first.phase == Phase::Finished {
            assert(turns[0].0 == Report::EndOfInput);
        } else {
            lemma_run_is_done_only_at_end_of_input(selected, first, turns.skip(1));
            let i = choose|i: int|
                0 <= i < turns.skip(1).len() && (#[trigger] turns.skip(1)[i]).0
                    == Report::EndOfInput;
            assert(turns[i + 1] == turns.skip(1)[i]);
        }
    }
}

} // verus!
