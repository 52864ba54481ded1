use vstd::prelude::*;

verus! {

/// What the player task does after a tick.
#[derive(Debug, PartialEq, Eq, Structural, Clone, Copy)]
pub enum PlayerAction {
    /// The next sample is not due yet.
    Wait,
    /// Write this sample to the DAC now.
    Write(u8),
    /// The packet is played out: hand it back for reuse and load the next.
    NeedPacket,
}

/// Clock ticks between two samples at `sample_rate`.
pub open spec fn spec_ticks_per_sample(ticks_per_second: u32, sample_rate: u32) -> u64 {
    (ticks_per_second / sample_rate) as u64
}

/// Plays the samples of a packet at their sample rate. Each tick looks at
/// the time elapsed since the last sample was due; once a sample period or
/// more has passed it writes the next sample and skips as many samples as
/// whole periods have passed, so that playback keeps pace with the clock.
pub struct Player {
    pos: usize,
    len: usize,
    ticks_per_sample: u64,
    last: u64,
}

/// One tick of the player at time `now` over `samples`, from `before` to
/// `after`: when the packet is played out the player asks for the next one.
/// Else, with `dt` the ticks since the last sample was due: below one period
/// it waits; from one period on it writes the next sample, moves the due
/// time to `now` less the part of `dt` beyond whole periods, and moves on by
/// `dt / period` samples, or to the end of the packet when no more than that
/// many remain after the written one. Only a write moves the player.
pub open spec fn ticks(before: Player, after: Player, samples: Seq<u8>, now: u64, action: PlayerAction) -> bool {
    &&& before.wf()
    &&& after.wf()
    &&& samples.len() == before.len()
    &&& after.len() == before.len()
    &&& after.ticks_per_sample() == before.ticks_per_sample()
    &&& before.pos() == before.len() ==> {
        &&& action == PlayerAction::NeedPacket
        &&& after == before
    }
    &&& before.pos() < before.len() ==> {
        let dt = now - before.last();
        let period = before.ticks_per_sample();
        let skip = (dt / period as int) as usize;
        let left = before.len() - before.pos();
        &&& dt < period ==> {
            &&& action == PlayerAction::Wait
            &&& after == before
        }
        &&& dt >= period ==> {
            &&& action == PlayerAction::Write(samples[before.pos()])
            &&& after.last() == now - dt % (period as int)
            &&& left - 1 > skip ==> after.pos() == before.pos() + skip
            &&& left - 1 <= skip ==> after.pos() == before.len()
            &&& dt / period as int <= usize::MAX ==> after.pos() > before.pos()
        }
    }
}

impl Player {
    /// At most all samples of the packet have been played.
    pub closed spec fn wf(self) -> bool {
        self.pos <= self.len
    }

    /// Index of the next sample to play.
    pub closed spec fn pos(self) -> int {
        self.pos as int
    }

    /// Number of samples in the current packet.
    pub closed spec fn len(self) -> int {
        self.len as int
    }

    /// Clock ticks between two samples of the current packet.
    pub closed spec fn ticks_per_sample(self) -> u64 {
        self.ticks_per_sample
    }

    /// The tick at which the last written sample was due.
    pub closed spec fn last(self) -> u64 {
        self.last
    }

    /// A player for a first packet of `len` samples at `sample_rate`,
    /// started at tick `now`.
    pub fn new(len: usize, sample_rate: u32, ticks_per_second: u32, now: u64) -> (player: Player)
        requires
            sample_rate > 0,
        ensures
            player.wf(),
            player.pos() == 0,
            player.len() == len,
            player.ticks_per_sample() == spec_ticks_per_sample(ticks_per_second, sample_rate),
            player.last() == now,
    {
        Player { pos: 0, len, ticks_per_sample: (ticks_per_second / sample_rate) as u64, last: now }
    }

    /// Loads the next packet of `len` samples at `sample_rate`; returns
    /// whether there is anything to play, for an empty packet ends playback.
    /// The tick of the last sample stays.
    pub fn load(&mut self, len: usize, sample_rate: u32, ticks_per_second: u32) -> (playing: bool)
        requires
            sample_rate > 0,
        ensures
            final(self).wf(),
            final(self).pos() == 0,
            final(self).len() == len,
            final(self).ticks_per_sample() == spec_ticks_per_sample(ticks_per_second, sample_rate),
            final(self).last() == old(self).last(),
            playing == (len > 0),
    {
        self.pos = 0;
        self.len = len;
        self.ticks_per_sample = (ticks_per_second / sample_rate) as u64;
        len > 0
    }

    /// One tick at time `now` over the current packet's `samples`.
    /// When the packet is played out the player asks for the next one.
    /// Else, with `dt` the ticks since the last sample was due: below one
    /// period it waits; from one period on it writes the next sample, moves
    /// the due time to `now` less the part of `dt` beyond whole periods, and
    /// moves on by `dt / period` samples, or to the end of the packet when
    /// no more than that many remain after the written one.
    pub fn tick(&mut self, samples: &[u8], now: u64) -> (action: PlayerAction)
        requires
            old(self).wf(),
            samples@.len() == old(self).len(),
            now >= old(self).last(),
            old(self).pos() < old(self).len() ==> old(self).ticks_per_sample() > 0,
        ensures
            ticks(*old(self), *final(self), samples@, now, action),
    {
        if self.pos == self.len {
            return PlayerAction::NeedPacket;
        }
        let dt = now - self.last;
        if dt >= self.ticks_per_sample {
            let sample = samples[self.pos];
            assert(dt / self.ticks_per_sample >= 1) by (nonlinear_arith)
                requires
                    dt >= self.ticks_per_sample,
                    self.ticks_per_sample > 0,
            ;
            let skip = (dt / self.ticks_per_sample) as usize;
            let rem = dt % self.ticks_per_sample;
            self.last = match now.checked_sub(rem) {
                Some(t) => t,
                None => now,
            };
            if self.len - self.pos - 1 > skip {
                self.pos = self.pos + skip;
            } else {
                self.pos = self.len;
            }
            PlayerAction::Write(sample)
        } else {
            PlayerAction::Wait
        }
    }
}

/// After a sample is written at `now`, its new due time lies within one
/// period before `now` and never before the previous due time.
pub proof fn lemma_due_time_keeps_phase(last: u64, now: u64, period: u64)
    requires
        last <= now,
        period > 0,
        now - last >= period,
    ensures
        now - (now - ((now - last) % (period as int))) < period,
        last <= now - ((now - last) % (period as int)),
{
    let dt = now - last;
    assert(dt % (period as int) < period);
    assert(dt % (period as int) <= dt) by (nonlinear_arith)
        requires
            dt >= 0,
            period > 0,
    ;
}

/// A run of ticks over one packet's samples, from `players[i]` to
/// `players[i + 1]` with `actions[i]` at `nows[i]`.
pub open spec fn tick_run(players: Seq<Player>, actions: Seq<PlayerAction>, nows: Seq<u64>, samples: Seq<u8>) -> bool {
    &&& players.len() == actions.len() + 1
    &&& nows.len() == actions.len()
    &&& forall|i: int|
        0 <= i < actions.len() ==> #[trigger] ticks(players[i], players[i + 1], samples, nows[i], actions[i])
    &&& forall|i: int|
        0 <= i < actions.len() ==> (#[trigger] nows[i] - players[i].last()) / (
        players[i].ticks_per_sample() as int) <= usize::MAX
}

proof fn lemma_run_positions(players: Seq<Player>, actions: Seq<PlayerAction>, nows: Seq<u64>, samples: Seq<u8>, j: int)
    requires
        tick_run(players, actions, nows, samples),
        0 <= j <= actions.len(),
    ensures
        forall|i: int| 0 <= i <= j ==> #[trigger] players[i].pos() <= players[j].pos(),
        forall|i: int| 0 <= i < j && actions[i] is Write ==> #[trigger] players[i].pos() < players[j].pos(),
        (forall|k: int| 0 <= k < j ==> !(#[trigger] actions[k] is Write)) ==> players[j].pos() == players[0].pos(),
    decreases j,
{
    if j > 0 {
        lemma_run_positions(players, actions, nows, samples, j - 1);
        let i = j - 1;
        assert(ticks(players[i], players[i + 1], samples, nows[i], actions[i]));
        assert((nows[i] - players[i].last()) / (players[i].ticks_per_sample() as int) <= usize::MAX);
        assert(players[i].pos() <= players[j].pos());
        assert(actions[i] is Write ==> players[i].pos() < players[j].pos());
    }
}

/// Over a run of ticks the player writes samples of the packet in order:
/// each write is the sample at the player's position, no sample is written
/// twice, and when the run starts at the packet's beginning, the first
/// write is the packet's first sample.
pub proof fn lemma_playback_in_order(
    players: Seq<Player>,
    actions: Seq<PlayerAction>,
    nows: Seq<u64>,
    samples: Seq<u8>,
)
    requires
        tick_run(players, actions, nows, samples),
    ensures
        forall|i: int|
            0 <= i < actions.len() && #[trigger] actions[i] is Write ==> {
                &&& 0 <= players[i].pos() < samples.len()
                &&& actions[i] == PlayerAction::Write(samples[players[i].pos()])
            },
        forall|i: int, j: int|
            0 <= i < j < actions.len() && #[trigger] actions[i] is Write && #[trigger] actions[j] is Write
                ==> players[i].pos() < players[j].pos(),
        players[0].pos() == 0 ==> forall|i: int|
            0 <= i < actions.len() && #[trigger] actions[i] is Write && (forall|k: int|
                0 <= k < i ==> !(#[trigger] actions[k] is Write)) ==> players[i].pos() == 0,
{
    assert forall|i: int| 0 <= i < actions.len() && #[trigger] actions[i] is Write implies {
        &&& 0 <= players[i].pos() < samples.len()
        &&& actions[i] == PlayerAction::Write(samples[players[i].pos()])
    } by {
        assert(ticks(players[i], players[i + 1], samples, nows[i], actions[i]));
    }
    assert forall|i: int, j: int|
        0 <= i < j < actions.len() && #[trigger] actions[i] is Write && #[trigger] actions[j] is Write implies players[i].pos()
            < players[j].pos() by {
        lemma_run_positions(players, actions, nows, samples, j);
    }
    if players[0].pos() == 0 {
        assert forall|i: int|
            0 <= i < actions.len() && #[trigger] actions[i] is Write && (forall|k: int|
                0 <= k < i ==> !(#[trigger] actions[k] is Write)) implies players[i].pos() == 0 by {
            lemma_run_positions(players, actions, nows, samples, i);
        }
    }
}

/// While samples remain, a tick writes exactly when a whole sample period
/// has passed since the last sample was due, and it writes the sample at the
/// player's position; a tick that does not write changes nothing. A played
/// out packet asks for the next one.
pub proof fn lemma_tick_writes_when_due(before: Player, after: Player, samples: Seq<u8>, now: u64, action: PlayerAction)
    requires
        ticks(before, after, samples, now, action),
    ensures
        before.pos() < before.len() ==> {
            &&& (action is Write <==> now - before.last() >= before.ticks_per_sample())
            &&& action is Write ==> action == PlayerAction::Write(samples[before.pos()])
            &&& !(action is Write) ==> after == before && action == PlayerAction::Wait
        },
        before.pos() == before.len() ==> action == PlayerAction::NeedPacket && after == before,
{
}

} // verus!
