//! The volume and mute state of an audio sink.
//!
//! A volume is an integer, of which [`NORMAL`] stands for 100%. The
//! functions here compute what is to be shown or sent to the sound server;
//! talking to the server is left to the caller.

use vstd::prelude::*;

pub mod server;

use crate::percent::{
    cap, capped, clamp_percent, lemma_minus, lemma_nearest_percent_range, lemma_plus, level_at,
    nearest_percent, round_half_even, spec_level_at, Percent,
};

verus! {

/// The volume that stands for 100%.
pub const NORMAL: u32 = 0x10000;

/// The name by which the server knows the sink that is in use.
pub const DEFAULT_SINK: &'static str = "@DEFAULT_SINK@";

/// The name under which the client introduces itself to the server.
pub const APPLICATION_NAME: &'static str = "frob";

/// The name of the client's connection.
pub const CONTEXT_NAME: &'static str = "FrobContext";

/// The volume of one channel.
#[derive(Copy, Clone, Debug, PartialEq, Eq, Structural)]
pub struct Volume(pub u32);

/// The volume that stands at `percent` percent.
pub open spec fn volume_at(percent: int) -> int {
    spec_level_at(percent, NORMAL as int)
}

/// The volume that a channel at `volume` gets when it is moved by `delta`
/// percent: its percentage is moved, brought into the range from 0 to 100
/// and rounded to the nearest whole percent, a tie going up.
pub open spec fn stepped(volume: int, delta: int) -> int {
    volume_at(nearest_percent(100 * volume + delta * NORMAL, NORMAL as int))
}

/// The whole percent nearest to `volume`, within 0 and 100, a tie going
/// up.
pub open spec fn whole_percent(volume: int) -> int {
    nearest_percent(100 * volume, NORMAL as int)
}

/// Setting a percentage and reading it back: every percentage from 0 to
/// 100 is shown as it was set, and is the nearest whole percent of the
/// volume that it was set to.
pub proof fn lemma_set_then_get(percent: int)
    requires
        0 <= percent <= 100,
    ensures
        round_half_even(100 * volume_at(percent), NORMAL as int) == percent,
        whole_percent(volume_at(percent)) == percent,
{
}

/// A step moves the nearest whole percent by its amount, and stops at 0
/// and at 100.
pub proof fn lemma_step_percent(volume: int, delta: int)
    requires
        0 <= volume,
        delta < 0 ==> volume <= NORMAL,
    ensures
        nearest_percent(100 * volume + delta * NORMAL, NORMAL as int) == clamp_percent(
            whole_percent(volume) + delta,
        ),
{
    if delta >= 0 {
        lemma_plus(100 * volume, NORMAL as int, delta);
    } else {
        lemma_minus(100 * volume, NORMAL as int, -delta);
    }
}

/// Raising the volume and lowering it by the same amount comes back to
/// where it was exactly where it was a volume that a whole percent is set
/// to and raising it did not stop at 100.
pub proof fn lemma_increase_then_decrease(volume: int, amount: int)
    requires
        0 <= volume,
        0 <= amount <= 100,
    ensures
        stepped(stepped(volume, amount), -amount) == volume <==> (volume == volume_at(
            whole_percent(volume),
        ) && whole_percent(volume) + amount <= 100),
{
    let percent = whole_percent(volume);
    lemma_nearest_percent_range(100 * volume, NORMAL as int);
    lemma_step_percent(volume, amount);
    let raised_percent = clamp_percent(percent + amount);
    let raised = volume_at(raised_percent);
    lemma_set_then_get(raised_percent);
    lemma_step_percent(raised, -amount);
    let lowered_percent = clamp_percent(raised_percent - amount);
    lemma_set_then_get(lowered_percent);
}

impl Volume {
    /// The volume as a percentage of [`NORMAL`].
    pub fn percent(&self) -> (percent: Percent)
        ensures
            percent.num() == 100 * self.0,
            percent.den() == NORMAL,
    {
        Percent::of(self.0, NORMAL)
    }

    /// Sets the volume to `percent` percent of [`NORMAL`], rounded down.
    pub fn set_percent(&mut self, percent: u8)
        ensures
            final(self).0 == volume_at(percent as int),
    {
        let level: u64 = level_at(percent, NORMAL);
        self.0 = level as u32;
    }
}

/// The volumes of the channels of a sink.
#[derive(Clone, Debug)]
pub struct ChannelVolumes {
    pub values: Vec<Volume>,
}

impl View for ChannelVolumes {
    type V = Seq<Volume>;

    open spec fn view(&self) -> Seq<Volume> {
        self.values@
    }
}

/// The loudest of `values`, and the muted volume 0 where there is none.
pub open spec fn loudest(values: Seq<Volume>) -> u32
    decreases values.len(),
{
    if values.len() == 0 {
        0
    } else if values.last().0 >= loudest(values.drop_last()) {
        values.last().0
    } else {
        loudest(values.drop_last())
    }
}

/// No channel is louder than the loudest, and some channel is that loud.
pub proof fn lemma_loudest(values: Seq<Volume>)
    ensures
        forall|i: int| 0 <= i < values.len() ==> (#[trigger] values[i]).0 <= loudest(values),
        values.len() > 0 ==> exists|i: int|
            0 <= i < values.len() && (#[trigger] values[i]).0 == loudest(values),
    decreases values.len(),
{
    if values.len() > 0 {
        let init = values.drop_last();
        lemma_loudest(init);
        assert forall|i: int| 0 <= i < values.len() implies (#[trigger] values[i]).0 <= loudest(
            values,
        ) by {
            if i < init.len() {
                assert(values[i] == init[i]);
            }
        }
        if values.last().0 >= loudest(init) {
            assert(values[values.len() - 1].0 == loudest(values));
        } else {
            let i = choose|i: int| 0 <= i < init.len() && (#[trigger] init[i]).0 == loudest(init);
            assert(values[i] == init[i]);
        }
    }
}

impl ChannelVolumes {
    /// The volume of the loudest channel.
    pub fn max(&self) -> (volume: Volume)
        ensures
            volume.0 == loudest(self@),
    {
        let mut volume: u32 = 0;
        let mut i: usize = 0;
        while i < self.values.len()
            invariant
                i <= self.values.len(),
                volume == loudest(self.values@.take(i as int)),
            decreases self.values.len() - i,
        {
            proof {
                let next = self.values@.take(i + 1);
                assert(next.drop_last() =~= self.values@.take(i as int));
                assert(next.last() == self.values@[i as int]);
            }
            if self.values[i].0 >= volume {
                volume = self.values[i].0;
            }
            i += 1;
        }
        assert(self.values@.take(i as int) =~= self.values@);
        Volume(volume)
    }

    /// The channels, each moved by `delta` percent.
    fn step(&self, delta: i16) -> (moved: ChannelVolumes)
        requires
            -100 <= delta <= 100,
        ensures
            moved@.len() == self@.len(),
            forall|i: int|
                0 <= i < self@.len() ==> (#[trigger] moved@[i]).0 == stepped(
                    self@[i].0 as int,
                    delta as int,
                ),
    {
        let mut values: Vec<Volume> = Vec::new();
        let mut i: usize = 0;
        while i < self.values.len()
            invariant
                -100 <= delta <= 100,
                i <= self.values.len(),
                values@.len() == i,
                forall|j: int|
                    0 <= j < i ==> (#[trigger] values@[j]).0 == stepped(
                        self.values@[j].0 as int,
                        delta as int,
                    ),
            decreases self.values.len() - i,
        {
            let mut volume: Volume = self.values[i];
            let percent = volume.percent();
            let whole: u8 = if delta >= 0 {
                percent.plus(delta as u8)
            } else {
                percent.minus((-delta) as u8)
            };
            volume.set_percent(whole);
            values.push(volume);
            i += 1;
        }
        ChannelVolumes { values }
    }
}

/// A snapshot of a sink.
#[derive(Clone, Debug)]
pub struct SinkInfo {
    pub volume: ChannelVolumes,
    pub mute: bool,
}

/// By how much to change the volume.
#[derive(Copy, Clone, Debug)]
pub struct VolumeChange {
    /// the amount to change the volume by
    pub amount: u8,
}

/// What the user asks for.
#[derive(Copy, Clone, Debug)]
pub enum Cli {
    Get,
    SetPercent { percent: u8 },
    Increase(VolumeChange),
    Decrease(VolumeChange),
    ToggleMute,
}

/// What is to be done about a command.
#[derive(Clone, Debug)]
pub enum Action {
    /// Show this number.
    Print(u64),
    /// Set the volumes of the sink's channels to these.
    SetVolume(ChannelVolumes),
    /// Set the sink's mute flag to this.
    SetMute(bool),
}

/// What the command `cli` does to a sink that is in the state `sink`.
pub fn run(cli: &Cli, sink: &SinkInfo) -> (action: Action)
    ensures
        match *cli {
            Cli::Get => action matches Action::Print(shown) && shown == round_half_even(
                100 * loudest(sink.volume@),
                NORMAL as int,
            ),
            Cli::SetPercent { percent } => action matches Action::SetVolume(volume) && volume@
                =~= Seq::new(sink.volume@.len(), |i: int| Volume(volume_at(capped(percent)) as u32)),
            Cli::Increase(change) => action matches Action::SetVolume(volume) && volume@.len()
                == sink.volume@.len() && forall|i: int|
                0 <= i < volume@.len() ==> (#[trigger] volume@[i]).0 == stepped(
                    sink.volume@[i].0 as int,
                    capped(change.amount),
                ),
            Cli::Decrease(change) => action matches Action::SetVolume(volume) && volume@.len()
                == sink.volume@.len() && forall|i: int|
                0 <= i < volume@.len() ==> (#[trigger] volume@[i]).0 == stepped(
                    sink.volume@[i].0 as int,
                    -capped(change.amount),
                ),
            Cli::ToggleMute => action == Action::SetMute(!sink.mute),
        },
{
    match cli {
        Cli::Get => Action::Print(cmd_get(sink)),
        Cli::SetPercent { percent } => Action::SetVolume(cmd_set(sink, *percent)),
        Cli::Increase(args) => Action::SetVolume(cmd_increase(sink, args)),
        Cli::Decrease(args) => Action::SetVolume(cmd_decrease(sink, args)),
        Cli::ToggleMute => Action::SetMute(cmd_toggle_mute(sink)),
    }
}

/// The volume of the loudest channel, as the whole percent that is shown.
pub fn cmd_get(sink: &SinkInfo) -> (shown: u64)
    ensures
        shown == round_half_even(100 * loudest(sink.volume@), NORMAL as int),
{
    let volume = sink.volume.max();
    volume.percent().displayed()
}

/// The volumes that set every channel to `percent` percent, and to 100
/// where `percent` is more.
pub fn cmd_set(sink: &SinkInfo, percent: u8) -> (volume: ChannelVolumes)
    ensures
        volume@ =~= Seq::new(
            sink.volume@.len(),
            |i: int| Volume(volume_at(capped(percent)) as u32),
        ),
{
    let percent = cap(percent);
    let mut values: Vec<Volume> = Vec::new();
    let mut i: usize = 0;
    while i < sink.volume.values.len()
        invariant
            i <= sink.volume.values.len(),
            values@.len() == i,
            forall|j: int| 0 <= j < i ==> (#[trigger] values@[j]).0 == volume_at(percent as int),
        decreases sink.volume.values.len() - i,
    {
        let mut volume: Volume = sink.volume.values[i];
        volume.set_percent(percent);
        values.push(volume);
        i += 1;
    }
    ChannelVolumes { values }
}

/// The volumes that raise every channel by `args.amount` percent, and by
/// 100 where the amount is more. No channel is raised above 100%.
pub fn cmd_increase(sink: &SinkInfo, args: &VolumeChange) -> (volume: ChannelVolumes)
    ensures
        volume@.len() == sink.volume@.len(),
        forall|i: int|
            0 <= i < volume@.len() ==> (#[trigger] volume@[i]).0 == stepped(
                sink.volume@[i].0 as int,
                capped(args.amount),
            ),
{
    let amount = cap(args.amount);
    sink.volume.step(amount as i16)
}

/// The volumes that lower every channel by `args.amount` percent, and by
/// 100 where the amount is more. No channel is lowered below 0%.
pub fn cmd_decrease(sink: &SinkInfo, args: &VolumeChange) -> (volume: ChannelVolumes)
    ensures
        volume@.len() == sink.volume@.len(),
        forall|i: int|
            0 <= i < volume@.len() ==> (#[trigger] volume@[i]).0 == stepped(
                sink.volume@[i].0 as int,
                -capped(args.amount),
            ),
{
    let amount = cap(args.amount);
    sink.volume.step(-(amount as i16))
}

/// The mute flag that reverses the sink's.
pub fn cmd_toggle_mute(sink: &SinkInfo) -> (mute: bool)
    ensures
        mute == !sink.mute,
{
    !sink.mute
}

} // verus!
