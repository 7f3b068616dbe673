//! Control machine of the audio preview player.
//!
//! The hardware sink lives outside the library; this machine decides, for
//! every command of the user, the next playback state and the order to hand
//! to the sink.  Volume is a linear scalar held in hundredths, so the
//! clamped steps of 0.02 are exact: it starts at 10 (0.10) and stays within
//! [0, 100].

use vstd::prelude::*;

verus! {

/// Playback state of the preview player.
#[derive(Clone, Copy, PartialEq, Eq, Structural, Debug)]
pub enum PreviewState {
    Playing,
    Paused,
    Stopped,
}

/// One order for the hardware sink.  `Restart` queues the decoded payload
/// from position zero; `SetVolume` carries the new volume in hundredths.
#[derive(Clone, Copy, PartialEq, Eq, Structural, Debug)]
pub enum SinkCommand {
    Restart,
    Resume,
    Pause,
    Stop,
    SetVolume(u32),
}

/// The preview player's own state: playback state and volume in
/// hundredths.
#[derive(Clone, Copy, PartialEq, Eq, Structural, Debug)]
pub struct Preview {
    pub state: PreviewState,
    pub volume: u32,
}

/// Volume after one raised step: up by 2, clamped to 100.
pub open spec fn vol_up(v: nat) -> nat {
    if v + 2 <= 100 {
        v + 2
    } else {
        100
    }
}

/// Volume after one lowered step: down by 2, floored at 0.
pub open spec fn vol_down(v: nat) -> nat {
    if v >= 2 {
        (v - 2) as nat
    } else {
        0
    }
}

/// Volume after `k` raised steps.
pub open spec fn vol_up_times(v: nat, k: nat) -> nat
    decreases k,
{
    if k == 0 {
        v
    } else {
        vol_up(vol_up_times(v, (k - 1) as nat))
    }
}

/// Volume after `k` lowered steps.
pub open spec fn vol_down_times(v: nat, k: nat) -> nat
    decreases k,
{
    if k == 0 {
        v
    } else {
        vol_down(vol_down_times(v, (k - 1) as nat))
    }
}

/// Raising the volume `k` times reaches exactly `v + 2k`, clamped to 100:
/// repeated presses cannot overshoot the ceiling.
pub proof fn lemma_vol_up_times(v: nat, k: nat)
    requires
        v <= 100,
    ensures
        vol_up_times(v, k) == if v + 2 * k <= 100 {
            v + 2 * k
        } else {
            100nat
        },
    decreases k,
{
    if k > 0 {
        lemma_vol_up_times(v, (k - 1) as nat);
    }
}

/// Lowering the volume `k` times reaches exactly `v - 2k`, floored at 0:
/// repeated presses cannot undershoot the floor.  Holds for the even
/// volumes the player can actually reach.
pub proof fn lemma_vol_down_times(v: nat, k: nat)
    requires
        v % 2 == 0,
    ensures
        vol_down_times(v, k) == if v >= 2 * k {
            (v - 2 * k) as nat
        } else {
            0nat
        },
    decreases k,
{
    if k > 0 {
        lemma_vol_down_times(v, (k - 1) as nat);
    }
}

impl Preview {
    /// The player is well formed when its volume is within [0, 100].
    pub open spec fn wf(&self) -> bool {
        self.volume <= 100
    }

    /// A fresh player: stopped, volume 0.10.
    pub fn new() -> (r: Preview)
        ensures
            r.state == PreviewState::Stopped,
            r.volume == 10,
            r.wf(),
    {
        Preview { state: PreviewState::Stopped, volume: 10 }
    }

    /// Starts playback from position zero.
    pub fn play(&mut self) -> (c: SinkCommand)
        ensures
            final(self).state == PreviewState::Playing,
            final(self).volume == old(self).volume,
            c == SinkCommand::Restart,
    {
        self.state = PreviewState::Playing;
        SinkCommand::Restart
    }

    /// Continues playback where a pause left it.
    pub fn resume(&mut self) -> (c: SinkCommand)
        ensures
            final(self).state == PreviewState::Playing,
            final(self).volume == old(self).volume,
            c == SinkCommand::Resume,
    {
        self.state = PreviewState::Playing;
        SinkCommand::Resume
    }

    /// Pauses playback in place.
    pub fn pause(&mut self) -> (c: SinkCommand)
        ensures
            final(self).state == PreviewState::Paused,
            final(self).volume == old(self).volume,
            c == SinkCommand::Pause,
    {
        self.state = PreviewState::Paused;
        SinkCommand::Pause
    }

    /// Stops playback and discards what is queued.
    pub fn stop(&mut self) -> (c: SinkCommand)
        ensures
            final(self).state == PreviewState::Stopped,
            final(self).volume == old(self).volume,
            c == SinkCommand::Stop,
    {
        self.state = PreviewState::Stopped;
        SinkCommand::Stop
    }

    /// Raises the volume one step.  At the ceiling nothing changes and no
    /// order is given; otherwise the sink is told the new volume.
    pub fn inc_vol(&mut self) -> (c: Option<SinkCommand>)
        requires
            old(self).wf(),
        ensures
            final(self).state == old(self).state,
            final(self).volume == vol_up(old(self).volume as nat),
            final(self).wf(),
            old(self).volume >= 100 ==> c is None && final(self).volume == old(self).volume,
            old(self).volume < 100 ==> c == Option::Some(SinkCommand::SetVolume(final(self).volume)),
    {
        if self.volume >= 100 {
            return Option::None;
        }
        if self.volume + 2 <= 100 {
            self.volume = self.volume + 2;
        } else {
            self.volume = 100;
        }
        Option::Some(SinkCommand::SetVolume(self.volume))
    }

    /// Lowers the volume one step.  At the floor nothing changes and no
    /// order is given; otherwise the sink is told the new volume.
    pub fn dec_vol(&mut self) -> (c: Option<SinkCommand>)
        requires
            old(self).wf(),
        ensures
            final(self).state == old(self).state,
            final(self).volume == vol_down(old(self).volume as nat),
            final(self).wf(),
            old(self).volume == 0 ==> c is None && final(self).volume == old(self).volume,
            old(self).volume > 0 ==> c == Option::Some(SinkCommand::SetVolume(final(self).volume)),
    {
        if self.volume == 0 {
            return Option::None;
        }
        if self.volume >= 2 {
            self.volume = self.volume - 2;
        } else {
            self.volume = 0;
        }
        Option::Some(SinkCommand::SetVolume(self.volume))
    }
}

} // verus!
