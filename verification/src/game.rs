use vstd::prelude::*;

verus! {

/// A signal sent to the game loop: run one more tick, or stop.
#[derive(Debug, PartialEq, Eq, Structural, Clone, Copy)]
pub enum GameSignal {
    Stop,
    Tick,
}

/// What the game loop does after looking for a signal.
#[derive(Debug, PartialEq, Eq, Structural, Clone, Copy)]
pub enum LoopStep {
    /// Advance the game by one tick, then wait for the next one.
    RunTick,
    /// Leave the loop.
    Exit,
}

/// The step taken on what was received: a tick runs the game, while a stop
/// signal, or a channel that can no longer be read (`None`), ends the loop.
pub fn on_signal(got: Option<GameSignal>) -> (step: LoopStep)
    ensures
        step == (match got {
            Some(GameSignal::Tick) => LoopStep::RunTick,
            _ => LoopStep::Exit,
        }),
{
    match got {
        Some(GameSignal::Tick) => LoopStep::RunTick,
        _ => LoopStep::Exit,
    }
}

/// How long to wait after a tick that took `took` so that ticks start
/// `period` apart: the part of the period that the tick did not use, or
/// nothing when it used it all.
pub open spec fn pause_spec(period: u64, took: u64) -> u64 {
    if took < period {
        (period - took) as u64
    } else {
        0
    }
}

/// The pause after a tick; both durations are in microseconds.
pub fn pause_after_tick(period: u64, took: u64) -> (pause: u64)
    ensures
        pause == pause_spec(period, took),
{
    if took < period {
        period - took
    } else {
        0
    }
}

/// A tick and the pause after it never last less than a period, and the
/// pause alone never lasts more.
pub proof fn law_tick_pacing(period: u64, took: u64)
    ensures
        took + pause_spec(period, took) >= period,
        pause_spec(period, took) <= period,
{
}

} // verus!
