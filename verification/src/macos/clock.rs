//! What an embed session's frames are paced by: the vsync of a display, or a timer
//! where that cannot be had.
//!
//! The window is offscreen, so the display is a guess until the consumer says which
//! one it shows the window on.

use vstd::prelude::*;

verus! {

/// The clock of a session.
#[derive(Clone, Copy, Debug, PartialEq, Eq, Structural)]
pub struct EmbedFrameClock {
    /// Whether frames are paced by a display rather than by the timer.
    pub on_display: bool,
    /// The display that the clock is subscribed to.
    pub display: Option<u32>,
}

/// What a clock wants done.
#[derive(Clone, Copy, Debug, PartialEq, Eq, Structural)]
pub enum ClockStep {
    /// Nothing.
    Keep,
    /// Subscribe to this display, which ends the subscription there is.
    Subscribe { display: u32 },
    /// Pace frames with the timer.
    StartTimer,
    /// End the subscription: nobody listens any more.
    Unsubscribe,
}

/// The display that a subscription ends up on, if it does on any: subscribing first
/// ends what there was.
pub open spec fn subscribed(display: u32, ok: bool) -> Option<u32> {
    if ok {
        Some(display)
    } else {
        None
    }
}

impl EmbedFrameClock {
    /// The clock after the subscription to the main display succeeded, or did not.
    pub open spec fn started(main_display: u32, ok: bool) -> EmbedFrameClock {
        EmbedFrameClock { on_display: ok, display: subscribed(main_display, ok) }
    }

    /// What starting leaves to do.
    pub open spec fn first_step(ok: bool) -> ClockStep {
        if ok {
            ClockStep::Keep
        } else {
            ClockStep::StartTimer
        }
    }

    /// A new clock, which has tried to subscribe to the main display. Where that
    /// failed it falls back to the timer.
    pub fn spawn(main_display: u32, ok: bool) -> (result: (EmbedFrameClock, ClockStep))
        ensures
            result.0 == EmbedFrameClock::started(main_display, ok),
            result.1 == EmbedFrameClock::first_step(ok),
    {
        if ok {
            (
                EmbedFrameClock { on_display: true, display: Some(main_display) },
                ClockStep::Keep,
            )
        } else {
            (EmbedFrameClock { on_display: false, display: None }, ClockStep::StartTimer)
        }
    }

    /// Whether the clock moves to another display: it does not where it is there
    /// already, and cannot where it is on the timer.
    pub open spec fn moves_to(self, display: u32) -> bool {
        self.on_display && self.display != Some(display)
    }

    /// What moving to a display begins with.
    pub open spec fn retarget_step(self, display: u32) -> ClockStep {
        if self.moves_to(display) {
            ClockStep::Subscribe { display }
        } else {
            ClockStep::Keep
        }
    }

    /// Asks the clock to move to the display the consumer is on. Cheap to repeat.
    pub fn retarget(&self, display: u32) -> (step: ClockStep)
        ensures
            step == self.retarget_step(display),
    {
        let there: bool = match self.display {
            Some(current) => current == display,
            None => false,
        };
        if there || !self.on_display {
            ClockStep::Keep
        } else {
            ClockStep::Subscribe { display }
        }
    }

    /// What the outcome of moving leaves to do: after a failure the display the clock
    /// came from is worth a second attempt.
    pub open spec fn step_after_moved(self, ok: bool) -> ClockStep {
        match self.display {
            Some(previous) if !ok => ClockStep::Subscribe { display: previous },
            _ => ClockStep::Keep,
        }
    }

    /// The clock after the outcome of moving.
    pub open spec fn after_moved(self, display: u32, ok: bool) -> EmbedFrameClock {
        if ok {
            EmbedFrameClock { display: Some(display), ..self }
        } else {
            self
        }
    }

    /// Takes the outcome of moving to a display.
    pub fn moved(&mut self, display: u32, ok: bool) -> (step: ClockStep)
        ensures
            step == old(self).step_after_moved(ok),
            *final(self) == old(self).after_moved(display, ok),
    {
        if ok {
            self.display = Some(display);
            return ClockStep::Keep;
        }
        match self.display {
            Some(previous) => ClockStep::Subscribe { display: previous },
            None => ClockStep::Keep,
        }
    }

    /// The clock after the outcome of the second attempt.
    pub open spec fn after_moved_back(self, ok: bool) -> EmbedFrameClock {
        if ok {
            self
        } else {
            EmbedFrameClock { display: None, ..self }
        }
    }

    /// Takes the outcome of the second attempt.
    pub fn moved_back(&mut self, ok: bool)
        ensures
            *final(self) == old(self).after_moved_back(ok),
    {
        if !ok {
            self.display = None;
        }
    }

    /// The clock after it was asked to move, with the outcomes of both attempts.
    pub open spec fn after_move(self, display: u32, ok: bool, back_ok: bool) -> EmbedFrameClock {
        if !self.moves_to(display) {
            self
        } else if self.step_after_moved(ok) is Subscribe {
            self.after_moved(display, ok).after_moved_back(back_ok)
        } else {
            self.after_moved(display, ok)
        }
    }

    /// The display that the subscription is on after the same.
    pub open spec fn subscription_after(
        self,
        before: Option<u32>,
        display: u32,
        ok: bool,
        back_ok: bool,
    ) -> Option<u32> {
        if !self.moves_to(display) {
            before
        } else {
            match self.step_after_moved(ok) {
                ClockStep::Subscribe { display: previous } => subscribed(previous, back_ok),
                _ => subscribed(display, ok),
            }
        }
    }

    /// What a tick that was offered leaves to do.
    pub open spec fn tick_step(self, disconnected: bool) -> ClockStep {
        if disconnected && self.on_display {
            ClockStep::Unsubscribe
        } else {
            ClockStep::Keep
        }
    }

    /// Takes the outcome of offering a tick: a session that is busy with a frame misses
    /// it, and one that is gone ends the subscription.
    pub fn tick(&self, disconnected: bool) -> (step: ClockStep)
        ensures
            step == self.tick_step(disconnected),
    {
        if disconnected && self.on_display {
            ClockStep::Unsubscribe
        } else {
            ClockStep::Keep
        }
    }
}

/// The clock knows where it is: whatever succeeds and fails, the display it holds is
/// the one it is subscribed to.
pub proof fn clock_knows_its_display(
    clock: EmbedFrameClock,
    subscription: Option<u32>,
    display: u32,
    ok: bool,
    back_ok: bool,
)
    requires
        clock.display == subscription,
    ensures
        clock.after_move(display, ok, back_ok).display == clock.subscription_after(
            subscription,
            display,
            ok,
            back_ok,
        ),
{
}

/// A consumer that states its display again changes nothing.
pub proof fn restating_the_display_changes_nothing(
    clock: EmbedFrameClock,
    display: u32,
    back_ok: bool,
)
    ensures
        !clock.after_move(display, true, back_ok).moves_to(display),
{
}

/// A clock that is paced by a display follows the consumer: asked to move, it is on the
/// display that was asked for where that succeeds; else on the one it came from, and on
/// none where that fails as well. A clock on the timer stays there.
pub proof fn a_clock_follows_the_consumer(
    clock: EmbedFrameClock,
    display: u32,
    ok: bool,
    back_ok: bool,
)
    ensures
        clock.after_move(display, ok, back_ok).on_display == clock.on_display,
        !clock.on_display ==> clock.after_move(display, ok, back_ok) == clock,
        clock.on_display && ok ==> clock.after_move(display, ok, back_ok).display == Some(display),
        clock.display == Some(display) ==> clock.after_move(display, ok, back_ok) == clock,
        clock.on_display && !ok && back_ok ==> clock.after_move(display, ok, back_ok).display
            == clock.display,
        clock.on_display && !ok && !back_ok && clock.display != Some(display) ==> clock.after_move(
            display,
            ok,
            back_ok,
        ).display is None,
        clock.moves_to(display) <==> clock.on_display && clock.display != Some(display),
{
}

/// A new clock is on the main display where it could subscribe, and else on the timer.
pub proof fn a_clock_starts_on_the_main_display(main_display: u32, ok: bool)
    ensures
        EmbedFrameClock::started(main_display, ok).on_display == ok,
        EmbedFrameClock::started(main_display, ok).display == if ok {
            Some(main_display)
        } else {
            None
        },
{
}

/// What follows a move that failed is to go back to where the clock came from; after one
/// that succeeded nothing does.
pub proof fn a_failed_move_goes_back(clock: EmbedFrameClock, ok: bool)
    ensures
        ok ==> clock.step_after_moved(ok) == ClockStep::Keep,
        !ok ==> (clock.display matches Some(previous) ==> clock.step_after_moved(ok)
            == (ClockStep::Subscribe { display: previous })),
        clock.display is None ==> clock.step_after_moved(ok) == ClockStep::Keep,
{
}

/// Frames are always paced: by the timer exactly where no display could be subscribed to. A
/// clock subscribes only to the display that it is asked to move to, and gives a subscription
/// up only where it has one and nobody listens.
pub proof fn frames_are_always_paced(
    clock: EmbedFrameClock,
    display: u32,
    ok: bool,
    disconnected: bool,
)
    ensures
        EmbedFrameClock::first_step(ok) == ClockStep::StartTimer <==> !EmbedFrameClock::started(
            display,
            ok,
        ).on_display,
        EmbedFrameClock::first_step(ok) == ClockStep::Keep <==> EmbedFrameClock::started(
            display,
            ok,
        ).on_display,
        clock.retarget_step(display) matches ClockStep::Subscribe { display: wanted } ==> wanted
            == display && clock.on_display && clock.display != Some(display),
        clock.retarget_step(display) == ClockStep::Keep <==> !clock.on_display || clock.display
            == Some(display),
        clock.tick_step(disconnected) == ClockStep::Unsubscribe <==> disconnected
            && clock.on_display,
        clock.tick_step(disconnected) == ClockStep::Keep <==> !disconnected || !clock.on_display,
{
}

} // verus!
