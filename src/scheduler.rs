use vstd::prelude::*;

use crate::display_image::DisplayImage;
use crate::region::{due_regions, Region, RegionRegistry};
use crate::screen::Screen;
use crate::surface::{get_current_image, Event, Pending, ShareSurface};

verus! {

/// Ticks in one cycle of the badge: at half a second per tick, one minute.
pub const DEFAULT_CYCLE_LENGTH: u32 = 120;

/// What the scheduler is doing with the panel.
#[derive(Clone, Copy, Debug, PartialEq, Eq, Structural)]
pub enum Phase {
    Idle,
    FullRefreshing,
    PartialRefreshing,
}

/// Ways a panel commit can fail. Both are handled where they happen: the
/// region stays as it was until it is next due.
#[derive(Clone, Copy, Debug, PartialEq, Eq, Structural)]
pub enum PanelError {
    PanelTimeout,
    PanelProtocolError,
}

/// The work of one tick, for the task that owns the panel.
pub struct TickPlan {
    /// The tick this plan is for.
    pub tick: u32,
    /// The screen to draw.
    pub screen: Screen,
    /// Clear and commit the whole panel before drawing the regions.
    pub full_clear: bool,
    /// The image to draw if the image region is due.
    pub image: DisplayImage,
    /// The regions to draw and commit, in order.
    pub regions: Vec<Region>,
}

/// The refresh loop's own state.
#[derive(Clone, Copy, Debug, PartialEq, Eq, Structural)]
pub struct Scheduler {
    /// Position in the cycle, always below `cycle_length`.
    pub tick: u32,
    pub cycle_length: u32,
    /// No tick has been planned yet.
    pub first_run: bool,
    pub phase: Phase,
}

impl Scheduler {
    pub open spec fn wf(self) -> bool {
        0 < self.cycle_length && self.tick < self.cycle_length
    }

    /// The tick is the start of a cycle that followed a completed one.
    pub open spec fn wraps(self) -> bool {
        self.tick == 0 && !self.first_run
    }

    /// The whole panel is cleared on this tick exactly when the screen
    /// changed or a cycle wrapped around.
    pub open spec fn full_clear_for(self, pending: Pending) -> bool {
        pending.screen_changed || self.wraps()
    }

    /// The mailboxes as the region choice sees them: a wraparound forces
    /// every region, as a pending full redraw does.
    pub open spec fn effective(self, pending: Pending) -> Pending {
        Pending { force_refresh: pending.force_refresh || self.wraps(), ..pending }
    }

    /// The regions drawn on this tick.
    pub open spec fn planned(
        self,
        registry: Seq<Region>,
        screen: Screen,
        pending: Pending,
    ) -> Seq<Region> {
        due_regions(registry, self.tick, screen, self.effective(pending))
    }

    /// The tick that follows, wrapping to 0 at the end of the cycle.
    pub open spec fn next_tick(self) -> u32 {
        if self.tick + 1 >= self.cycle_length {
            0
        } else {
            (self.tick + 1) as u32
        }
    }

    /// The state once this tick is planned.
    pub open spec fn stepped(self, full_clear: bool, any_due: bool) -> Scheduler {
        Scheduler {
            tick: self.next_tick(),
            first_run: false,
            phase: if full_clear {
                Phase::FullRefreshing
            } else if any_due {
                Phase::PartialRefreshing
            } else {
                Phase::Idle
            },
            ..self
        }
    }

    pub fn new(cycle_length: u32) -> (r: Scheduler)
        requires
            cycle_length > 0,
        ensures
            r.wf(),
            r.tick == 0,
            r.cycle_length == cycle_length,
            r.first_run,
            r.phase == Phase::Idle,
    {
        Scheduler { tick: 0, cycle_length, first_run: true, phase: Phase::Idle }
    }

    /// Decides the work of the current tick and moves to the next one. The
    /// mailboxes are drained: each pending event is seen by exactly one tick.
    /// A changed screen clears the panel and redraws every region it shows;
    /// so does the start of a new cycle. Otherwise the due regions are drawn
    /// and committed one by one, and nothing is drawn if none is due.
    pub fn plan_tick(&mut self, surface: &mut ShareSurface, registry: &RegionRegistry) -> (r:
        TickPlan)
        requires
            old(self).wf(),
            old(surface).wf(),
        ensures
            final(self).wf(),
            *final(surface) == old(surface).drained(),
            r.tick == old(self).tick,
            r.screen == old(surface).active_screen,
            r.image == old(surface).current_image(),
            r.full_clear == old(self).full_clear_for(old(surface).pending()),
            r.regions@ == old(self).planned(
                registry.regions@,
                old(surface).active_screen,
                old(surface).pending(),
            ),
            *final(self) == old(self).stepped(r.full_clear, r.regions@.len() > 0),
    {
        let pending = surface.take_pending();
        let screen = surface.active_screen;
        let wraps = self.tick == 0 && !self.first_run;
        let full_clear = pending.screen_changed || wraps;
        let effective = Pending {
            force_refresh: pending.force_refresh || wraps,
            change_image: pending.change_image,
            screen_changed: pending.screen_changed,
        };
        let regions = registry.regions_due_at(self.tick, screen, effective);
        let image = get_current_image(surface);
        let plan = TickPlan { tick: self.tick, screen, full_clear, image, regions };
        self.phase = if full_clear {
            Phase::FullRefreshing
        } else if plan.regions.len() > 0 {
            Phase::PartialRefreshing
        } else {
            Phase::Idle
        };
        self.tick = if self.tick + 1 >= self.cycle_length {
            0
        } else {
            self.tick + 1
        };
        self.first_run = false;
        plan
    }

    /// Marks the tick's drawing as done, whatever its commits returned: a
    /// failed region is not queued again and waits for its next due tick.
    pub fn finish_tick(&mut self)
        ensures
            *final(self) == (Scheduler { phase: Phase::Idle, ..*old(self) }),
    {
        self.phase = Phase::Idle;
    }
}

/// Reaching the cycle length wraps the tick to 0, and that tick, and no
/// neighbour of it, clears the whole panel when the screen did not change.
pub proof fn lemma_wrap_clears_once(s: Scheduler, full_clear: bool, any_due: bool, pending: Pending)
    requires
        s.wf(),
        s.cycle_length > 1,
        s.tick == s.cycle_length - 1,
        !pending.screen_changed,
    ensures
        !s.full_clear_for(pending),
        s.stepped(full_clear, any_due).tick == 0,
        s.stepped(full_clear, any_due).full_clear_for(pending),
        s.stepped(full_clear, any_due).stepped(true, any_due).tick == 1,
        !s.stepped(full_clear, any_due).stepped(true, any_due).full_clear_for(pending),
{
}

/// Without a screen change, only a wraparound clears the whole panel.
pub proof fn lemma_clear_only_on_wrap(s: Scheduler, pending: Pending)
    requires
        s.wf(),
        !pending.screen_changed,
    ensures
        s.full_clear_for(pending) <==> (s.tick == 0 && !s.first_run),
{
}

/// Two image signals before a tick collapse: the tick that drains them
/// redraws an event-driven image region, and the tick after it, with no new
/// signal and no wraparound, does not redraw it again.
pub proof fn lemma_image_signals_redraw_once(
    surface: ShareSurface,
    s: Scheduler,
    region: Region,
    screen: Screen,
    full_clear: bool,
    any_due: bool,
)
    requires
        region.follows_image,
        region.cadence == 0,
        region.shown_on(screen),
        !s.stepped(full_clear, any_due).wraps(),
    ensures
        region.due(
            s.tick,
            screen,
            s.effective(surface.signaled(Event::ChangeImage).signaled(Event::ChangeImage).pending()),
        ),
        !region.due(
            s.stepped(full_clear, any_due).tick,
            screen,
            s.stepped(full_clear, any_due).effective(
                surface.signaled(Event::ChangeImage).signaled(Event::ChangeImage).drained().pending(),
            ),
        ),
{
}

/// A region whose commit failed is not drawn again early: with nothing
/// pending, a timed region is due only on ticks its cadence divides.
pub proof fn lemma_failed_region_waits_for_cadence(
    region: Region,
    s: Scheduler,
    screen: Screen,
    pending: Pending,
)
    requires
        !pending.force_refresh,
        !pending.screen_changed,
        !pending.change_image,
        !s.wraps(),
    ensures
        region.due(s.tick, screen, s.effective(pending)) <==> (region.shown_on(screen)
            && region.cadence > 0 && s.tick % region.cadence == 0),
{
}

} // verus!
