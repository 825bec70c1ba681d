use vstd::prelude::*;

use crate::geometry::{Point, Rect, Size};
use crate::screen::Screen;
use crate::surface::Pending;

verus! {

/// Names of the regions the badge draws.
#[derive(Clone, Copy, Debug, PartialEq, Eq, Structural)]
pub enum RegionId {
    /// Sensor readings and the network count.
    Top,
    /// Owner's name and details.
    Details,
    /// The clock.
    Time,
    /// The rotating image.
    Image,
}

/// A rectangle of the panel that is redrawn and committed on its own.
#[derive(Clone, Copy, Debug, PartialEq, Eq, Structural)]
pub struct Region {
    pub id: RegionId,
    pub area: Rect,
    /// Redraw every this many ticks; 0 means only on events.
    pub cadence: u32,
    /// The region is drawn on the badge screen alone.
    pub badge_only: bool,
    /// The region is redrawn when a new image is signaled.
    pub follows_image: bool,
}

/// Why a set of regions cannot be used.
#[derive(Clone, Copy, Debug, PartialEq, Eq, Structural)]
pub enum RegistryError {
    /// A region leaves the panel, or two regions overlap.
    InvalidRegionBounds,
}

impl Region {
    /// The region is part of what `screen` shows.
    pub open spec fn shown_on(self, screen: Screen) -> bool {
        !self.badge_only || screen == Screen::Badge
    }

    /// The region must be redrawn at `tick`, given the drained mailboxes.
    pub open spec fn due(self, tick: u32, screen: Screen, pending: Pending) -> bool {
        &&& self.shown_on(screen)
        &&& {
            ||| pending.force_refresh
            ||| pending.screen_changed
            ||| (self.cadence > 0 && tick % self.cadence == 0)
            ||| (self.follows_image && pending.change_image)
        }
    }

    pub fn is_shown_on(&self, screen: Screen) -> (r: bool)
        ensures
            r == self.shown_on(screen),
    {
        !self.badge_only || screen == Screen::Badge
    }

    pub fn is_due(&self, tick: u32, screen: Screen, pending: Pending) -> (r: bool)
        ensures
            r == self.due(tick, screen, pending),
    {
        self.is_shown_on(screen) && (pending.force_refresh || pending.screen_changed || (
        self.cadence > 0 && tick % self.cadence == 0) || (self.follows_image
            && pending.change_image))
    }
}

/// The regions among the first `n` of `regions` that are due, in order.
pub open spec fn due_prefix(
    regions: Seq<Region>,
    n: int,
    tick: u32,
    screen: Screen,
    pending: Pending,
) -> Seq<Region>
    decreases n,
{
    if n <= 0 {
        Seq::empty()
    } else {
        let before = due_prefix(regions, n - 1, tick, screen, pending);
        if regions[n - 1].due(tick, screen, pending) {
            before.push(regions[n - 1])
        } else {
            before
        }
    }
}

/// The regions of `regions` that are due, in order.
pub open spec fn due_regions(
    regions: Seq<Region>,
    tick: u32,
    screen: Screen,
    pending: Pending,
) -> Seq<Region> {
    due_prefix(regions, regions.len() as int, tick, screen, pending)
}

/// Every region lies on a `width` by `height` panel and no two overlap.
pub open spec fn valid_layout(regions: Seq<Region>, width: u32, height: u32) -> bool {
    &&& forall|i: int| 0 <= i < regions.len() ==> #[trigger] regions[i].area.within(width, height)
    &&& forall|i: int, j: int|
        0 <= i < j < regions.len() ==> !#[trigger] regions[i].area.overlaps(
            #[trigger] regions[j].area,
        )
}

/// The fixed catalog of regions, in draw order.
pub struct RegionRegistry {
    pub regions: Vec<Region>,
    pub width: u32,
    pub height: u32,
}

impl RegionRegistry {
    pub open spec fn wf(&self) -> bool {
        valid_layout(self.regions@, self.width, self.height)
    }

    /// Accepts `regions` for a `width` by `height` panel, or refuses them if
    /// one leaves the panel or two overlap.
    pub fn new(regions: Vec<Region>, width: u32, height: u32) -> (r: Result<
        RegionRegistry,
        RegistryError,
    >)
        ensures
            r.is_ok() <==> valid_layout(regions@, width, height),
            r matches Ok(reg) ==> reg.wf() && reg.regions@ == regions@ && reg.width == width
                && reg.height == height,
            r matches Err(e) ==> e == RegistryError::InvalidRegionBounds,
    {
        let n = regions.len();
        let mut i: usize = 0;
        while i < n
            invariant
                n == regions@.len(),
                i <= n,
                forall|k: int| 0 <= k < i ==> #[trigger] regions@[k].area.within(width, height),
                forall|a: int, b: int|
                    0 <= a < b < n && a < i ==> !#[trigger] regions@[a].area.overlaps(
                        #[trigger] regions@[b].area,
                    ),
            decreases n - i,
        {
            if !regions[i].area.is_within(width, height) {
                return Err(RegistryError::InvalidRegionBounds);
            }
            let mut j: usize = i + 1;
            while j < n
                invariant
                    n == regions@.len(),
                    i < n,
                    i < j <= n,
                    forall|b: int|
                        i < b < j ==> !regions@[i as int].area.overlaps(#[trigger] regions@[b].area),
                decreases n - j,
            {
                if regions[i].area.intersects(&regions[j].area) {
                    return Err(RegistryError::InvalidRegionBounds);
                }
                j = j + 1;
            }
            i = i + 1;
        }
        Ok(RegionRegistry { regions, width, height })
    }

    /// The regions to redraw at `tick` on `screen`, in registry order: those
    /// whose cadence divides the tick, those whose mailbox is set, and every
    /// region shown on the screen when a full redraw is pending.
    pub fn regions_due_at(&self, tick: u32, screen: Screen, pending: Pending) -> (r: Vec<Region>)
        ensures
            r@ == due_regions(self.regions@, tick, screen, pending),
    {
        let mut due: Vec<Region> = Vec::new();
        let mut i: usize = 0;
        while i < self.regions.len()
            invariant
                i <= self.regions@.len(),
                due@ == due_prefix(self.regions@, i as int, tick, screen, pending),
            decreases self.regions@.len() - i,
        {
            let region = self.regions[i];
            if region.is_due(tick, screen, pending) {
                due.push(region);
            }
            i = i + 1;
        }
        due
    }
}

/// Width of the badge's panel in pixels.
pub const PANEL_WIDTH: u32 = 296;

/// Height of the badge's panel in pixels.
pub const PANEL_HEIGHT: u32 = 128;

/// The badge's layout, in draw order: the top bar every 60 ticks on both
/// screens; then, on the badge screen only, the name box on full redraws,
/// the clock every 120 ticks, and the image when it changes.
pub open spec fn badge_layout() -> Seq<Region> {
    seq![
        Region {
            id: RegionId::Top,
            area: Rect { origin: Point { x: 0, y: 0 }, size: Size { width: 296, height: 24 } },
            cadence: 60,
            badge_only: false,
            follows_image: false,
        },
        Region {
            id: RegionId::Details,
            area: Rect { origin: Point { x: 0, y: 40 }, size: Size { width: 144, height: 48 } },
            cadence: 0,
            badge_only: true,
            follows_image: false,
        },
        Region {
            id: RegionId::Time,
            area: Rect { origin: Point { x: 0, y: 96 }, size: Size { width: 88, height: 24 } },
            cadence: 120,
            badge_only: true,
            follows_image: false,
        },
        Region {
            id: RegionId::Image,
            area: Rect {
                origin: Point { x: 150, y: 24 },
                size: Size { width: 146, height: 104 },
            },
            cadence: 0,
            badge_only: true,
            follows_image: true,
        },
    ]
}

/// The badge's own registry, on a `PANEL_WIDTH` by `PANEL_HEIGHT` panel.
pub fn badge_registry() -> (r: RegionRegistry)
    ensures
        r.wf(),
        r.regions@ == badge_layout(),
        r.width == PANEL_WIDTH,
        r.height == PANEL_HEIGHT,
{
    let mut regions: Vec<Region> = Vec::new();
    regions.push(
        Region {
            id: RegionId::Top,
            area: Rect::new(0, 0, PANEL_WIDTH, 24),
            cadence: 60,
            badge_only: false,
            follows_image: false,
        },
    );
    regions.push(
        Region {
            id: RegionId::Details,
            area: Rect::new(0, 40, 144, 48),
            cadence: 0,
            badge_only: true,
            follows_image: false,
        },
    );
    regions.push(
        Region {
            id: RegionId::Time,
            area: Rect::new(0, 96, 88, 24),
            cadence: 120,
            badge_only: true,
            follows_image: false,
        },
    );
    regions.push(
        Region {
            id: RegionId::Image,
            area: Rect::new(150, 24, PANEL_WIDTH - 150, 104),
            cadence: 0,
            badge_only: true,
            follows_image: true,
        },
    );
    assert(regions@ =~= badge_layout());
    let ghost layout = badge_layout();
    assert forall|i: int| 0 <= i < layout.len() implies #[trigger] layout[i].area.within(
        PANEL_WIDTH,
        PANEL_HEIGHT,
    ) by {}
    assert forall|i: int, j: int| 0 <= i < j < layout.len() implies !#[trigger] layout[i].area.overlaps(
        #[trigger] layout[j].area,
    ) by {}
    RegionRegistry { regions, width: PANEL_WIDTH, height: PANEL_HEIGHT }
}

/// A region is in the due list exactly when it is due.
pub proof fn lemma_due_membership(
    regions: Seq<Region>,
    n: int,
    tick: u32,
    screen: Screen,
    pending: Pending,
)
    requires
        0 <= n <= regions.len(),
    ensures
        forall|k: int|
            0 <= k < n && #[trigger] regions[k].due(tick, screen, pending) ==> due_prefix(
                regions,
                n,
                tick,
                screen,
                pending,
            ).contains(regions[k]),
        forall|x: Region|
            #[trigger] due_prefix(regions, n, tick, screen, pending).contains(x) ==> x.due(
                tick,
                screen,
                pending,
            ),
    decreases n,
{
    if n > 0 {
        lemma_due_membership(regions, n - 1, tick, screen, pending);
        let before = due_prefix(regions, n - 1, tick, screen, pending);
        if regions[n - 1].due(tick, screen, pending) {
            assert(before.push(regions[n - 1])[before.len() as int] == regions[n - 1]);
            assert forall|k: int|
                0 <= k < n && #[trigger] regions[k].due(tick, screen, pending) implies before.push(
                regions[n - 1],
            ).contains(regions[k]) by {
                if k < n - 1 {
                    let w = choose|w: int| 0 <= w < before.len() && #[trigger] before[w] == regions[k];
                    assert(before.push(regions[n - 1])[w] == regions[k]);
                }
            }
            assert forall|x: Region| #[trigger] before.push(regions[n - 1]).contains(x) implies x.due(
                tick,
                screen,
                pending,
            ) by {
                let w = choose|w: int|
                    0 <= w < before.len() + 1 && #[trigger] before.push(regions[n - 1])[w] == x;
                if w < before.len() {
                    assert(before.contains(x));
                }
            }
        }
    }
}

/// The due list is a function of the registry, the tick, the screen and the
/// drained mailboxes alone: equal inputs give equal lists.
pub proof fn lemma_due_is_deterministic(
    a: Seq<Region>,
    b: Seq<Region>,
    tick: u32,
    screen: Screen,
    pa: Pending,
    pb: Pending,
)
    requires
        a == b,
        pa == pb,
    ensures
        due_regions(a, tick, screen, pa) == due_regions(b, tick, screen, pb),
{
}

} // verus!
