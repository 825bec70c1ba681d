use badge::geometry::Rect;
use badge::region::{badge_registry, Region, RegionId, RegionRegistry, RegistryError, PANEL_HEIGHT, PANEL_WIDTH};
use badge::scheduler::{PanelError, Phase, Scheduler, TickPlan, DEFAULT_CYCLE_LENGTH};
use badge::screen::Screen;
use badge::surface::{Event, Pending, ShareSurface};
use badge::display_image::DisplayImage;

fn region(id: RegionId, area: Rect, cadence: u32, follows_image: bool) -> Region {
    Region { id, area, cadence, badge_only: id != RegionId::Top, follows_image }
}

fn three_region_registry() -> RegionRegistry {
    let regions = vec![
        region(RegionId::Top, Rect::new(0, 0, 296, 24), 60, false),
        region(RegionId::Time, Rect::new(0, 96, 88, 24), 120, false),
        region(RegionId::Image, Rect::new(150, 24, 146, 104), 0, true),
    ];
    RegionRegistry::new(regions, PANEL_WIDTH, PANEL_HEIGHT).unwrap()
}

fn ids(plan: &TickPlan) -> Vec<RegionId> {
    plan.regions.iter().map(|r| r.id).collect()
}

/// Plans ticks until the scheduler stands at `tick`, finishing each one.
fn run_until(s: &mut Scheduler, surface: &mut ShareSurface, reg: &RegionRegistry, tick: u32) {
    while s.tick != tick || s.first_run {
        s.plan_tick(surface, reg);
        s.finish_tick();
    }
}

#[test]
fn registry_refuses_overlap() {
    let regions = vec![
        region(RegionId::Top, Rect::new(0, 0, 296, 24), 60, false),
        region(RegionId::Time, Rect::new(0, 20, 88, 24), 120, false),
    ];
    assert_eq!(
        RegionRegistry::new(regions, PANEL_WIDTH, PANEL_HEIGHT).err(),
        Some(RegistryError::InvalidRegionBounds)
    );
}

#[test]
fn registry_refuses_out_of_bounds() {
    let regions = vec![region(RegionId::Image, Rect::new(200, 26, 157, 101), 0, true)];
    assert_eq!(
        RegionRegistry::new(regions, PANEL_WIDTH, PANEL_HEIGHT).err(),
        Some(RegistryError::InvalidRegionBounds)
    );
    let negative = vec![region(RegionId::Top, Rect::new(-1, 0, 10, 10), 60, false)];
    assert!(RegionRegistry::new(negative, PANEL_WIDTH, PANEL_HEIGHT).is_err());
}

#[test]
fn registry_accepts_touching_regions() {
    let regions = vec![
        region(RegionId::Top, Rect::new(0, 0, 296, 24), 60, false),
        region(RegionId::Time, Rect::new(0, 24, 88, 24), 120, false),
    ];
    assert!(RegionRegistry::new(regions, PANEL_WIDTH, PANEL_HEIGHT).is_ok());
}

#[test]
fn badge_registry_is_valid() {
    let reg = badge_registry();
    let copy = RegionRegistry::new(reg.regions.clone(), PANEL_WIDTH, PANEL_HEIGHT).unwrap();
    assert_eq!(copy.regions.len(), 4);
}

#[test]
fn due_regions_are_deterministic() {
    let reg = three_region_registry();
    let p = Pending { change_image: true, force_refresh: false, screen_changed: false };
    for t in 0..240 {
        assert_eq!(reg.regions_due_at(t, Screen::Badge, p), reg.regions_due_at(t, Screen::Badge, p));
    }
    let quiet = Pending { change_image: false, force_refresh: false, screen_changed: false };
    let at60: Vec<RegionId> = reg.regions_due_at(60, Screen::Badge, quiet).iter().map(|r| r.id).collect();
    assert_eq!(at60, vec![RegionId::Top]);
    assert!(reg.regions_due_at(61, Screen::Badge, quiet).is_empty());
    let on_list: Vec<RegionId> = reg.regions_due_at(0, Screen::WifiList, quiet).iter().map(|r| r.id).collect();
    assert_eq!(on_list, vec![RegionId::Top]);
}

#[test]
fn first_tick_draws_every_region_without_clear() {
    let reg = three_region_registry();
    let mut surface = ShareSurface::new();
    let mut s = Scheduler::new(DEFAULT_CYCLE_LENGTH);
    let plan = s.plan_tick(&mut surface, &reg);
    assert_eq!(plan.tick, 0);
    assert!(!plan.full_clear);
    assert_eq!(ids(&plan), vec![RegionId::Top, RegionId::Time, RegionId::Image]);
    assert_eq!(plan.screen, Screen::Badge);
    assert_eq!(plan.image, DisplayImage::Ferris);
    assert_eq!(s.phase, Phase::PartialRefreshing);
    s.finish_tick();
    assert_eq!(s.phase, Phase::Idle);
    assert_eq!(s.tick, 1);
    let next = s.plan_tick(&mut surface, &reg);
    assert!(next.regions.is_empty());
    assert_eq!(s.phase, Phase::Idle);
}

#[test]
fn image_signal_redraws_only_image() {
    let reg = three_region_registry();
    let mut surface = ShareSurface::new();
    surface.publish_wifi_count(5);
    let mut s = Scheduler::new(DEFAULT_CYCLE_LENGTH);
    run_until(&mut s, &mut surface, &reg, 5);
    let idle = s.plan_tick(&mut surface, &reg);
    assert_eq!(idle.tick, 5);
    assert!(idle.regions.is_empty());
    surface.signal(Event::ChangeImage);
    let plan = s.plan_tick(&mut surface, &reg);
    assert_eq!(plan.tick, 6);
    assert!(!plan.full_clear);
    assert_eq!(ids(&plan), vec![RegionId::Image]);
    assert_eq!(surface.wifi_count, 5);
    let after = s.plan_tick(&mut surface, &reg);
    assert!(after.regions.is_empty());
}

#[test]
fn two_image_signals_give_one_redraw() {
    let reg = three_region_registry();
    let mut surface = ShareSurface::new();
    let mut s = Scheduler::new(DEFAULT_CYCLE_LENGTH);
    run_until(&mut s, &mut surface, &reg, 10);
    surface.signal(Event::ChangeImage);
    surface.signal(Event::ChangeImage);
    let first = s.plan_tick(&mut surface, &reg);
    assert_eq!(ids(&first), vec![RegionId::Image]);
    let second = s.plan_tick(&mut surface, &reg);
    assert!(second.regions.is_empty());
}

#[test]
fn failed_top_commit_waits_for_next_boundary() {
    let reg = three_region_registry();
    let mut surface = ShareSurface::new();
    let mut s = Scheduler::new(240);
    run_until(&mut s, &mut surface, &reg, 60);
    let plan = s.plan_tick(&mut surface, &reg);
    assert_eq!(ids(&plan), vec![RegionId::Top]);
    let commit: Result<(), PanelError> = Err(PanelError::PanelTimeout);
    assert!(commit.is_err());
    s.finish_tick();
    for t in 61..120 {
        let p = s.plan_tick(&mut surface, &reg);
        assert_eq!(p.tick, t);
        assert!(!ids(&p).contains(&RegionId::Top));
        s.finish_tick();
    }
    let retry = s.plan_tick(&mut surface, &reg);
    assert_eq!(retry.tick, 120);
    assert!(ids(&retry).contains(&RegionId::Top));
    assert!(!retry.full_clear);
}

#[test]
fn wraparound_clears_exactly_once() {
    let reg = three_region_registry();
    let mut surface = ShareSurface::new();
    let mut s = Scheduler::new(DEFAULT_CYCLE_LENGTH);
    let mut clears = 0;
    for _ in 0..DEFAULT_CYCLE_LENGTH {
        let p = s.plan_tick(&mut surface, &reg);
        if p.full_clear {
            clears += 1;
        }
        s.finish_tick();
    }
    assert_eq!(clears, 0);
    assert_eq!(s.tick, 0);
    let wrap = s.plan_tick(&mut surface, &reg);
    assert_eq!(wrap.tick, 0);
    assert!(wrap.full_clear);
    assert_eq!(s.phase, Phase::FullRefreshing);
    assert_eq!(ids(&wrap), vec![RegionId::Top, RegionId::Time, RegionId::Image]);
    let after = s.plan_tick(&mut surface, &reg);
    assert_eq!(after.tick, 1);
    assert!(!after.full_clear);
}

#[test]
fn screen_change_clears_and_redraws_new_screen() {
    let reg = three_region_registry();
    let mut surface = ShareSurface::new();
    let mut s = Scheduler::new(DEFAULT_CYCLE_LENGTH);
    run_until(&mut s, &mut surface, &reg, 7);
    surface.select(Screen::WifiList);
    let plan = s.plan_tick(&mut surface, &reg);
    assert!(plan.full_clear);
    assert_eq!(plan.screen, Screen::WifiList);
    assert_eq!(ids(&plan), vec![RegionId::Top]);
    assert!(!surface.screen_changed.pending);
    surface.select(Screen::WifiList);
    let again = s.plan_tick(&mut surface, &reg);
    assert!(!again.full_clear);
}

#[test]
fn forced_refresh_marks_all_regions() {
    let reg = three_region_registry();
    let mut surface = ShareSurface::new();
    let mut s = Scheduler::new(DEFAULT_CYCLE_LENGTH);
    run_until(&mut s, &mut surface, &reg, 33);
    surface.signal(Event::ForceRefresh);
    let plan = s.plan_tick(&mut surface, &reg);
    assert!(!plan.full_clear);
    assert_eq!(ids(&plan), vec![RegionId::Top, RegionId::Time, RegionId::Image]);
}
