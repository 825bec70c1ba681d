use badge::display_image::{DisplayImage, NUMBER_OF_IMAGES};
use badge::geometry::Point;
use badge::screen::Screen;

#[test]
fn from_u8_maps_known_ordinals() {
    assert_eq!(DisplayImage::from_u8(0), Some(DisplayImage::Ferris));
    assert_eq!(DisplayImage::from_u8(1), Some(DisplayImage::Repo));
    assert_eq!(DisplayImage::from_u8(2), None);
    assert_eq!(DisplayImage::from_u8(255), None);
}

#[test]
fn as_u8_inverts_from_u8() {
    for v in 0..NUMBER_OF_IMAGES {
        assert_eq!(DisplayImage::from_u8(v).unwrap().as_u8(), v);
    }
}

#[test]
fn next_wraps_around() {
    assert_eq!(DisplayImage::Ferris.next(), DisplayImage::Repo);
    assert_eq!(DisplayImage::Repo.next(), DisplayImage::Ferris);
}

#[test]
fn previous_wraps_around() {
    assert_eq!(DisplayImage::Ferris.previous(), DisplayImage::Repo);
    assert_eq!(DisplayImage::Repo.previous(), DisplayImage::Ferris);
}

#[test]
fn next_applied_count_times_returns_to_start() {
    for start in [DisplayImage::Ferris, DisplayImage::Repo] {
        let mut image = start;
        for _ in 0..NUMBER_OF_IMAGES {
            image = image.next();
        }
        assert_eq!(image, start);
        assert_eq!(start.next().previous(), start);
        assert_eq!(start.previous().next(), start);
    }
}

#[test]
fn image_assets_and_anchors() {
    assert_eq!(DisplayImage::Ferris.image(), "ferris_w_a_knife.bmp");
    assert_eq!(DisplayImage::Repo.image(), "repo.bmp");
    assert_eq!(DisplayImage::Ferris.image_location(), Point::new(150, 26));
    assert_eq!(DisplayImage::Repo.image_location(), Point::new(190, 26));
}

#[test]
fn clear_area_starts_at_previous_anchor() {
    let area = DisplayImage::Ferris.clear_area();
    assert_eq!(area.origin, Point::new(190, 26));
    assert_eq!(area.size.width, 157);
    assert_eq!(area.size.height, 101);
    assert_eq!(DisplayImage::Repo.clear_area().origin, Point::new(150, 26));
}

#[test]
fn screens_cycle_both_ways() {
    assert_eq!(Screen::Badge.next(), Screen::WifiList);
    assert_eq!(Screen::WifiList.next(), Screen::Badge);
    assert_eq!(Screen::Badge.previous(), Screen::WifiList);
    assert_eq!(Screen::WifiList.previous(), Screen::Badge);
    assert_eq!(Screen::from_u8(1), Some(Screen::WifiList));
    assert_eq!(Screen::from_u8(2), None);
    assert_eq!(Screen::WifiList.as_u8(), 1);
}
