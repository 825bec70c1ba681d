use vstd::prelude::*;
use vstd::string::*;

use crate::display_image::{DisplayImage, NUMBER_OF_IMAGES};
use crate::screen::Screen;
use crate::text::{clock_spec, clock_text, decimal, two_digits, twelve_hour};

verus! {

/// Most characters the clock text keeps; longer text is cut to this length.
pub const CLOCK_CAPACITY: usize = 8;

/// A single-slot signal: setting it twice before it is taken is the same as
/// setting it once, and taking it clears it.
#[derive(Clone, Copy, Debug, PartialEq, Eq, Structural)]
pub struct Mailbox {
    pub pending: bool,
}

impl Mailbox {
    pub fn new(pending: bool) -> (r: Mailbox)
        ensures
            r.pending == pending,
    {
        Mailbox { pending }
    }

    /// Marks the event as pending; a pending event stays pending.
    pub fn set(&mut self)
        ensures
            final(self).pending,
    {
        self.pending = true;
    }

    /// Reports whether the event was pending and clears it.
    pub fn take_and_clear(&mut self) -> (r: bool)
        ensures
            r == old(self).pending,
            !final(self).pending,
    {
        let r = self.pending;
        self.pending = false;
        r
    }
}

/// Events a producer can signal to the refresh scheduler.
#[derive(Clone, Copy, Debug, PartialEq, Eq, Structural)]
pub enum Event {
    ChangeImage,
    ForceRefresh,
}

/// What the mailboxes held when the scheduler drained them.
#[derive(Clone, Copy, Debug, PartialEq, Eq, Structural)]
pub struct Pending {
    pub change_image: bool,
    pub force_refresh: bool,
    pub screen_changed: bool,
}

/// The state that producers publish and the scheduler reads. Each field has
/// one kind of writer: the scanner owns `wifi_count`, the sensor owns the
/// temperature and humidity, the clock owns `clock_text`, the buttons own the
/// screen and the image, and only the scheduler clears the mailboxes.
pub struct ShareSurface {
    pub wifi_count: u32,
    pub temperature_f: u8,
    pub humidity_pct: u8,
    pub clock_text: String,
    pub active_screen: Screen,
    pub image_index: u8,
    pub change_image: Mailbox,
    pub force_refresh: Mailbox,
    pub screen_changed: Mailbox,
}

impl ShareSurface {
    pub open spec fn wf(&self) -> bool {
        &&& self.image_index < NUMBER_OF_IMAGES
        &&& self.clock_text@.len() <= CLOCK_CAPACITY
    }

    /// The surface after `event` was signaled.
    pub open spec fn signaled(self, event: Event) -> ShareSurface {
        match event {
            Event::ChangeImage => ShareSurface { change_image: Mailbox { pending: true }, ..self },
            Event::ForceRefresh => ShareSurface {
                force_refresh: Mailbox { pending: true },
                ..self
            },
        }
    }

    /// The surface after `screen` was selected: a no-op on the screen that
    /// is already active.
    pub open spec fn selected(self, screen: Screen) -> ShareSurface {
        if self.active_screen == screen {
            self
        } else {
            ShareSurface {
                active_screen: screen,
                screen_changed: Mailbox { pending: true },
                ..self
            }
        }
    }

    /// The mailboxes' contents.
    pub open spec fn pending(self) -> Pending {
        Pending {
            change_image: self.change_image.pending,
            force_refresh: self.force_refresh.pending,
            screen_changed: self.screen_changed.pending,
        }
    }

    /// The surface after the scheduler drained every mailbox.
    pub open spec fn drained(self) -> ShareSurface {
        ShareSurface {
            change_image: Mailbox { pending: false },
            force_refresh: Mailbox { pending: false },
            screen_changed: Mailbox { pending: false },
            ..self
        }
    }

    /// The image the surface selects.
    pub open spec fn current_image(self) -> DisplayImage {
        DisplayImage::at_ordinal(self.image_index as nat)
    }

    /// The state at power-on: the badge screen and the first image, with a
    /// full redraw and an image draw pending.
    pub fn new() -> (r: ShareSurface)
        ensures
            r.wf(),
            r.wifi_count == 0,
            r.temperature_f == 0,
            r.humidity_pct == 0,
            r.clock_text@ == Seq::<char>::empty(),
            r.active_screen == Screen::Badge,
            r.image_index == 0,
            r.change_image.pending,
            r.force_refresh.pending,
            !r.screen_changed.pending,
    {
        ShareSurface {
            wifi_count: 0,
            temperature_f: 0,
            humidity_pct: 0,
            clock_text: String::new(),
            active_screen: Screen::Badge,
            image_index: 0,
            change_image: Mailbox::new(true),
            force_refresh: Mailbox::new(true),
            screen_changed: Mailbox::new(false),
        }
    }

    /// Publishes the scanner's count; the stored count never decreases.
    pub fn publish_wifi_count(&mut self, count: u32)
        ensures
            final(self).wifi_count == if count > old(self).wifi_count {
                count
            } else {
                old(self).wifi_count
            },
            final(self).wifi_count >= old(self).wifi_count,
            *final(self) == (ShareSurface { wifi_count: final(self).wifi_count, ..*old(self) }),
    {
        if count > self.wifi_count {
            self.wifi_count = count;
        }
    }

    /// Publishes a temperature sample in degrees Fahrenheit; the last one wins.
    pub fn publish_temperature(&mut self, temperature_f: u8)
        ensures
            *final(self) == (ShareSurface { temperature_f, ..*old(self) }),
    {
        self.temperature_f = temperature_f;
    }

    /// Publishes a relative humidity sample in percent; the last one wins.
    pub fn publish_humidity(&mut self, humidity_pct: u8)
        ensures
            *final(self) == (ShareSurface { humidity_pct, ..*old(self) }),
    {
        self.humidity_pct = humidity_pct;
    }

    /// Replaces the clock text, cut to `CLOCK_CAPACITY` characters.
    pub fn publish_clock_text(&mut self, text: &str)
        requires
            old(self).wf(),
        ensures
            final(self).wf(),
            final(self).clock_text@ == text@.take(
                if text@.len() <= CLOCK_CAPACITY {
                    text@.len() as int
                } else {
                    CLOCK_CAPACITY as int
                },
            ),
            final(self).wifi_count == old(self).wifi_count,
            final(self).temperature_f == old(self).temperature_f,
            final(self).humidity_pct == old(self).humidity_pct,
            final(self).active_screen == old(self).active_screen,
            final(self).image_index == old(self).image_index,
            final(self).pending() == old(self).pending(),
    {
        let n = text.unicode_len();
        let keep = if n <= CLOCK_CAPACITY {
            n
        } else {
            CLOCK_CAPACITY
        };
        let kept = text.substring_char(0, keep);
        self.clock_text = String::from_str(kept);
        assert(self.clock_text@ =~= text@.take(keep as int));
    }

    /// Sets the mailbox of `event`. Setting a pending mailbox changes nothing.
    pub fn signal(&mut self, event: Event)
        ensures
            *final(self) == old(self).signaled(event),
    {
        match event {
            Event::ChangeImage => self.change_image.set(),
            Event::ForceRefresh => self.force_refresh.set(),
        }
    }

    /// Makes `screen` the active screen and asks for a full redraw, unless
    /// it is already active, in which case nothing changes.
    pub fn select(&mut self, screen: Screen)
        ensures
            *final(self) == old(self).selected(screen),
            old(self).active_screen == screen ==> *final(self) == *old(self),
    {
        if self.active_screen != screen {
            self.active_screen = screen;
            self.screen_changed.set();
        }
    }

    /// Stores `image` as the current image and signals the change.
    pub fn show_image(&mut self, image: DisplayImage)
        ensures
            *final(self) == (ShareSurface {
                image_index: image.ordinal() as u8,
                ..old(self).signaled(Event::ChangeImage)
            }),
            final(self).current_image() == image,
    {
        self.image_index = image.as_u8();
        self.signal(Event::ChangeImage);
    }

    /// Moves to the following image of the rotation and signals the change.
    pub fn show_next_image(&mut self)
        requires
            old(self).wf(),
        ensures
            final(self).wf(),
            final(self).current_image() == old(self).current_image().successor(),
            final(self).change_image.pending,
            final(self).active_screen == old(self).active_screen,
            final(self).wifi_count == old(self).wifi_count,
    {
        let image = get_current_image(self).next();
        self.show_image(image);
    }

    /// Takes every mailbox's content and clears them all.
    pub fn take_pending(&mut self) -> (r: Pending)
        ensures
            r == old(self).pending(),
            *final(self) == old(self).drained(),
    {
        let change_image = self.change_image.take_and_clear();
        let force_refresh = self.force_refresh.take_and_clear();
        let screen_changed = self.screen_changed.take_and_clear();
        Pending { change_image, force_refresh, screen_changed }
    }
}

/// The image that the surface selects.
pub fn get_current_image(surface: &ShareSurface) -> (r: DisplayImage)
    requires
        surface.wf(),
    ensures
        r == surface.current_image(),
        r.ordinal() == surface.image_index,
{
    match DisplayImage::from_u8(surface.image_index) {
        Some(image) => image,
        None => DisplayImage::Ferris,
    }
}

/// Publishes the clock text for `hour` (0 to 23) and `minute` (0 to 59).
pub fn set_display_time(surface: &mut ShareSurface, hour: u8, minute: u8)
    requires
        old(surface).wf(),
        hour < 24,
        minute < 60,
    ensures
        final(surface).wf(),
        final(surface).clock_text@ == clock_spec(hour, minute),
        final(surface).wifi_count == old(surface).wifi_count,
        final(surface).active_screen == old(surface).active_screen,
        final(surface).image_index == old(surface).image_index,
        final(surface).pending() == old(surface).pending(),
{
    let text = clock_text(hour, minute);
    proof {
        lemma_clock_text_fits(hour, minute);
    }
    surface.publish_clock_text(text.as_str());
    assert(text@.take(text@.len() as int) =~= text@);
}

/// A valid time of day always fits the clock text's capacity.
pub proof fn lemma_clock_text_fits(hour: u8, minute: u8)
    requires
        hour < 24,
        minute < 60,
    ensures
        clock_spec(hour, minute).len() == CLOCK_CAPACITY,
{
    reveal_strlit(":");
    reveal_strlit(" ");
    reveal_strlit("AM");
    reveal_strlit("PM");
    lemma_two_digits_len(twelve_hour(hour));
    lemma_two_digits_len(minute as nat);
}

/// A number below 100 takes two characters when padded.
proof fn lemma_two_digits_len(n: nat)
    requires
        n < 100,
    ensures
        two_digits(n).len() == 2,
{
    if n >= 10 {
        assert(decimal(n / 10).len() == 1);
    }
}

/// Signaling the same event twice before it is taken leaves the surface as
/// one signal does, and one drain then observes it once and leaves nothing
/// pending.
pub proof fn lemma_signals_collapse(surface: ShareSurface, event: Event)
    ensures
        surface.signaled(event).signaled(event) == surface.signaled(event),
        event == Event::ChangeImage ==> surface.signaled(event).pending().change_image,
        event == Event::ForceRefresh ==> surface.signaled(event).pending().force_refresh,
        !surface.signaled(event).drained().pending().change_image,
        !surface.signaled(event).drained().pending().force_refresh,
        !surface.signaled(event).drained().pending().screen_changed,
{
}

/// Selecting the screen that is already active never asks for a redraw.
pub proof fn lemma_select_active_is_noop(surface: ShareSurface, screen: Screen)
    requires
        surface.active_screen == screen,
    ensures
        surface.selected(screen) == surface,
        surface.selected(screen).screen_changed == surface.screen_changed,
{
}

} // verus!
