use vstd::prelude::*;

verus! {

/// Number of logical screens.
pub const NUMBER_OF_SCREENS: u8 = 2;

/// The logical screens the badge can show.
#[derive(Clone, Copy, Debug, PartialEq, Eq, Structural)]
pub enum Screen {
    Badge,
    WifiList,
}

impl Screen {
    pub open spec fn ordinal(self) -> nat {
        match self {
            Screen::Badge => 0,
            Screen::WifiList => 1,
        }
    }

    pub open spec fn at_ordinal(n: nat) -> Screen {
        if n % (NUMBER_OF_SCREENS as nat) == 0 {
            Screen::Badge
        } else {
            Screen::WifiList
        }
    }

    pub open spec fn successor(self) -> Screen {
        Screen::at_ordinal((self.ordinal() + 1) % (NUMBER_OF_SCREENS as nat))
    }

    pub open spec fn predecessor(self) -> Screen {
        Screen::at_ordinal(
            ((self.ordinal() + NUMBER_OF_SCREENS - 1) % (NUMBER_OF_SCREENS as int)) as nat,
        )
    }

    pub fn as_u8(&self) -> (r: u8)
        ensures
            r == self.ordinal(),
    {
        match self {
            Screen::Badge => 0,
            Screen::WifiList => 1,
        }
    }

    pub fn from_u8(value: u8) -> (r: Option<Screen>)
        ensures
            r.is_some() <==> value < NUMBER_OF_SCREENS,
            r matches Some(s) ==> s.ordinal() == value,
    {
        match value {
            0 => Some(Screen::Badge),
            1 => Some(Screen::WifiList),
            _ => None,
        }
    }

    /// The following screen of the cycle.
    pub fn next(&self) -> (r: Screen)
        ensures
            r == self.successor(),
    {
        match Screen::from_u8((self.as_u8() + 1) % NUMBER_OF_SCREENS) {
            Some(s) => s,
            None => Screen::Badge,
        }
    }

    /// The preceding screen of the cycle.
    pub fn previous(&self) -> (r: Screen)
        ensures
            r == self.predecessor(),
    {
        match Screen::from_u8((self.as_u8() + NUMBER_OF_SCREENS - 1) % NUMBER_OF_SCREENS) {
            Some(s) => s,
            None => Screen::Badge,
        }
    }
}

/// Stepping forward and then back, or back and then forward, returns to the
/// screen one started from.
pub proof fn lemma_screen_cycle_inverts(s: Screen)
    ensures
        s.successor().predecessor() == s,
        s.predecessor().successor() == s,
        s.successor().successor() == s,
{
}

} // verus!
