//! The tab bar's entries and the selection among them.
use vstd::prelude::*;
use vstd::std_specs::convert::FromSpecImpl;

verus! {

/// Number of entries in the tab bar.
pub const MENU_LEN: usize = 3;

/// One entry of the tab bar; a value of this type is the current selection.
#[derive(Clone, Copy, Debug, PartialEq, Eq, Structural)]
pub enum Menu {
    Home,
    Commands,
    About,
}

impl Menu {
    /// Position of the entry in the tab bar, counted from zero.
    pub open spec fn index(self) -> int {
        match self {
            Menu::Home => 0,
            Menu::Commands => 1,
            Menu::About => 2,
        }
    }

    /// The entry at position `i`; positions past the end name the last entry.
    pub open spec fn at(i: int) -> Menu {
        if i <= 0 {
            Menu::Home
        } else if i == 1 {
            Menu::Commands
        } else {
            Menu::About
        }
    }

    /// The entry's caption.
    pub open spec fn label_spec(self) -> Seq<char> {
        match self {
            Menu::Home => "Home"@,
            Menu::Commands => "Commands"@,
            Menu::About => "About"@,
        }
    }

    /// The entry one step to the right, stopping at the last entry.
    pub open spec fn next(self) -> Menu {
        if self.index() + 1 < MENU_LEN {
            Menu::at(self.index() + 1)
        } else {
            Menu::at(MENU_LEN - 1)
        }
    }

    /// The entry's caption.
    pub fn label(self) -> (text: &'static str)
        ensures
            text@ == self.label_spec(),
    {
        match self {
            Menu::Home => "Home",
            Menu::Commands => "Commands",
            Menu::About => "About",
        }
    }

    /// Moves the selection one entry to the right; on the last entry it stays.
    pub fn advance(self) -> (moved: Menu)
        ensures
            moved == self.next(),
            moved.index() == if self.index() + 1 < MENU_LEN { self.index() + 1 } else { MENU_LEN - 1 },
    {
        let here: usize = usize::from(self);
        let there: usize = if here + 1 < MENU_LEN { here + 1 } else { MENU_LEN - 1 };
        Menu::from(there)
    }
}

impl From<Menu> for usize {
    /// Position of the entry in the tab bar.
    fn from(value: Menu) -> (position: usize) {
        match value {
            Menu::Home => 0,
            Menu::Commands => 1,
            Menu::About => 2,
        }
    }
}

impl FromSpecImpl<Menu> for usize {
    open spec fn obeys_from_spec() -> bool {
        true
    }

    open spec fn from_spec(v: Menu) -> usize {
        v.index() as usize
    }
}

impl From<usize> for Menu {
    /// The entry at a position; a position past the end gives the last entry.
    fn from(value: usize) -> (entry: Menu) {
        match value {
            0 => Menu::Home,
            1 => Menu::Commands,
            _ => Menu::About,
        }
    }
}

impl FromSpecImpl<usize> for Menu {
    open spec fn obeys_from_spec() -> bool {
        true
    }

    open spec fn from_spec(v: usize) -> Menu {
        Menu::at(v as int)
    }
}

/// Position and entry convert back and forth: every entry's position lies
/// inside the tab bar and names that entry again, and every position inside
/// the tab bar is that of the entry it names.
pub proof fn law_position_round_trip(entry: Menu, position: usize)
    ensures
        0 <= entry.index() < MENU_LEN,
        Menu::at(entry.index()) == entry,
        position < MENU_LEN ==> Menu::at(position as int).index() == position,
        position >= MENU_LEN ==> Menu::at(position as int) == Menu::About,
{
}

} // verus!
