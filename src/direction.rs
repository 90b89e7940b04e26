use vstd::prelude::*;

verus! {

/// One of the four axis-aligned facings an entity can move in.
#[derive(Debug, Clone, Copy, PartialEq, Eq, Structural)]
pub enum Direction {
    Up,
    Down,
    Left,
    Right,
}

/// The direction that an input key label stands for, if it stands for one.
/// Only the four lowercase labels are recognised.
pub open spec fn keycode_direction(key: Seq<char>) -> Option<Direction> {
    if key == "up"@ {
        Some(Direction::Up)
    } else if key == "down"@ {
        Some(Direction::Down)
    } else if key == "left"@ {
        Some(Direction::Left)
    } else if key == "right"@ {
        Some(Direction::Right)
    } else {
        None
    }
}

/// Whether two string slices hold the same characters.
fn same_text(a: &str, b: &str) -> (r: bool)
    ensures
        r == (a@ == b@),
{
    a.to_owned() == b.to_owned()
}

impl Direction {
    /// Maps an input key label to the direction it names: `"up"`, `"down"`,
    /// `"left"` or `"right"`, compared exactly; any other label gives `None`.
    pub fn from_keycode(key: &str) -> (r: Option<Direction>)
        ensures
            r == keycode_direction(key@),
    {
        if same_text(key, "up") {
            Some(Direction::Up)
        } else if same_text(key, "down") {
            Some(Direction::Down)
        } else if same_text(key, "left") {
            Some(Direction::Left)
        } else if same_text(key, "right") {
            Some(Direction::Right)
        } else {
            None
        }
    }
}

} // verus!
