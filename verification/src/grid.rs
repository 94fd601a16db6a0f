//! A character position on the grid, moved one unit step at a time.
use vstd::prelude::*;

verus! {

/// A named character at a grid coordinate.
#[derive(Default, Clone, Debug)]
pub struct Char {
    pub x: i32,
    pub y: i32,
    pub account: String,
}

impl Char {
    /// A character at the given coordinates.
    pub fn new(name: String, x: i32, y: i32) -> (c: Char)
        ensures
            c.x == x,
            c.y == y,
            c.account == name,
    {
        Char { account: name, x, y }
    }

    /// A legal move: exactly one axis changes, by exactly one.
    pub open spec fn unit_step(dx: i32, dy: i32) -> bool {
        ((dx == 1 || dx == -1) && dy == 0) || (dx == 0 && (dy == 1 || dy == -1))
    }

    /// Apply a move request: a unit step moves the character, any other
    /// delta is ignored and the position is unchanged.
    pub fn move_char(&mut self, dx: i32, dy: i32)
        requires
            Char::unit_step(dx, dy) ==> i32::MIN <= old(self).x + dx <= i32::MAX && i32::MIN <= old(
                self,
            ).y + dy <= i32::MAX,
        ensures
            Char::unit_step(dx, dy) ==> final(self).x == old(self).x + dx && final(self).y == old(
                self,
            ).y + dy,
            !Char::unit_step(dx, dy) ==> final(self).x == old(self).x && final(self).y == old(
                self,
            ).y,
            final(self).account == old(self).account,
    {
        if ((dx == 1 || dx == -1) && dy == 0) || (dx == 0 && (dy == 1 || dy == -1)) {
            self.x = self.x + dx;
            self.y = self.y + dy;
        }
    }

    /// Put the character back at the origin.
    pub fn reset_position(&mut self)
        ensures
            final(self).x == 0,
            final(self).y == 0,
            final(self).account == old(self).account,
    {
        self.x = 0;
        self.y = 0;
    }
}

} // verus!
