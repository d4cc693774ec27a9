//! Structures: named fields, methods that borrow or take `self`, and
//! associated functions.

use vstd::prelude::*;

verus! {

/// An account. It owns its texts: each `User` holds its own `String`s, which
/// live as long as it does.
pub struct User {
    pub active: bool,
    pub username: String,
    pub email: String,
    pub sign_in_count: u64,
}

/// Builds the account of a user who has just signed in for the first time:
/// active, with one sign-in, under the name and address given.
pub fn build_user(username: String, email: String) -> (user: User)
    ensures
        user.active,
        user.username == username,
        user.email == email,
        user.sign_in_count == 1,
{
    User { active: true, username, email, sign_in_count: 1 }
}

/// A rectangle, by the lengths of its sides.
pub struct Rectangle {
    pub height: u32,
    pub width: u32,
}

impl Rectangle {
    /// The area of the rectangle, as a number without bound.
    pub open spec fn area(self) -> nat {
        (self.height * self.width) as nat
    }

    /// Whether the area fits the `u32` in which the methods return it.
    pub open spec fn area_fits(self) -> bool {
        self.area() <= u32::MAX
    }

    /// Returns the area. The rectangle is borrowed, and the caller keeps it.
    pub fn area_borrow(self: &Self) -> (area: u32)
        requires
            self.area_fits(),
        ensures
            area == self.area(),
    {
        self.height * self.width
    }

    /// Returns the area, as `area_borrow` does; `&self` is the short form of
    /// `self: &Self`.
    pub fn area_borrow_short(&self) -> (area: u32)
        requires
            self.area_fits(),
        ensures
            area == self.area(),
    {
        self.height * self.width
    }

    /// Returns the area. The rectangle is taken by value.
    pub fn area_move(self: Self) -> (area: u32)
        requires
            self.area_fits(),
        ensures
            area == self.area(),
    {
        self.height * self.width
    }

    /// Returns the area, as `area_move` does; `self` is the short form of
    /// `self: Self`.
    pub fn area_move_short(self) -> (area: u32)
        requires
            self.area_fits(),
        ensures
            area == self.area(),
    {
        self.height * self.width
    }

    /// Returns the width.
    ///
    /// A getter is where a check on the field would stand. A width has no
    /// value to turn down, so both branches hand out the field.
    pub fn width(self: &Self) -> (width: u32)
        ensures
            width == self.width,
    {
        if self.width > 0 {
            self.width
        } else {
            0
        }
    }

    /// Sets the width and leaves the height.
    pub fn set_width(self: &mut Self, new_width: u32)
        ensures
            final(self).width == new_width,
            final(self).height == old(self).height,
    {
        self.width = new_width;
    }

    /// Sets the height and leaves the width.
    pub fn set_height(self: &mut Self, new_height: u32)
        ensures
            final(self).height == new_height,
            final(self).width == old(self).width,
    {
        self.height = new_height;
    }

    /// Sets the height, as `set_height` does; `&mut self` is the short form
    /// of `self: &mut Self`.
    pub fn set_height_short(&mut self, new_height: u32)
        ensures
            final(self).height == new_height,
            final(self).width == old(self).width,
    {
        self.height = new_height;
    }

    /// Returns the square of the given side.
    pub fn new_square(size: u32) -> (square: Self)
        ensures
            square.width == size,
            square.height == size,
    {
        Self { width: size, height: size }
    }
}

} // verus!
