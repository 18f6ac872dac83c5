//! Drawable components and screens that run them.

use vstd::prelude::*;

verus! {

/// Something that can draw itself.
pub trait Draw {
    /// Draws the component.
    fn draw(&self);
}

/// A screen over any mix of drawable components.
pub struct Screen {
    pub components: Vec<Box<dyn Draw>>,
}

impl Screen {
    /// Draws every component, in order.
    pub fn run(&self) {
        let mut i: usize = 0;
        while i < self.components.len()
            invariant
                0 <= i <= self.components@.len(),
            decreases self.components@.len() - i,
        {
            self.components[i].draw();
            i = i + 1;
        }
    }
}

/// A screen over one kind of drawable component.
pub struct Screen1<T: Draw> {
    pub components: Vec<T>,
}

impl<T> Screen1<T> where T: Draw {
    /// Draws every component, in order.
    pub fn run(&self) {
        let mut i: usize = 0;
        while i < self.components.len()
            invariant
                0 <= i <= self.components@.len(),
            decreases self.components@.len() - i,
        {
            self.components[i].draw();
            i = i + 1;
        }
    }
}

/// A button that can be drawn.
pub struct Button {
    pub width: u32,
    pub height: u32,
    pub label: String,
}

impl Draw for Button {
    fn draw(&self) {
    }
}

} // verus!
