//! The viewport rectangle.

use vstd::prelude::*;

use crate::driver::{Call, Driver, Gl};

verus! {

/// The rectangle of the window that drawing maps to.
#[derive(Debug)]
pub struct Viewport {
    x: i32,
    y: i32,
    width: i32,
    height: i32,
}

impl Viewport {
    pub closed spec fn spec_x(&self) -> i32 {
        self.x
    }

    pub closed spec fn spec_y(&self) -> i32 {
        self.y
    }

    pub closed spec fn spec_width(&self) -> i32 {
        self.width
    }

    pub closed spec fn spec_height(&self) -> i32 {
        self.height
    }

    /// A viewport at the origin.
    pub fn new(width: i32, height: i32) -> (r: Self)
        ensures
            r.spec_x() == 0,
            r.spec_y() == 0,
            r.spec_width() == width,
            r.spec_height() == height,
    {
        Viewport { x: 0, y: 0, width, height }
    }

    pub fn with_position(x: i32, y: i32, width: i32, height: i32) -> (r: Self)
        ensures
            r.spec_x() == x,
            r.spec_y() == y,
            r.spec_width() == width,
            r.spec_height() == height,
    {
        Viewport { x, y, width, height }
    }

    /// Starts a change of the viewport; `apply` hands the result to the driver.
    pub fn update(&mut self) -> (r: ViewportUpdate<'_>)
        ensures
            r.current() == *old(self),
            *final(r.viewport()) == *final(self),
    {
        ViewportUpdate(self)
    }

    pub fn x(&self) -> (r: i32)
        ensures
            r == self.spec_x(),
    {
        self.x
    }

    pub fn y(&self) -> (r: i32)
        ensures
            r == self.spec_y(),
    {
        self.y
    }

    pub fn width(&self) -> (r: i32)
        ensures
            r == self.spec_width(),
    {
        self.width
    }

    pub fn height(&self) -> (r: i32)
        ensures
            r == self.spec_height(),
    {
        self.height
    }
}

/// A change of a viewport in progress.
#[derive(Debug)]
pub struct ViewportUpdate<'a>(&'a mut Viewport);

impl<'a> ViewportUpdate<'a> {
    /// The viewport being changed.
    pub closed spec fn viewport(self) -> &'a mut Viewport {
        self.0
    }

    /// The viewport as changed so far.
    pub open spec fn current(self) -> Viewport {
        *self.viewport()
    }

    pub fn x(&mut self, x: i32) -> (r: &mut Self)
        ensures
            r.current().spec_x() == x,
            r.current().spec_y() == old(self).current().spec_y(),
            r.current().spec_width() == old(self).current().spec_width(),
            r.current().spec_height() == old(self).current().spec_height(),
            *final(r.viewport()) == *final(old(self).viewport()),
            *final(self) == *final(r),
    {
        self.0.x = x;
        self
    }

    pub fn y(&mut self, y: i32) -> (r: &mut Self)
        ensures
            r.current().spec_y() == y,
            r.current().spec_x() == old(self).current().spec_x(),
            r.current().spec_width() == old(self).current().spec_width(),
            r.current().spec_height() == old(self).current().spec_height(),
            *final(r.viewport()) == *final(old(self).viewport()),
            *final(self) == *final(r),
    {
        self.0.y = y;
        self
    }

    pub fn width(&mut self, width: i32) -> (r: &mut Self)
        ensures
            r.current().spec_width() == width,
            r.current().spec_x() == old(self).current().spec_x(),
            r.current().spec_y() == old(self).current().spec_y(),
            r.current().spec_height() == old(self).current().spec_height(),
            *final(r.viewport()) == *final(old(self).viewport()),
            *final(self) == *final(r),
    {
        self.0.width = width;
        self
    }

    pub fn height(&mut self, height: i32) -> (r: &mut Self)
        ensures
            r.current().spec_height() == height,
            r.current().spec_x() == old(self).current().spec_x(),
            r.current().spec_y() == old(self).current().spec_y(),
            r.current().spec_width() == old(self).current().spec_width(),
            *final(r.viewport()) == *final(old(self).viewport()),
            *final(self) == *final(r),
    {
        self.0.height = height;
        self
    }

    /// Ends the change and hands the new rectangle to the driver.
    pub fn apply<D: Driver>(self, gl: &mut Gl<D>)
        ensures
            final(gl).log() == old(gl).log().push(
                Call::Viewport {
                    x: self.current().spec_x(),
                    y: self.current().spec_y(),
                    width: self.current().spec_width(),
                    height: self.current().spec_height(),
                },
            ),
            *final(self.viewport()) == self.current(),
    {
        gl.viewport(self.0.x, self.0.y, self.0.width, self.0.height);
    }
}

} // verus!
