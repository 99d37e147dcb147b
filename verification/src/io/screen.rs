//! The main screen: a framebuffer that may be turned a quarter clockwise.
//!
//! The framebuffer itself is drawn by the platform; this module keeps the
//! rotation state and decides where, in the framebuffer's own coordinates,
//! a drawing on the rotated screen lands.

use vstd::prelude::*;

verus! {

/// How far the screen is turned from its native orientation.
#[derive(Debug, Clone, Copy, PartialEq, Eq, Structural)]
pub enum Rotation {
    Default,
    ClockWise,
    UpsideDown,
    CounterClockWise,
}

/// Whether the screen is taller than wide.
#[derive(Debug, Clone, Copy, PartialEq, Eq, Structural)]
pub enum ScreenOrientation {
    Portrait,
    Landscape,
}

impl ScreenOrientation {
    pub fn is_portrait(&self) -> (r: bool)
        ensures
            r <==> *self == ScreenOrientation::Portrait,
    {
        matches!(self, ScreenOrientation::Portrait)
    }

    pub fn is_landscape(&self) -> (r: bool)
        ensures
            r <==> *self == ScreenOrientation::Landscape,
    {
        matches!(self, ScreenOrientation::Landscape)
    }
}

/// A size in pixels.
#[derive(Debug, Clone, Copy, PartialEq, Eq, Structural)]
pub struct ScreenSize {
    pub width: u32,
    pub height: u32,
}

/// A rectangle in pixels: its top left corner and its size.
#[derive(Debug, Clone, Copy, PartialEq, Eq, Structural)]
pub struct ScreenRect {
    pub x: i32,
    pub y: i32,
    pub width: u32,
    pub height: u32,
}

/// How a drawing reaches the framebuffer.
#[derive(Debug, Clone, Copy, PartialEq, Eq, Structural)]
pub enum BlitMode {
    /// Copied as it is.
    Straight,
    /// Turned a quarter clockwise on the way.
    QuarterClockwise,
}

/// Whether a rotation leaves width and height where they are.
pub open spec fn spec_is_natural(rotation: Rotation) -> bool {
    rotation == Rotation::Default || rotation == Rotation::UpsideDown
}

/// The rotation that `set_orientation` chooses for a screen of the given native size.
pub open spec fn spec_rotation_for(native: ScreenSize, value: ScreenOrientation) -> Rotation {
    if native.width < native.height {
        match value {
            ScreenOrientation::Portrait => Rotation::Default,
            ScreenOrientation::Landscape => Rotation::ClockWise,
        }
    } else {
        match value {
            ScreenOrientation::Portrait => Rotation::ClockWise,
            ScreenOrientation::Landscape => Rotation::Default,
        }
    }
}

/// The rotation that `rotate` moves to.
pub open spec fn spec_next_rotation(rotation: Rotation) -> Rotation {
    match rotation {
        Rotation::Default | Rotation::UpsideDown => Rotation::ClockWise,
        Rotation::ClockWise | Rotation::CounterClockWise => Rotation::Default,
    }
}

/// The rotation state of a framebuffer screen.
#[derive(Debug, Clone, Copy, PartialEq, Eq, Structural)]
pub struct BitmapScreen {
    pub native_size: ScreenSize,
    pub rotation: Rotation,
}

impl BitmapScreen {
    /// The framebuffer can only be drawn upright or turned clockwise.
    pub open spec fn wf(&self) -> bool {
        self.rotation == Rotation::Default || self.rotation == Rotation::ClockWise
    }

    /// The size as seen on the rotated screen.
    pub open spec fn spec_size(&self) -> ScreenSize {
        if spec_is_natural(self.rotation) {
            self.native_size
        } else {
            ScreenSize { width: self.native_size.height, height: self.native_size.width }
        }
    }

    pub open spec fn spec_orientation(&self) -> ScreenOrientation {
        if self.spec_size().width < self.spec_size().height {
            ScreenOrientation::Portrait
        } else {
            ScreenOrientation::Landscape
        }
    }

    pub fn new(native_size: ScreenSize) -> (r: Self)
        ensures
            r.native_size == native_size,
            r.rotation == Rotation::Default,
            r.wf(),
    {
        BitmapScreen { native_size, rotation: Rotation::Default }
    }

    pub fn native_size(&self) -> (r: ScreenSize)
        ensures
            r == self.native_size,
    {
        self.native_size
    }

    pub fn rotation(&self) -> (r: Rotation)
        ensures
            r == self.rotation,
    {
        self.rotation
    }

    fn is_natural_orientation(&self) -> (r: bool)
        ensures
            r == spec_is_natural(self.rotation),
    {
        matches!(self.rotation, Rotation::Default | Rotation::UpsideDown)
    }

    fn is_portrait_native(&self) -> (r: bool)
        ensures
            r == (self.native_size.width < self.native_size.height),
    {
        self.native_size.width < self.native_size.height
    }

    /// The size of the rotated screen: the native size, with width and height
    /// exchanged while the screen is turned a quarter.
    pub fn size(&self) -> (r: ScreenSize)
        ensures
            r == self.spec_size(),
    {
        if self.is_natural_orientation() {
            self.native_size
        } else {
            ScreenSize { width: self.native_size.height, height: self.native_size.width }
        }
    }

    /// Portrait when the rotated screen is narrower than tall, else landscape.
    pub fn orientation(&self) -> (r: ScreenOrientation)
        ensures
            r == self.spec_orientation(),
    {
        let dims = self.size();
        if dims.width < dims.height {
            ScreenOrientation::Portrait
        } else {
            ScreenOrientation::Landscape
        }
    }

    /// Upright and clockwise are taken; the other two are refused, and the
    /// rotation stays. Either way the rotation after the call is returned.
    pub fn set_rotation(&mut self, value: Rotation) -> (r: Result<Rotation, Rotation>)
        ensures
            final(self).native_size == old(self).native_size,
            (value == Rotation::Default || value == Rotation::ClockWise) ==> {
                &&& final(self).rotation == value
                &&& r == Ok::<Rotation, Rotation>(value)
            },
            !(value == Rotation::Default || value == Rotation::ClockWise) ==> {
                &&& final(self).rotation == old(self).rotation
                &&& r == Err::<Rotation, Rotation>(old(self).rotation)
            },
            old(self).wf() ==> final(self).wf(),
    {
        match value {
            Rotation::Default | Rotation::ClockWise => {
                self.rotation = value;
                Ok(self.rotation)
            },
            Rotation::UpsideDown | Rotation::CounterClockWise => Err(self.rotation),
        }
    }

    /// Turns the screen to the other of its two states.
    pub fn rotate(&mut self) -> (r: Result<Rotation, Rotation>)
        ensures
            final(self).native_size == old(self).native_size,
            final(self).rotation == spec_next_rotation(old(self).rotation),
            r == Ok::<Rotation, Rotation>(final(self).rotation),
            final(self).wf(),
    {
        let new_val = match self.rotation {
            Rotation::Default | Rotation::UpsideDown => Rotation::ClockWise,
            Rotation::ClockWise | Rotation::CounterClockWise => Rotation::Default,
        };
        self.rotation = new_val;
        Ok(self.rotation)
    }

    /// Turns the screen so that it shows the orientation asked for, where its
    /// native size allows that, and returns the orientation it then has.
    pub fn set_orientation(&mut self, value: ScreenOrientation) -> (r: Result<
        ScreenOrientation,
        ScreenOrientation,
    >)
        ensures
            final(self).native_size == old(self).native_size,
            final(self).rotation == spec_rotation_for(old(self).native_size, value),
            r == Ok::<ScreenOrientation, ScreenOrientation>(final(self).spec_orientation()),
            old(self).native_size.width != old(self).native_size.height ==> r
                == Ok::<ScreenOrientation, ScreenOrientation>(value),
            final(self).wf(),
    {
        if self.is_portrait_native() {
            self.rotation = match value {
                ScreenOrientation::Portrait => Rotation::Default,
                ScreenOrientation::Landscape => Rotation::ClockWise,
            };
        } else {
            self.rotation = match value {
                ScreenOrientation::Portrait => Rotation::ClockWise,
                ScreenOrientation::Landscape => Rotation::Default,
            };
        }
        Ok(self.orientation())
    }

    /// How an image is copied onto the framebuffer.
    pub fn blt_mode(&self) -> (r: BlitMode)
        requires
            self.wf(),
        ensures
            r == (if self.rotation == Rotation::Default {
                BlitMode::Straight
            } else {
                BlitMode::QuarterClockwise
            }),
    {
        match self.rotation {
            Rotation::ClockWise => BlitMode::QuarterClockwise,
            _ => BlitMode::Straight,
        }
    }

    /// How a glyph is drawn onto the framebuffer.
    pub fn glyph_mode(&self) -> (r: BlitMode)
        ensures
            r == (if spec_is_natural(self.rotation) {
                BlitMode::Straight
            } else {
                BlitMode::QuarterClockwise
            }),
    {
        if self.is_natural_orientation() {
            BlitMode::Straight
        } else {
            BlitMode::QuarterClockwise
        }
    }

    /// Where a rectangle of the rotated screen lies in the framebuffer: the same
    /// rectangle while upright; turned a quarter, its top edge becomes the right
    /// edge of the framebuffer rectangle.
    pub fn native_fill_rect(&self, rect: ScreenRect) -> (r: ScreenRect)
        requires
            self.native_size.width <= i32::MAX,
            rect.height <= i32::MAX,
            i32::MIN <= self.native_size.width - rect.y <= i32::MAX,
            i32::MIN <= self.native_size.width - rect.y - rect.height <= i32::MAX,
        ensures
            spec_is_natural(self.rotation) ==> r == rect,
            !spec_is_natural(self.rotation) ==> r == (ScreenRect {
                x: (self.native_size.width - rect.y - rect.height) as i32,
                y: rect.x,
                width: rect.height,
                height: rect.width,
            }),
    {
        if self.is_natural_orientation() {
            rect
        } else {
            let nw = self.native_size.width as i32;
            let h = rect.height as i32;
            ScreenRect { x: nw - rect.y - h, y: rect.x, width: rect.height, height: rect.width }
        }
    }
}

/// Turning the screen twice from either of its states comes back to that state.
pub proof fn lemma_rotate_twice(rotation: Rotation)
    requires
        rotation == Rotation::Default || rotation == Rotation::ClockWise,
    ensures
        spec_next_rotation(spec_next_rotation(rotation)) == rotation,
{
}

/// Asking for an orientation gives that orientation, on every screen that is
/// not square; a square screen is always landscape.
pub proof fn lemma_set_orientation_takes(native: ScreenSize, value: ScreenOrientation)
    ensures
        native.width != native.height ==> (BitmapScreen {
            native_size: native,
            rotation: spec_rotation_for(native, value),
        }).spec_orientation() == value,
        native.width == native.height ==> (BitmapScreen {
            native_size: native,
            rotation: spec_rotation_for(native, value),
        }).spec_orientation() == ScreenOrientation::Landscape,
{
}

/// Turning the screen exchanges its width and height and nothing else.
pub proof fn lemma_rotate_swaps_size(s: BitmapScreen)
    requires
        s.wf(),
    ensures
        (BitmapScreen { native_size: s.native_size, rotation: spec_next_rotation(s.rotation) }).spec_size()
            == (ScreenSize { width: s.spec_size().height, height: s.spec_size().width }),
{
}

} // verus!
