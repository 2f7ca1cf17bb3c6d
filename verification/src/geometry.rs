//! Pixel rectangles and the geometry of the screen they live on.

use vstd::prelude::*;

verus! {

/// An axis-aligned pixel rectangle in the coordinates of the current frame.
///
/// `array` is the staging area through which a box is exchanged with the
/// vision engine: four slots holding `x`, `y`, `width` and `height`.
#[derive(Clone, Copy, Debug, PartialEq, Eq)]
pub struct Rect {
    pub x: i32,
    pub y: i32,
    pub width: i32,
    pub height: i32,
    pub array: [i32; 4],
}

/// The box with the given corner and extents and with nothing staged.
pub open spec fn box_at(x: i32, y: i32, width: i32, height: i32) -> Rect {
    Rect { x, y, width, height, array: [0i32, 0i32, 0i32, 0i32] }
}

/// The box that stands for "no target": no extent, at the origin.
pub open spec fn no_target() -> Rect {
    box_at(0, 0, 0, 0)
}

/// The four staged values describe a box: neither extent is negative.
pub open spec fn staged_box(staged: Seq<i32>) -> bool {
    staged.len() == 4 && staged[2] >= 0 && staged[3] >= 0
}

impl Rect {
    /// Neither extent is negative.
    pub open spec fn wf(&self) -> bool {
        self.width >= 0 && self.height >= 0
    }

    /// A box without area stands for "no target".
    pub open spec fn is_empty(&self) -> bool {
        self.width == 0 || self.height == 0
    }

    /// Horizontal coordinate of the center pixel.
    pub open spec fn center_x(&self) -> int {
        self.x + self.width / 2
    }

    /// Vertical coordinate of the center pixel.
    pub open spec fn center_y(&self) -> int {
        self.y + self.height / 2
    }

    /// The pixel `(px, py)` lies inside the box; the right and bottom edges
    /// are excluded.
    pub open spec fn contains_point(&self, px: int, py: int) -> bool {
        &&& self.x <= px < self.x + self.width
        &&& self.y <= py < self.y + self.height
    }

    /// The center of `other` lies inside this box.
    pub open spec fn contains_center_of(&self, other: &Rect) -> bool {
        self.contains_point(other.center_x(), other.center_y())
    }

    /// Number of pixels covered.
    pub open spec fn area(&self) -> int {
        self.width * self.height
    }

    /// The box lies fully within a screen of the given extent.
    pub open spec fn within(&self, screen: &ScreenGeometry) -> bool {
        &&& self.wf()
        &&& 0 <= self.x
        &&& 0 <= self.y
        &&& self.x + self.width <= screen.width
        &&& self.y + self.height <= screen.height
    }

    /// The empty box at the origin, which stands for "no target".
    pub fn empty() -> (r: Rect)
        ensures
            r == no_target(),
            r.wf(),
            r.is_empty(),
    {
        let r = Rect { x: 0, y: 0, width: 0, height: 0, array: [0, 0, 0, 0] };
        assert(r.array =~= no_target().array);
        r
    }

    /// Builds a box from its corner and extents; a negative extent is refused.
    pub fn new(x: i32, y: i32, width: i32, height: i32) -> (r: Option<Rect>)
        ensures
            r == if width >= 0 && height >= 0 {
                Some(box_at(x, y, width, height))
            } else {
                None
            },
            r matches Some(b) ==> b.wf(),
    {
        if width >= 0 && height >= 0 {
            let b = Rect { x, y, width, height, array: [0, 0, 0, 0] };
            assert(b.array =~= box_at(x, y, width, height).array);
            Some(b)
        } else {
            None
        }
    }

    /// Stages the box: writes `x`, `y`, `width`, `height` into `array`.
    pub fn to_array(&mut self)
        ensures
            final(self).array@ == seq![old(self).x, old(self).y, old(self).width, old(self).height],
            final(self).x == old(self).x,
            final(self).y == old(self).y,
            final(self).width == old(self).width,
            final(self).height == old(self).height,
            old(self).wf() ==> staged_box(final(self).array@),
    {
        self.array = [self.x, self.y, self.width, self.height];
    }

    /// Loads the box from staged values: those of `other` when given, else
    /// its own. Staged values with a negative extent are not a box; they are
    /// refused and nothing changes. The staging area itself is never touched.
    pub fn from_array(&mut self, other: Option<&Rect>) -> (loaded: bool)
        ensures
            loaded == staged_box(
                match other {
                    Some(o) => o.array@,
                    None => old(self).array@,
                },
            ),
            loaded ==> ({
                let staged = match other {
                    Some(o) => o.array@,
                    None => old(self).array@,
                };
                &&& final(self).x == staged[0]
                &&& final(self).y == staged[1]
                &&& final(self).width == staged[2]
                &&& final(self).height == staged[3]
                &&& final(self).wf()
            }),
            !loaded ==> *final(self) == *old(self),
            final(self).array == old(self).array,
    {
        let staged: [i32; 4] = match other {
            Some(o) => o.array,
            None => self.array,
        };
        if staged[2] >= 0 && staged[3] >= 0 {
            self.x = staged[0];
            self.y = staged[1];
            self.width = staged[2];
            self.height = staged[3];
            true
        } else {
            false
        }
    }

    /// Whether the box has no area.
    pub fn has_no_area(&self) -> (b: bool)
        ensures
            b == self.is_empty(),
    {
        self.width == 0 || self.height == 0
    }

    /// Whether the center of `other` lies inside this box.
    pub fn holds_center_of(&self, other: &Rect) -> (b: bool)
        requires
            self.wf(),
            other.wf(),
        ensures
            b == self.contains_center_of(other),
    {
        let cx: i64 = other.x as i64 + (other.width / 2) as i64;
        let cy: i64 = other.y as i64 + (other.height / 2) as i64;
        let left: i64 = self.x as i64;
        let top: i64 = self.y as i64;
        left <= cx && cx < left + self.width as i64 && top <= cy && cy < top + self.height as i64
    }

    /// Number of pixels covered.
    pub fn pixel_area(&self) -> (a: i64)
        ensures
            a == self.area(),
            self.wf() ==> a >= 0,
            -0x3fff_ffff_8000_0000 <= a <= 0x4000_0000_0000_0000,
    {
        let w: i64 = self.width as i64;
        let h: i64 = self.height as i64;
        assert(-0x8000_0000 * 0x7fff_ffff <= w * h <= 0x8000_0000 * 0x8000_0000
            && ((w >= 0 && h >= 0) ==> w * h >= 0)) by (nonlinear_arith)
            requires
                -0x8000_0000 <= w <= 0x7fff_ffff,
                -0x8000_0000 <= h <= 0x7fff_ffff,
        ;
        w * h
    }

    /// Whether neither extent is negative.
    pub fn is_well_formed(&self) -> (b: bool)
        ensures
            b == self.wf(),
    {
        self.width >= 0 && self.height >= 0
    }
}

/// Dimensions of the video frame, in pixels.
#[derive(Clone, Copy, Debug, PartialEq, Eq)]
pub struct ScreenGeometry {
    pub width: u32,
    pub height: u32,
}

impl ScreenGeometry {
    /// A usable screen has a positive extent in both directions.
    pub open spec fn wf(&self) -> bool {
        self.width > 0 && self.height > 0
    }

    /// Builds the geometry of a frame, if the frame has any pixels at all.
    pub fn new(width: u32, height: u32) -> (screen: Option<ScreenGeometry>)
        ensures
            screen.is_some() <==> (width > 0 && height > 0),
            screen matches Some(s) ==> s.width == width && s.height == height && s.wf(),
    {
        if width > 0 && height > 0 {
            Some(ScreenGeometry { width, height })
        } else {
            None
        }
    }
}

/// What the screen geometry is after a frame of the given size arrived: the
/// first frame with pixels fixes it, later frames leave it alone.
pub open spec fn screen_after(current: Option<ScreenGeometry>, width: u32, height: u32) -> Option<
    ScreenGeometry,
> {
    match current {
        Some(s) => Some(s),
        None => if width > 0 && height > 0 {
            Some(ScreenGeometry { width, height })
        } else {
            None
        },
    }
}

/// Captures the screen geometry once.
pub fn capture_screen(current: Option<ScreenGeometry>, width: u32, height: u32) -> (screen: Option<
    ScreenGeometry,
>)
    ensures
        screen == screen_after(current, width, height),
        current.is_some() ==> screen == current,
{
    match current {
        Some(s) => Some(s),
        None => ScreenGeometry::new(width, height),
    }
}

} // verus!
