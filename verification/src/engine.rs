//! One frame of the loop: where the shape goes and what is painted.
//!
//! The loop comes in two forms. One moves a circle and knows the window by
//! its `Meta`; the other moves a square box and knows the window by the size
//! of what it paints on. Both start in the middle of the window, move by the
//! keys that are down, and keep the shape from leaving the window.

use vstd::prelude::*;
use crate::input::{moved, Keys};
use crate::shape::{fits_i16, to_i16, Color, FilledCircle, FilledRect};

verus! {

/// The radius of the circle.
pub const CHARACTER_RADIUS: i16 = 25;

/// The width of the box.
pub const BOX_WIDTH: u32 = 50;

/// The height of the box.
pub const BOX_HEIGHT: u32 = 50;

/// The size of the window that the circle moves in.
#[derive(Debug)]
pub struct Meta {
    width: i16,
    height: i16,
}

impl View for Meta {
    type V = (int, int);

    closed spec fn view(&self) -> (int, int) {
        (self.width as int, self.height as int)
    }
}

impl Meta {
    /// A window of the given size.
    pub fn new(width: i16, height: i16) -> (meta: Meta)
        ensures
            meta@ == (width as int, height as int),
    {
        Meta { width, height }
    }

    /// The size that the window system reports, where both numbers are an
    /// `i16`.
    pub fn of_window(width: u32, height: u32) -> (meta: Option<Meta>)
        ensures
            meta.is_some() <==> width <= i16::MAX && height <= i16::MAX,
            meta.is_some() ==> meta.unwrap()@ == (width as int, height as int),
    {
        if width <= 32767 && height <= 32767 {
            Some(Meta { width: width as i16, height: height as i16 })
        } else {
            None
        }
    }
}

/// Where the circle ends up on one axis when it wants to be at `v` in a
/// window of extent `size`: not below zero, and at `size` itself once it is
/// nearer to it than its radius.
pub open spec fn confine(v: int, size: int) -> int {
    let low = if v < 0 {
        0
    } else {
        v
    };
    if low > size - CHARACTER_RADIUS {
        size
    } else {
        low
    }
}

/// Where the box ends up on one axis when it wants to be at `v` in a window
/// of extent `size` that it is `side` long on: not below zero, and not so
/// far that it would stick out at the other end.
pub open spec fn confine_box(v: int, size: int, side: int) -> int {
    let low = if v < 0 {
        0
    } else {
        v
    };
    if low > size - side {
        size - side
    } else {
        low
    }
}

/// Where one frame of `keys` takes the circle from `at` in a window of size
/// `size`: it moves, and is then kept in the window.
pub open spec fn stepped(at: (int, int), keys: Keys, size: (int, int)) -> (int, int) {
    (confine(moved(at, keys).0, size.0), confine(moved(at, keys).1, size.1))
}

/// Where one frame of `keys` takes the box from `at` in a window of size
/// `size`: it moves, and is then kept in the window.
pub open spec fn stepped_box(at: (int, int), keys: Keys, size: (int, int)) -> (int, int) {
    (
        confine_box(moved(at, keys).0, size.0, BOX_WIDTH as int),
        confine_box(moved(at, keys).1, size.1, BOX_HEIGHT as int),
    )
}

/// Half of `v`, rounded towards zero.
pub open spec fn half(v: int) -> int {
    if v >= 0 {
        v / 2
    } else {
        -((-v) / 2)
    }
}

/// A circle that was kept in the window is where it may be.
pub proof fn lemma_confine_settles(v: int, size: int)
    ensures
        confine(confine(v, size), size) == confine(v, size),
{
}

/// A box that was kept in the window is where it may be, in a window that
/// it fits in.
pub proof fn lemma_confine_box_settles(v: int, size: int, side: int)
    requires
        0 <= side <= size,
    ensures
        confine_box(confine_box(v, size, side), size, side) == confine_box(v, size, side),
{
}

/// After a frame the circle's coordinates are `i16` wherever the window's
/// extents are.
pub proof fn lemma_stepped_fits(at: (int, int), keys: Keys, size: (int, int))
    requires
        fits_i16(size.0),
        fits_i16(size.1),
    ensures
        fits_i16(stepped(at, keys, size).0),
        fits_i16(stepped(at, keys, size).1),
{
}

/// Whatever the keys and wherever it was, after a frame the circle is in
/// the window, if the window has an extent at all.
pub proof fn lemma_stepped_inside(at: (int, int), keys: Keys, size: (int, int))
    requires
        0 <= size.0,
        0 <= size.1,
    ensures
        0 <= stepped(at, keys, size).0 <= size.0,
        0 <= stepped(at, keys, size).1 <= size.1,
{
}

/// Whatever the keys and wherever it was, after a frame the whole box is in
/// the window, if the window has room for it.
pub proof fn lemma_stepped_box_inside(at: (int, int), keys: Keys, size: (int, int))
    requires
        BOX_WIDTH <= size.0,
        BOX_HEIGHT <= size.1,
    ensures
        0 <= stepped_box(at, keys, size).0 <= size.0 - BOX_WIDTH,
        0 <= stepped_box(at, keys, size).1 <= size.1 - BOX_HEIGHT,
{
}

/// A shape that is in the window and far enough from its edges goes where
/// the keys send it.
pub proof fn lemma_stepped_freely(at: (int, int), keys: Keys, size: (int, int))
    ensures
        0 <= moved(at, keys).0 <= size.0 - CHARACTER_RADIUS ==> stepped(at, keys, size).0 == moved(
            at,
            keys,
        ).0,
        0 <= moved(at, keys).1 <= size.1 - CHARACTER_RADIUS ==> stepped(at, keys, size).1 == moved(
            at,
            keys,
        ).1,
        0 <= moved(at, keys).0 <= size.0 - BOX_WIDTH ==> stepped_box(at, keys, size).0 == moved(
            at,
            keys,
        ).0,
        0 <= moved(at, keys).1 <= size.1 - BOX_HEIGHT ==> stepped_box(at, keys, size).1 == moved(
            at,
            keys,
        ).1,
{
}

/// A circle on the far edge of the window stays there: no frame moves it
/// by as much as its radius.
pub proof fn lemma_stepped_on_edge(at: (int, int), keys: Keys, size: (int, int))
    ensures
        at.0 == size.0 ==> stepped(at, keys, size).0 == size.0,
        at.1 == size.1 ==> stepped(at, keys, size).1 == size.1,
{
}

/// Where the circle is after the frames whose keys `frames` lists, the
/// first frame first.
pub open spec fn after(at: (int, int), frames: Seq<Keys>, size: (int, int)) -> (int, int)
    decreases frames.len(),
{
    if frames.len() == 0 {
        at
    } else {
        stepped(after(at, frames.drop_last(), size), frames.last(), size)
    }
}

/// After any number of frames, but for none at all, the circle is in the
/// window, if the window has an extent at all.
pub proof fn lemma_after_inside(at: (int, int), frames: Seq<Keys>, size: (int, int))
    requires
        0 <= size.0,
        0 <= size.1,
        0 < frames.len(),
    ensures
        0 <= after(at, frames, size).0 <= size.0,
        0 <= after(at, frames, size).1 <= size.1,
{
    lemma_stepped_inside(after(at, frames.drop_last(), size), frames.last(), size);
}

/// A circle that starts on the far edge of the window is there after any
/// number of frames.
pub proof fn lemma_after_on_edge(at: (int, int), frames: Seq<Keys>, size: (int, int))
    ensures
        at.0 == size.0 ==> after(at, frames, size).0 == size.0,
        at.1 == size.1 ==> after(at, frames, size).1 == size.1,
    decreases frames.len(),
{
    if frames.len() > 0 {
        lemma_after_on_edge(at, frames.drop_last(), size);
        lemma_stepped_on_edge(after(at, frames.drop_last(), size), frames.last(), size);
    }
}

/// Where the shape is.
#[derive(Debug)]
pub struct State {
    position: (i32, i32),
}

impl View for State {
    type V = (int, int);

    closed spec fn view(&self) -> (int, int) {
        (self.position.0 as int, self.position.1 as int)
    }
}

impl Default for State {
    /// The shape in the top left corner.
    fn default() -> (state: State)
        ensures
            state@ == (0int, 0int),
    {
        State { position: (0, 0) }
    }
}

/// One coordinate after a frame in which the keys towards smaller (`back`)
/// and larger (`forth`) values were down or not.
fn shift(v: i32, back: bool, forth: bool, speed: i32) -> (to: i64)
    requires
        0 <= speed <= 10,
    ensures
        to == v - (if back { speed as int } else { 0 }) + (if forth { speed as int } else { 0 }),
{
    let mut to: i64 = v as i64;
    if back {
        to = to - speed as i64;
    }
    if forth {
        to = to + speed as i64;
    }
    to
}

/// `confine` on machine integers.
fn confine_circle(v: i64, size: i16) -> (to: i16)
    requires
        i32::MIN - 10 <= v <= i32::MAX + 10,
    ensures
        to == confine(v as int, size as int),
{
    let low: i64 = if v < 0 {
        0
    } else {
        v
    };
    if low > size as i64 - CHARACTER_RADIUS as i64 {
        size
    } else {
        low as i16
    }
}

/// `confine_box` on machine integers.
fn confine_square(v: i64, size: i32, side: u32) -> (to: i32)
    requires
        i32::MIN - 10 <= v <= i32::MAX + 10,
        i32::MIN <= size - side,
    ensures
        to == confine_box(v as int, size as int, side as int),
{
    let low: i64 = if v < 0 {
        0
    } else {
        v
    };
    let high: i64 = size as i64 - side as i64;
    if low > high {
        high as i32
    } else {
        low as i32
    }
}

impl State {
    /// The shape at the given coordinates.
    pub fn at(x: i32, y: i32) -> (state: State)
        ensures
            state@ == (x as int, y as int),
    {
        State { position: (x, y) }
    }

    /// The horizontal coordinate.
    pub fn x(&self) -> (x: i32)
        ensures
            x == self@.0,
    {
        self.position.0
    }

    /// The vertical coordinate.
    pub fn y(&self) -> (y: i32)
        ensures
            y == self@.1,
    {
        self.position.1
    }

    /// The circle in the middle of a window of the given size.
    pub fn centered(window_width: u32, window_height: u32) -> (state: State)
        ensures
            state@ == (window_width as int / 2, window_height as int / 2),
    {
        State { position: ((window_width / 2) as i32, (window_height / 2) as i32) }
    }

    /// The box in the middle of a window of the given size: its top left
    /// corner is half a box away from the middle.
    pub fn centered_box(window_width: i32, window_height: i32) -> (state: State)
        ensures
            state@ == (
                half(window_width as int) - half(BOX_WIDTH as int),
                half(window_height as int) - half(BOX_HEIGHT as int),
            ),
    {
        State {
            position: (
                window_width / 2 - (BOX_WIDTH / 2) as i32,
                window_height / 2 - (BOX_HEIGHT / 2) as i32,
            ),
        }
    }

    /// The circle to paint for this state, in the given colour. There is
    /// none where a coordinate is no `i16`.
    pub fn circle(&self, color: Color) -> (shown: Option<FilledCircle>)
        ensures
            shown == if fits_i16(self@.0) && fits_i16(self@.1) {
                Some(
                    FilledCircle {
                        x: self@.0 as i16,
                        y: self@.1 as i16,
                        radius: CHARACTER_RADIUS,
                        color,
                    },
                )
            } else {
                None
            },
    {
        match (to_i16(self.position.0), to_i16(self.position.1)) {
            (Some(x), Some(y)) => Some(FilledCircle { x, y, radius: CHARACTER_RADIUS, color }),
            _ => None,
        }
    }

    /// The box to paint for this state: black, with this state as its top
    /// left corner.
    pub fn rect(&self) -> (shown: FilledRect)
        ensures
            shown == (FilledRect {
                x: self@.0 as i32,
                y: self@.1 as i32,
                width: BOX_WIDTH,
                height: BOX_HEIGHT,
                color: Color::Black,
            }),
    {
        FilledRect {
            x: self.position.0,
            y: self.position.1,
            width: BOX_WIDTH,
            height: BOX_HEIGHT,
            color: Color::Black,
        }
    }

    /// One frame of the circle: it moves by the keys that are down, is kept
    /// in the window, and is painted red while `z` is down, else black.
    pub fn step(&mut self, keys: &Keys, meta: &Meta) -> (shown: FilledCircle)
        ensures
            final(self)@ == stepped(old(self)@, *keys, meta@),
            shown == (FilledCircle {
                x: final(self)@.0 as i16,
                y: final(self)@.1 as i16,
                radius: CHARACTER_RADIUS,
                color: if keys.z {
                    Color::Red
                } else {
                    Color::Black
                },
            }),
            fits_i16(final(self)@.0),
            fits_i16(final(self)@.1),
    {
        let speed = keys.speed();
        let x = confine_circle(shift(self.position.0, keys.left, keys.right, speed), meta.width);
        let y = confine_circle(shift(self.position.1, keys.up, keys.down, speed), meta.height);
        self.position = (x as i32, y as i32);
        FilledCircle { x, y, radius: CHARACTER_RADIUS, color: keys.color() }
    }

    /// One frame of the box: it moves by the keys that are down and is kept
    /// in a window of the given size.
    ///
    /// The farthest place of the box on each axis, the window's extent less
    /// the box's, has to be an `i32`.
    pub fn step_box(
        &mut self,
        keys: &Keys,
        window_width: i32,
        window_height: i32,
    ) -> (shown: FilledRect)
        requires
            i32::MIN <= window_width - BOX_WIDTH,
            i32::MIN <= window_height - BOX_HEIGHT,
        ensures
            final(self)@ == stepped_box(
                old(self)@,
                *keys,
                (window_width as int, window_height as int),
            ),
            shown == (FilledRect {
                x: final(self)@.0 as i32,
                y: final(self)@.1 as i32,
                width: BOX_WIDTH,
                height: BOX_HEIGHT,
                color: Color::Black,
            }),
    {
        let speed = keys.speed();
        let x = confine_square(
            shift(self.position.0, keys.left, keys.right, speed),
            window_width,
            BOX_WIDTH,
        );
        let y = confine_square(
            shift(self.position.1, keys.up, keys.down, speed),
            window_height,
            BOX_HEIGHT,
        );
        self.position = (x, y);
        self.rect()
    }
}

} // verus!
