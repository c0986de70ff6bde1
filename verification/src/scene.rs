//! The scene: a grid of square sprites, and over it columns of polygons that
//! fade in, move one place to the right and grow a side.
//!
//! Everything here is in whole numbers: places in pixels, times in seconds.

use vstd::prelude::*;

verus! {

/// A colour: alpha, red, green and blue.
#[derive(Clone, Copy, Debug, PartialEq, Eq, Structural)]
pub struct Color {
    pub a: u8,
    pub r: u8,
    pub g: u8,
    pub b: u8,
}

/// The distance of everything from the left and the upper edge of the window.
pub const ROOT_MARGIN: u32 = 24;

/// The number of sprites in a row of the grid, and of rows.
pub const GRID_SIDE: u32 = 5;

/// The width and the height of a sprite.
pub const SPRITE_SIZE: u32 = 100;

/// The distance from one sprite of the grid to the next.
pub const SPRITE_PITCH: u32 = 150;

/// The number of columns of shapes: one for each kind of polygon.
pub const SHAPE_COLUMNS: u8 = 7;

/// The number of shapes in a column.
pub const SHAPE_ROWS: u8 = 12;

/// The number of sides of the polygons of the first column.
pub const FEWEST_SIDES: u32 = 3;

/// The distance from one shape to the next, to the right and down.
pub const SHAPE_PITCH: u32 = 64;

/// The distance of the first column from the left edge, once the shapes have
/// moved.
pub const SHAPE_MARGIN: u32 = 10;

/// The factor by which a shape of the unit circle is drawn larger.
pub const SHAPE_SCALE: u32 = 50;

/// The seconds that a turn of a shape takes, and that a polygon takes to
/// grow a side.
pub const TURN_SECONDS: u64 = 2;

/// The seconds that a shape takes to move to its place.
pub const MOVE_SECONDS: u64 = 1;

/// The seconds after which the polygons of the first column grow a side.
pub const FIRST_MORPH_SECONDS: u64 = 11;

/// The number of steps in which a shape takes on its colour.
pub const COLOR_STEPS: i32 = 1;

/// The width and the height of the visual that holds the shapes.
pub const SHAPES_SIZE: u32 = 1000;

/// A sprite of the grid.
#[derive(Clone, Copy, Debug, PartialEq, Eq)]
pub struct SpritePlan {
    pub color: Color,
    /// Width and height.
    pub size: (u32, u32),
    /// The place of the top left corner: to the right and down.
    pub offset: (u32, u32),
}

/// A shape: a polygon that fades in, moves to the right and grows a side.
#[derive(Clone, Copy, Debug, PartialEq, Eq)]
pub struct ShapePlan {
    /// The number of sides that the polygon starts with.
    pub sides: u32,
    /// Where the shape stands at first: to the right and down. The first
    /// column starts left of the edge.
    pub start: (i32, u32),
    /// Where the shape stands after it has moved.
    pub end: (u32, u32),
    /// The colour of the shape once it is seen.
    pub color: Color,
    /// The colour that the shape starts with: `color` with no alpha, so that
    /// the shape is not seen.
    pub hidden_color: Color,
    /// The seconds that the change from `hidden_color` to `color` takes.
    pub fade_seconds: u64,
    /// The seconds after which the polygon begins to grow a side.
    pub morph_delay_seconds: u64,
}

/// The colour of every sprite of the grid.
pub open spec fn sprite_color() -> Color {
    Color { a: 0xD5, r: 0xDC, g: 0x58, b: 0x9B }
}

/// The sprite in column `x` and row `y` of the grid.
pub open spec fn sprite_at(x: int, y: int) -> SpritePlan {
    SpritePlan {
        color: sprite_color(),
        size: (SPRITE_SIZE, SPRITE_SIZE),
        offset: ((SPRITE_PITCH * x) as u32, (SPRITE_PITCH * y) as u32),
    }
}

/// The colour of the shape in column `x` and row `y`: more red to the right,
/// more green downwards, less blue and more alpha with the product of the
/// two.
pub open spec fn color_at(x: int, y: int) -> Color {
    Color {
        a: (64 + (x * y * 3) / 4) as u8,
        r: (x * 16) as u8,
        g: (y * 16) as u8,
        b: (255 - x * y) as u8,
    }
}

/// The shape in column `x` and row `y`.
pub open spec fn shape_at(x: int, y: int) -> ShapePlan {
    ShapePlan {
        sides: (x + FEWEST_SIDES) as u32,
        start: (((x - 1) * SHAPE_PITCH + SHAPE_MARGIN) as i32, (y * SHAPE_PITCH) as u32),
        end: ((x * SHAPE_PITCH + SHAPE_MARGIN) as u32, (y * SHAPE_PITCH) as u32),
        color: color_at(x, y),
        hidden_color: Color { a: 0, ..color_at(x, y) },
        fade_seconds: (2 * (FIRST_MORPH_SECONDS + x)) as u64,
        morph_delay_seconds: (FIRST_MORPH_SECONDS + x) as u64,
    }
}

/// The sprite in column `x` and row `y` of the grid.
pub fn grid_sprite(x: u32, y: u32) -> (sprite: SpritePlan)
    requires
        x < GRID_SIDE,
        y < GRID_SIDE,
    ensures
        sprite == sprite_at(x as int, y as int),
{
    SpritePlan {
        color: Color { a: 0xD5, r: 0xDC, g: 0x58, b: 0x9B },
        size: (SPRITE_SIZE, SPRITE_SIZE),
        offset: (SPRITE_PITCH * x, SPRITE_PITCH * y),
    }
}

/// The colour of the shape in column `x` and row `y`.
pub fn get_color(x: u8, y: u8) -> (color: Color)
    requires
        x * y * 3 <= u8::MAX,
        x * 16 <= u8::MAX,
        y * 16 <= u8::MAX,
    ensures
        color == color_at(x as int, y as int),
{
    assert(0 <= x * y) by (nonlinear_arith);
    Color { a: 64 + x * y * 3 / 4, r: x * 16, g: y * 16, b: 255 - (x * y) }
}

/// The shape in column `x` and row `y`.
pub fn shape_plan(x: u8, y: u8) -> (shape: ShapePlan)
    requires
        x < SHAPE_COLUMNS,
        y < SHAPE_ROWS,
    ensures
        shape == shape_at(x as int, y as int),
{
    assert(x * y <= 66) by (nonlinear_arith)
        requires
            x <= 6,
            y <= 11,
    ;
    let mut color = get_color(x, y);
    let down: u32 = y as u32 * SHAPE_PITCH;
    let start: (i32, u32) = ((x as i32 - 1) * 64 + 10, down);
    let end: (u32, u32) = (x as u32 * SHAPE_PITCH + SHAPE_MARGIN, down);
    let fade_seconds: u8 = 2 * (10 + x + 1);
    let morph_delay_seconds: u8 = 10 + x + 1;
    let alpha = color.a;
    color.a = 0;
    let hidden_color = color;
    color.a = alpha;
    ShapePlan {
        sides: (x + 3) as u32,
        start,
        end,
        color,
        hidden_color,
        fade_seconds: fade_seconds as u64,
        morph_delay_seconds: morph_delay_seconds as u64,
    }
}

/// A shape moves one place to the right and stays in its row, inside the
/// visual that holds the shapes; its colour changes for twice as long as its
/// polygon waits, so the polygon has grown its side before the colour is
/// there; and the colour it ends in has an alpha of 64 at least.
pub proof fn lemma_shape_moves_and_shows(x: int, y: int)
    requires
        0 <= x < SHAPE_COLUMNS,
        0 <= y < SHAPE_ROWS,
    ensures
        shape_at(x, y).end.0 == shape_at(x, y).start.0 + SHAPE_PITCH,
        shape_at(x, y).end.1 == shape_at(x, y).start.1,
        shape_at(x, y).fade_seconds == 2 * shape_at(x, y).morph_delay_seconds,
        shape_at(x, y).morph_delay_seconds + TURN_SECONDS <= shape_at(x, y).fade_seconds,
        shape_at(x, y).color.a >= 64,
        shape_at(x, y).hidden_color.a == 0,
        shape_at(x, y).end.0 + SHAPE_SCALE <= SHAPES_SIZE,
        shape_at(x, y).end.1 + SHAPE_SCALE <= SHAPES_SIZE,
{
    assert(0 <= x * y <= 66) by (nonlinear_arith)
        requires
            0 <= x <= 6,
            0 <= y <= 11,
    ;
}

/// The shapes of a column have the same polygon and the same delays, and
/// the shapes of a row stand at the same height.
pub proof fn lemma_columns_and_rows(x: int, y: int, other: int)
    requires
        0 <= x < SHAPE_COLUMNS,
        0 <= y < SHAPE_ROWS,
    ensures
        0 <= other < SHAPE_ROWS ==> shape_at(x, other).sides == shape_at(x, y).sides && shape_at(
            x,
            other,
        ).morph_delay_seconds == shape_at(x, y).morph_delay_seconds && shape_at(x, other).end.0
            == shape_at(x, y).end.0,
        0 <= other < SHAPE_COLUMNS ==> shape_at(other, y).end.1 == shape_at(x, y).end.1,
{
}

} // verus!
