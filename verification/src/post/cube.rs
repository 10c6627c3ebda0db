//! The colour cubes of the grade: 32 levels on each of three axes, four bytes a texel.
use vstd::prelude::*;

verus! {

/// The levels on each axis.
pub const LEVELS: u32 = 32;

/// The width of a strip: one slice of the cube beside the other.
pub const STRIP_WIDTH: u32 = 1024;

/// The bytes of a strip and of a cube: 32 * 32 * 32 texels of four.
pub const CUBE_BYTES: usize = 131072;

/// Why a strip holds no cube.
#[derive(Clone, Copy, Debug, PartialEq, Eq, Structural)]
pub enum StripError {
    /// It is not 1024 by 32.
    WrongSize { width: u32, height: u32 },
    /// It has no base level.
    NoBaseLevel,
    /// Its base level has another number of bytes.
    WrongLength { bytes: usize },
}

/// The byte at channel `c` of the texel at red `r`, green `g` and blue `b` in a cube.
pub open spec fn cube_at(r: int, g: int, b: int, c: int) -> int {
    ((b * 32 + g) * 32 + r) * 4 + c
}

/// The same byte in a strip, whose slices of one blue stand side by side.
pub open spec fn strip_at(r: int, g: int, b: int, c: int) -> int {
    (g * 1024 + b * 32 + r) * 4 + c
}

/// The byte of the strip that lands at byte `d` of the cube.
pub open spec fn strip_source(d: int) -> int {
    let texel = d / 4;
    strip_at(texel % 32, (texel / 32) % 32, texel / 1024, d % 4)
}

/// What a strip becomes: its slices stacked into a cube.
pub open spec fn stacked(strip: Seq<u8>) -> Seq<u8> {
    Seq::new(CUBE_BYTES as nat, |d: int| strip[strip_source(d)])
}

/// What a read of a strip comes to.
pub open spec fn cube_of(width: u32, height: u32, mips: Seq<Vec<u8>>) -> Result<Seq<u8>, StripError> {
    if width != STRIP_WIDTH || height != LEVELS {
        Err(StripError::WrongSize { width, height })
    } else if mips.len() == 0 {
        Err(StripError::NoBaseLevel)
    } else if mips[0]@.len() != CUBE_BYTES {
        Err(StripError::WrongLength { bytes: mips[0]@.len() as usize })
    } else {
        Ok(stacked(mips[0]@))
    }
}

/// Stacks a strip's slices into a cube. The strip has to be 1024 by 32 with a whole base level.
pub fn strip_to_cube(width: u32, height: u32, mips: &Vec<Vec<u8>>) -> (r: Result<Vec<u8>, StripError>)
    ensures
        match r {
            Ok(cube) => cube_of(width, height, mips@) == Ok::<Seq<u8>, StripError>(cube@),
            Err(e) => cube_of(width, height, mips@) == Err::<Seq<u8>, StripError>(e),
        },
{
    if width != STRIP_WIDTH || height != LEVELS {
        return Err(StripError::WrongSize { width, height });
    }
    if mips.len() == 0 {
        return Err(StripError::NoBaseLevel);
    }
    let strip: &Vec<u8> = &mips[0];
    if strip.len() != CUBE_BYTES {
        return Err(StripError::WrongLength { bytes: strip.len() });
    }
    let mut cube: Vec<u8> = Vec::new();
    let mut d: usize = 0;
    while d < CUBE_BYTES
        invariant
            d <= CUBE_BYTES,
            strip@.len() == CUBE_BYTES,
            cube@.len() == d,
            forall|k: int| 0 <= k < d ==> #[trigger] cube@[k] == strip@[strip_source(k)],
        decreases CUBE_BYTES - d,
    {
        let texel: usize = d / 4;
        let r: usize = texel % 32;
        let g: usize = (texel / 32) % 32;
        let b: usize = texel / 1024;
        let source: usize = (g * 1024 + b * 32 + r) * 4 + d % 4;
        assert(source == strip_source(d as int));
        cube.push(strip[source]);
        d += 1;
    }
    assert(cube@ =~= stacked(strip@));
    Ok(cube)
}

/// Every texel of the cube is the texel of the strip at the same red, green and blue.
pub proof fn stacking_keeps_every_colour(strip: Seq<u8>, r: int, g: int, b: int, c: int)
    requires
        strip.len() == CUBE_BYTES,
        0 <= r < 32,
        0 <= g < 32,
        0 <= b < 32,
        0 <= c < 4,
    ensures
        stacked(strip)[cube_at(r, g, b, c)] == strip[strip_at(r, g, b, c)],
{
    let d = cube_at(r, g, b, c);
    assert(0 <= d < 131072);
    assert(d / 4 == (b * 32 + g) * 32 + r);
    assert(d % 4 == c);
    let texel = d / 4;
    assert(texel % 32 == r);
    assert(texel / 32 == b * 32 + g);
    assert((texel / 32) % 32 == g);
    assert(texel / 1024 == b);
}

/// Stacking is undone by stacking again: strip and cube only trade green for blue.
pub proof fn stacking_twice_is_nothing(strip: Seq<u8>)
    requires
        strip.len() == CUBE_BYTES,
    ensures
        stacked(stacked(strip)) == strip,
{
    assert forall|d: int| 0 <= d < CUBE_BYTES implies #[trigger] stacked(stacked(strip))[d]
        == strip[d] by {
        let texel = d / 4;
        let r = texel % 32;
        let g = (texel / 32) % 32;
        let b = texel / 1024;
        let s = strip_source(d);
        assert(s == ((g * 32 + b) * 32 + r) * 4 + d % 4);
        assert(0 <= s < 131072);
        let other = s / 4;
        assert(other == (g * 32 + b) * 32 + r);
        assert(other % 32 == r);
        assert((other / 32) % 32 == b);
        assert(other / 1024 == g);
        assert(s % 4 == d % 4);
        assert(strip_source(s) == (b * 1024 + g * 32 + r) * 4 + d % 4);
        assert(strip_source(s) == d);
    }
    assert(stacked(stacked(strip)) =~= strip);
}

/// The byte of a level: 32 levels spread over 0 to 255, rounded.
pub open spec fn level_byte(level: int) -> int {
    (level * 255 + 15) / 31
}

/// The byte at `d` of the cube that changes no colour.
pub open spec fn identity_byte(d: int) -> int {
    let texel = d / 4;
    if d % 4 == 0 {
        level_byte(texel % 32)
    } else if d % 4 == 1 {
        level_byte((texel / 32) % 32)
    } else if d % 4 == 2 {
        level_byte(texel / 1024)
    } else {
        255
    }
}

/// The cube that changes no colour.
pub fn identity_cube() -> (r: Vec<u8>)
    ensures
        r@.len() == CUBE_BYTES,
        forall|d: int| 0 <= d < CUBE_BYTES ==> #[trigger] r@[d] == identity_byte(d),
{
    let mut cube: Vec<u8> = Vec::new();
    let mut d: u32 = 0;
    while d < 131072
        invariant
            d <= 131072,
            cube@.len() == d,
            forall|k: int| 0 <= k < d ==> #[trigger] cube@[k] == identity_byte(k),
        decreases 131072 - d,
    {
        let texel: u32 = d / 4;
        let channel: u32 = d % 4;
        let level: u32 = if channel == 0 {
            texel % 32
        } else if channel == 1 {
            (texel / 32) % 32
        } else {
            texel / 1024
        };
        let byte: u8 = if channel == 3 {
            255
        } else {
            ((level * 255 + 15) / 31) as u8
        };
        assert(byte == identity_byte(d as int));
        cube.push(byte);
        d += 1;
    }
    cube
}

/// The levels start at 0, end at 255, and each is above the one before.
pub proof fn levels_span_the_range(level: int)
    requires
        0 <= level < 31,
    ensures
        level_byte(0) == 0,
        level_byte(31) == 255,
        level_byte(level) < level_byte(level + 1),
{
}

} // verus!
