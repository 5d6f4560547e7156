//! Packing a coloured square field into the raw bytes of a video frame.
//!
//! The field comes as one RGBA colour per cell, row after row. The frame is
//! an RGB image in which the pixel at column `x` and row `y` shows the cell
//! in row `x` and column `y` of the field: the picture is the field
//! transposed, three bytes per pixel, row after row.

use vstd::prelude::*;

verus! {

/// Channel `c` of the cell in row `x` and column `y` of a field of the given
/// side.
pub open spec fn cell_channel(side: int, colors: Seq<[u8; 4]>, x: int, y: int, c: int) -> u8 {
    colors[x * side + y][c]
}

/// Where channel `c` of the pixel at column `x` and row `y` lies in a frame.
pub open spec fn byte_offset(side: int, x: int, y: int, c: int) -> int {
    3 * (y * side + x) + c
}

/// The frame of a field: byte `k` belongs to pixel `k / 3`, which lies at
/// column `(k / 3) % side` and row `(k / 3) / side`.
pub open spec fn spec_frame(side: nat, colors: Seq<[u8; 4]>) -> Seq<u8> {
    Seq::new(
        3 * side * side,
        |k: int|
            cell_channel(
                side as int,
                colors,
                (k / 3) % (side as int),
                (k / 3) / (side as int),
                k % 3,
            ),
    )
}

/// A field of `len` colours is a square of the given side, and its frame is
/// no larger than a vector can be.
pub open spec fn frame_fits(side: int, len: int) -> bool {
    side * side == len && 3 * side * side <= isize::MAX
}

/// In the frame, the three bytes of the pixel at column `x` and row `y` are
/// the red, green and blue of the cell in row `x` and column `y`.
pub proof fn lemma_frame_layout(side: nat, colors: Seq<[u8; 4]>, x: int, y: int, c: int)
    requires
        0 <= x < side,
        0 <= y < side,
        0 <= c < 3,
    ensures
        0 <= byte_offset(side as int, x, y, c) < spec_frame(side, colors).len(),
        spec_frame(side, colors)[byte_offset(side as int, x, y, c)] == cell_channel(
            side as int,
            colors,
            x,
            y,
            c,
        ),
{
    let s = side as int;
    let p = y * s + x;
    assert(0 <= p < s * s && p / s == y && p % s == x) by (nonlinear_arith)
        requires
            0 <= x < s,
            0 <= y < s,
            p == y * s + x,
    ;
    let k = byte_offset(s, x, y, c);
    assert(k / 3 == p && k % 3 == c);
    assert(3 * side * side == 3 * (s * s)) by (nonlinear_arith)
        requires
            s == side,
    ;
}

/// Every byte of a frame is a channel of one pixel.
pub proof fn lemma_offset_of_byte(side: nat, k: int)
    requires
        0 <= k < 3 * side * side,
    ensures
        0 <= (k / 3) % (side as int) < side,
        0 <= (k / 3) / (side as int) < side,
        byte_offset(side as int, (k / 3) % (side as int), (k / 3) / (side as int), k % 3) == k,
{
    let s = side as int;
    let p = k / 3;
    assert(3 * side * side == 3 * (s * s)) by (nonlinear_arith)
        requires
            s == side,
    ;
    assert(0 <= p < s * s);
    assert(s > 0) by (nonlinear_arith)
        requires
            0 <= s,
            0 < s * s,
    ;
    assert(0 <= p % s < s && 0 <= p / s < s && (p / s) * s + p % s == p) by (nonlinear_arith)
        requires
            0 <= p < s * s,
            s > 0,
    ;
}

/// The red, green and blue of the cell in row `x` and column `y`.
fn cell_rgb(colors: &Vec<[u8; 4]>, side: u32, x: u32, y: u32) -> (rgb: [u8; 3])
    requires
        colors@.len() == side * side,
        x < side,
        y < side,
    ensures
        forall|c: int|
            0 <= c < 3 ==> #[trigger] rgb[c] == cell_channel(
                side as int,
                colors@,
                x as int,
                y as int,
                c,
            ),
{
    assert(0 <= x * side + y < side * side) by (nonlinear_arith)
        requires
            0 <= x < side,
            0 <= y < side,
    ;
    assert(0 <= x * side <= x * side + y) by (nonlinear_arith)
        requires
            0 <= x,
            0 <= side,
            0 <= y,
    ;
    let len: usize = colors.len();
    assert(x * side + y < len);
    let at: usize = (x as usize) * (side as usize) + (y as usize);
    let cell: [u8; 4] = colors[at];
    [cell[0], cell[1], cell[2]]
}

/// Calls `image::ImageBuffer::from_fn` for an RGB image of `side` by `side`
/// pixels and takes its bytes with `into_raw`. `from_fn` asks the closure for
/// the pixel of every `(x, y)` and stores pixels row after row, three bytes
/// each; it panics only where the buffer would be larger than a vector can
/// be. The closure hands it `cell_rgb` of the same `(x, y)`.
#[verifier::external_body]
fn rgb_bytes(side: u32, colors: &Vec<[u8; 4]>) -> (bytes: Vec<u8>)
    requires
        frame_fits(side as int, colors@.len() as int),
    ensures
        bytes@.len() == 3 * side * side,
        forall|x: int, y: int, c: int|
            0 <= x < side && 0 <= y < side && 0 <= c < 3 ==> bytes@[#[trigger] byte_offset(
                side as int,
                x,
                y,
                c,
            )] == cell_channel(side as int, colors@, x, y, c),
{
    image::ImageBuffer::<image::Rgb<u8>, Vec<u8>>::from_fn(
        side,
        side,
        |x, y| image::Rgb(cell_rgb(colors, side, x, y)),
    ).into_raw()
}

/// Whether a field of `len` colours with the given side can be made a frame.
pub fn fits(side: usize, len: usize) -> (ok: bool)
    ensures
        ok == frame_fits(side as int, len as int),
{
    if side > 0xffff_ffff {
        assert(3 * side * side > isize::MAX) by (nonlinear_arith)
            requires
                side >= 0x1_0000_0000,
                isize::MAX <= 0x7fff_ffff_ffff_ffff,
        ;
        return false;
    }
    assert(side * side <= 0xffff_fffe_0000_0001) by (nonlinear_arith)
        requires
            0 <= side <= 0xffff_ffff,
    ;
    let wide: u64 = side as u64;
    let cells: u64 = wide * wide;
    let most: u64 = (isize::MAX as u64) / 3;
    assert(3 * side * side == 3 * (side * side)) by (nonlinear_arith);
    cells == len as u64 && cells <= most
}

/// The raw RGB frame of a square field of colours, or nothing where the
/// colours do not make a square of the given side or the frame would be
/// larger than a vector can be.
pub fn image_from_array(side: usize, colors: &Vec<[u8; 4]>) -> (out: Option<Vec<u8>>)
    ensures
        out is Some <==> frame_fits(side as int, colors@.len() as int),
        out matches Some(bytes) ==> bytes@ == spec_frame(side as nat, colors@),
{
    if !fits(side, colors.len()) {
        return None;
    }
    assert(side <= u32::MAX) by (nonlinear_arith)
        requires
            3 * side * side <= isize::MAX,
            isize::MAX <= 0x7fff_ffff_ffff_ffff,
            0 <= side,
    ;
    let bytes = rgb_bytes(side as u32, colors);
    proof {
        let want = spec_frame(side as nat, colors@);
        assert(3 * (side as nat) * (side as nat) == 3 * side * side);
        assert forall|k: int| 0 <= k < want.len() implies bytes@[k] == want[k] by {
            lemma_offset_of_byte(side as nat, k);
            let s = side as int;
            assert(bytes@[byte_offset(s, (k / 3) % s, (k / 3) / s, k % 3)] == cell_channel(
                s,
                colors@,
                (k / 3) % s,
                (k / 3) / s,
                k % 3,
            ));
        }
        assert(bytes@ =~= want);
    }
    Some(bytes)
}

} // verus!
