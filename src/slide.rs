use vstd::prelude::*;
use crate::error::GtError;
use crate::text::{decimal, to_decimal};

verus! {

/// An RGBA image, row by row, each pixel packed big-endian into a `u32`.
#[derive(Debug)]
pub struct Raster {
    pub width: u32,
    pub height: u32,
    pub pixels: Vec<u32>,
}

impl Raster {
    /// One pixel per position of the grid.
    pub open spec fn wf(&self) -> bool {
        self.pixels@.len() == self.width as nat * self.height as nat
    }

    /// The pixel at column `x`, row `y`.
    pub open spec fn pixel(&self, x: int, y: int) -> u32 {
        self.pixels@[y * self.width + x]
    }
}

/// Columns of tiles per half of the background.
pub const TILE_COLUMNS: u32 = 26;
/// Width of one tile.
pub const TILE_WIDTH: u32 = 10;
/// Height of one tile, and of each half of the background.
pub const TILE_HEIGHT: u32 = 80;
/// Distance between the left edges of two stored tiles.
pub const STORED_PITCH: u32 = 12;
/// Width of the reassembled background.
pub const CANVAS_WIDTH: u32 = 260;
/// Height of the reassembled background.
pub const CANVAS_HEIGHT: u32 = 160;
/// The narrowest scrambled image that holds every stored tile.
pub const MIN_STORED_WIDTH: u32 = 310;

/// For each tile position of the reassembled background, the position at
/// which the vendor stores that tile.
pub open spec fn tile_table() -> Seq<int> {
    seq![
        39, 38, 48, 49, 41, 40, 46, 47, 35, 34, 50, 51, 33, 32, 28, 29, 27, 26, 36, 37, 31, 30,
        44, 45, 43, 42, 12, 13, 23, 22, 14, 15, 21, 20, 8, 9, 25, 24, 6, 7, 3, 2, 0, 1, 11, 10,
        4, 5, 19, 18, 16, 17,
    ]
}

/// For each stored tile position, where that tile goes in the reassembled background.
pub open spec fn inverse_tile_table() -> Seq<int> {
    seq![
        42, 43, 41, 40, 46, 47, 38, 39, 34, 35, 45, 44, 26, 27, 30, 31, 50, 51, 49, 48, 33, 32,
        29, 28, 37, 36, 17, 16, 14, 15, 21, 20, 13, 12, 9, 8, 18, 19, 1, 0, 5, 4, 25, 24, 22, 23,
        6, 7, 2, 3, 10, 11,
    ]
}

/// Left edge of tile position `i` of the reassembled background.
pub open spec fn canvas_x(i: int) -> int {
    (i % 26) * 10
}

/// Top edge of tile position `i` of the reassembled background.
pub open spec fn canvas_y(i: int) -> int {
    if i > 25 { 80 } else { 0 }
}

/// Left edge of stored tile `p` in the scrambled image.
pub open spec fn stored_x(p: int) -> int {
    (p % 26) * 12
}

/// Top edge of stored tile `p` in the scrambled image.
pub open spec fn stored_y(p: int) -> int {
    if p > 25 { 80 } else { 0 }
}

/// The tile position of the reassembled background that holds pixel `(x, y)`.
pub open spec fn canvas_tile(x: int, y: int) -> int {
    (if y >= 80 { 26int } else { 0int }) + x / 10
}

/// Where pixel `(x, y)` of the reassembled background is read from.
pub open spec fn source_x(x: int, y: int) -> int {
    stored_x(tile_table()[canvas_tile(x, y)]) + x % 10
}

pub open spec fn source_y(x: int, y: int) -> int {
    stored_y(tile_table()[canvas_tile(x, y)]) + y % 80
}

/// The reassembled background, pixel by pixel.
pub open spec fn descrambled(src: Raster, out: Raster) -> bool {
    &&& out.width == 260
    &&& out.height == 160
    &&& out.wf()
    &&& forall|x: int, y: int| 0 <= x < 260 && 0 <= y < 160
        ==> #[trigger] out.pixel(x, y) == src.pixel(source_x(x, y), source_y(x, y))
}

/// The stored position of tile position `i`.
fn stored_tile(i: u32) -> (r: u32)
    requires
        i < 52,
    ensures
        r == tile_table()[i as int],
        r < 52,
{
    let table: [u32; 52] = [
        39, 38, 48, 49, 41, 40, 46, 47, 35, 34, 50, 51, 33, 32, 28, 29, 27, 26, 36, 37, 31, 30,
        44, 45, 43, 42, 12, 13, 23, 22, 14, 15, 21, 20, 8, 9, 25, 24, 6, 7, 3, 2, 0, 1, 11, 10,
        4, 5, 19, 18, 16, 17,
    ];
    assert(table@ =~= tile_table().map_values(|v: int| v as u32));
    table[i as usize]
}

/// Undoes the vendor's tile shuffle: builds the 260 by 160 background whose
/// tile `i` (26 to a row, 10 by 80 pixels) is the stored tile `tile_table()[i]`,
/// read from column `12 * (p % 26)` of the scrambled image. An image too small
/// to hold every stored tile, or whose pixels do not fill its grid, is refused.
pub fn descramble(src: &Raster) -> (r: Result<Raster, GtError>)
    ensures
        match r {
            Ok(out) => src.wf() && src.width >= 310 && src.height >= 160 && descrambled(*src, out),
            Err(e) => !(src.wf() && src.width >= 310 && src.height >= 160) && e == GtError::SolverInternal,
        },
{
    if src.width < MIN_STORED_WIDTH || src.height < CANVAS_HEIGHT {
        return Err(GtError::SolverInternal);
    }
    assert(src.width as u64 * src.height as u64 <= u64::MAX) by (nonlinear_arith)
        requires src.width <= u32::MAX, src.height <= u32::MAX;
    if src.pixels.len() as u64 != src.width as u64 * src.height as u64 {
        return Err(GtError::SolverInternal);
    }
    let mut pixels: Vec<u32> = Vec::new();
    let mut y: u32 = 0;
    while y < CANVAS_HEIGHT
        invariant
            src.wf(),
            src.width >= 310,
            src.height >= 160,
            y <= 160,
            pixels@.len() == y as nat * 260,
            forall|k: int| 0 <= k < pixels@.len() ==> #[trigger] pixels@[k]
                == src.pixel(source_x(k % 260, k / 260), source_y(k % 260, k / 260)),
        decreases 160 - y,
    {
        let mut x: u32 = 0;
        while x < CANVAS_WIDTH
            invariant
                src.wf(),
                src.width >= 310,
                src.height >= 160,
                y < 160,
                x <= 260,
                pixels@.len() == y as nat * 260 + x,
                forall|k: int| 0 <= k < pixels@.len() ==> #[trigger] pixels@[k]
                    == src.pixel(source_x(k % 260, k / 260), source_y(k % 260, k / 260)),
            decreases 260 - x,
        {
            let i: u32 = (if y >= TILE_HEIGHT { TILE_COLUMNS } else { 0 }) + x / TILE_WIDTH;
            let p = stored_tile(i);
            let sx: u32 = (p % TILE_COLUMNS) * STORED_PITCH + x % TILE_WIDTH;
            let sy: u32 = (if p > 25 { TILE_HEIGHT } else { 0 }) + y % TILE_HEIGHT;
            assert(sx < 310 && sy < 160);
            let ghost w = src.width as int;
            let ghost h = src.height as int;
            assert(sy as int * w + sx < w * h) by (nonlinear_arith)
                requires sx < 310, sy < 160, 310 <= w, 160 <= h;
            assert(sy as int * w <= sy as int * w + sx) by (nonlinear_arith)
                requires sx >= 0, sy >= 0, w >= 0;
            let total = src.pixels.len();
            assert(total as int == w * h);
            let k = (sy as usize) * (src.width as usize) + sx as usize;
            let v = src.pixels[k];
            proof {
                let n = pixels@.len() as int;
                assert(n == y * 260 + x);
                assert(n % 260 == x as int && n / 260 == y as int) by (nonlinear_arith)
                    requires n == y * 260 + x, 0 <= x < 260, 0 <= y;
            }
            pixels.push(v);
            x = x + 1;
        }
        y = y + 1;
    }
    let out = Raster { width: CANVAS_WIDTH, height: CANVAS_HEIGHT, pixels };
    assert forall|x: int, y: int| 0 <= x < 260 && 0 <= y < 160 implies #[trigger] out.pixel(x, y)
        == src.pixel(source_x(x, y), source_y(x, y)) by {
        let k = y * 260 + x;
        assert(k % 260 == x && k / 260 == y && 0 <= k < 41600) by (nonlinear_arith)
            requires k == y * 260 + x, 0 <= x < 260, 0 <= y < 160;
        assert(out.pixels@[k] == src.pixel(source_x(k % 260, k / 260), source_y(k % 260, k / 260)));
    }
    Ok(out)
}

/// A tile position is one of the 52 positions.
proof fn lemma_tile_index_cases(k: int)
    requires
        0 <= k < 52,
    ensures
        k == 0 || k == 1 || k == 2 || k == 3 || k == 4 || k == 5 || k == 6 || k == 7 || k == 8 || k == 9 || k == 10 || k == 11 || k == 12 || k == 13 || k == 14 || k == 15 || k == 16 || k == 17 || k == 18 || k == 19 || k == 20 || k == 21 || k == 22 || k == 23 || k == 24 || k == 25 || k == 26 || k == 27 || k == 28 || k == 29 || k == 30 || k == 31 || k == 32 || k == 33 || k == 34 || k == 35 || k == 36 || k == 37 || k == 38 || k == 39 || k == 40 || k == 41 || k == 42 || k == 43 || k == 44 || k == 45 || k == 46 || k == 47 || k == 48 || k == 49 || k == 50 || k == 51,
{
}

/// The shuffle moves every tile exactly once: the inverse table undoes it, in
/// both directions, so the reassembled background holds each stored tile once.
pub proof fn lemma_tile_table_is_permutation()
    ensures
        tile_table().len() == 52,
        inverse_tile_table().len() == 52,
        forall|i: int| 0 <= i < 52 ==> 0 <= #[trigger] tile_table()[i] < 52
            && inverse_tile_table()[tile_table()[i]] == i,
        forall|p: int| 0 <= p < 52 ==> 0 <= #[trigger] inverse_tile_table()[p] < 52
            && tile_table()[inverse_tile_table()[p]] == p,
{
    let t = tile_table();
    let u = inverse_tile_table();
    assert(t[0] == 39 && u[39] == 0);
    assert(t[1] == 38 && u[38] == 1);
    assert(t[2] == 48 && u[48] == 2);
    assert(t[3] == 49 && u[49] == 3);
    assert(t[4] == 41 && u[41] == 4);
    assert(t[5] == 40 && u[40] == 5);
    assert(t[6] == 46 && u[46] == 6);
    assert(t[7] == 47 && u[47] == 7);
    assert(t[8] == 35 && u[35] == 8);
    assert(t[9] == 34 && u[34] == 9);
    assert(t[10] == 50 && u[50] == 10);
    assert(t[11] == 51 && u[51] == 11);
    assert(t[12] == 33 && u[33] == 12);
    assert(t[13] == 32 && u[32] == 13);
    assert(t[14] == 28 && u[28] == 14);
    assert(t[15] == 29 && u[29] == 15);
    assert(t[16] == 27 && u[27] == 16);
    assert(t[17] == 26 && u[26] == 17);
    assert(t[18] == 36 && u[36] == 18);
    assert(t[19] == 37 && u[37] == 19);
    assert(t[20] == 31 && u[31] == 20);
    assert(t[21] == 30 && u[30] == 21);
    assert(t[22] == 44 && u[44] == 22);
    assert(t[23] == 45 && u[45] == 23);
    assert(t[24] == 43 && u[43] == 24);
    assert(t[25] == 42 && u[42] == 25);
    assert(t[26] == 12 && u[12] == 26);
    assert(t[27] == 13 && u[13] == 27);
    assert(t[28] == 23 && u[23] == 28);
    assert(t[29] == 22 && u[22] == 29);
    assert(t[30] == 14 && u[14] == 30);
    assert(t[31] == 15 && u[15] == 31);
    assert(t[32] == 21 && u[21] == 32);
    assert(t[33] == 20 && u[20] == 33);
    assert(t[34] == 8 && u[8] == 34);
    assert(t[35] == 9 && u[9] == 35);
    assert(t[36] == 25 && u[25] == 36);
    assert(t[37] == 24 && u[24] == 37);
    assert(t[38] == 6 && u[6] == 38);
    assert(t[39] == 7 && u[7] == 39);
    assert(t[40] == 3 && u[3] == 40);
    assert(t[41] == 2 && u[2] == 41);
    assert(t[42] == 0 && u[0] == 42);
    assert(t[43] == 1 && u[1] == 43);
    assert(t[44] == 11 && u[11] == 44);
    assert(t[45] == 10 && u[10] == 45);
    assert(t[46] == 4 && u[4] == 46);
    assert(t[47] == 5 && u[5] == 47);
    assert(t[48] == 19 && u[19] == 48);
    assert(t[49] == 18 && u[18] == 49);
    assert(t[50] == 16 && u[16] == 50);
    assert(t[51] == 17 && u[17] == 51);
    assert forall|k: int| 0 <= k < 52 implies 0 <= #[trigger] t[k] < 52 && u[t[k]] == k by {
        lemma_tile_index_cases(k);
    }
    assert forall|k: int| 0 <= k < 52 implies 0 <= #[trigger] u[k] < 52 && t[u[k]] == k by {
        lemma_tile_index_cases(k);
    }
}

/// Re-scrambling the reassembled background through the inverse table gives
/// back every stored tile of the source, pixel for pixel.
pub proof fn lemma_descramble_round_trip(src: Raster, out: Raster, p: int, dx: int, dy: int)
    requires
        descrambled(src, out),
        0 <= p < 52,
        0 <= dx < 10,
        0 <= dy < 80,
    ensures
        out.pixel(canvas_x(inverse_tile_table()[p]) + dx, canvas_y(inverse_tile_table()[p]) + dy)
            == src.pixel(stored_x(p) + dx, stored_y(p) + dy),
{
    lemma_tile_table_is_permutation();
    let i = inverse_tile_table()[p];
    let x = canvas_x(i) + dx;
    let y = canvas_y(i) + dy;
    assert(x / 10 == i % 26 && x % 10 == dx) by (nonlinear_arith)
        requires x == (i % 26) * 10 + dx, 0 <= dx < 10, 0 <= i;
    assert(canvas_tile(x, y) == i);
    assert(y % 80 == dy);
    assert(0 <= x < 260 && 0 <= y < 160);
    assert(out.pixel(x, y) == src.pixel(source_x(x, y), source_y(x, y)));
}

/// The 10 by 80 block of stored tile `p`, row by row.
pub open spec fn stored_block(src: Raster, p: int) -> Seq<u32> {
    Seq::new(800, |k: int| src.pixel(stored_x(p) + k % 10, stored_y(p) + k / 10))
}

/// The 10 by 80 block at tile position `i` of the reassembled background, row by row.
pub open spec fn canvas_block(out: Raster, i: int) -> Seq<u32> {
    Seq::new(800, |k: int| out.pixel(canvas_x(i) + k % 10, canvas_y(i) + k / 10))
}

/// Reordering a sequence through a bijection of its indices keeps its multiset.
proof fn lemma_permuted_multiset<A>(a: Seq<A>, s: Seq<A>, sig: Seq<int>, inv: Seq<int>)
    requires
        a.len() == s.len(),
        sig.len() == a.len(),
        inv.len() == a.len(),
        forall|i: int| 0 <= i < a.len() ==> 0 <= #[trigger] sig[i] < a.len() && inv[sig[i]] == i && a[i] == s[sig[i]],
        forall|p: int| 0 <= p < a.len() ==> 0 <= #[trigger] inv[p] < a.len() && sig[inv[p]] == p,
    ensures
        a.to_multiset() == s.to_multiset(),
    decreases a.len(),
{
    let n = a.len() as int;
    if n == 0 {
        assert(a =~= s);
    } else {
        let k = inv[n - 1];
        let a2 = a.remove(k);
        let s2 = s.drop_last();
        let sig2 = Seq::new((n - 1) as nat, |i: int| if i < k { sig[i] } else { sig[i + 1] });
        let inv2 = Seq::new((n - 1) as nat, |p: int| if inv[p] < k { inv[p] } else { inv[p] - 1 });
        assert forall|i: int| 0 <= i < n - 1 implies 0 <= #[trigger] sig2[i] < n - 1 && inv2[sig2[i]] == i
            && a2[i] == s2[sig2[i]] by {
            let j = if i < k { i } else { i + 1 };
            assert(sig2[i] == sig[j]);
            assert(a2[i] == a[j]);
            assert(sig[j] != n - 1);
        }
        assert forall|q: int| 0 <= q < n - 1 implies 0 <= #[trigger] inv2[q] < n - 1 && sig2[inv2[q]] == q by {
            let j = inv[q];
            assert(j != k);
        }
        lemma_permuted_multiset(a2, s2, sig2, inv2);
        assert(a2.insert(k, a[k]) =~= a);
        vstd::seq_lib::to_multiset_insert(a2, k, a[k]);
        assert(s2.push(s[n - 1]) =~= s);
        vstd::seq_lib::to_multiset_build(s2, s[n - 1]);
    }
}

/// The reassembled background is made of the stored tiles, each once: its
/// 52 tile blocks, as a multiset, are the 52 stored blocks of the source.
pub proof fn lemma_descramble_keeps_tiles(src: Raster, out: Raster)
    requires
        descrambled(src, out),
    ensures
        Seq::new(52, |i: int| canvas_block(out, i)).to_multiset()
            == Seq::new(52, |p: int| stored_block(src, p)).to_multiset(),
{
    lemma_tile_table_is_permutation();
    let a = Seq::new(52, |i: int| canvas_block(out, i));
    let s = Seq::new(52, |p: int| stored_block(src, p));
    assert forall|i: int| 0 <= i < 52 implies #[trigger] a[i] == s[tile_table()[i]] by {
        let p = tile_table()[i];
        assert forall|k: int| 0 <= k < 800 implies canvas_block(out, i)[k] == stored_block(src, p)[k] by {
            let dx = k % 10;
            let dy = k / 10;
            let x = canvas_x(i) + dx;
            let y = canvas_y(i) + dy;
            assert(0 <= dx < 10 && 0 <= dy < 80);
            assert(x / 10 == i % 26 && x % 10 == dx) by (nonlinear_arith)
                requires x == (i % 26) * 10 + dx, 0 <= dx < 10, 0 <= i;
            assert(canvas_tile(x, y) == i);
            assert(y % 80 == dy);
            assert(out.pixel(x, y) == src.pixel(source_x(x, y), source_y(x, y)));
        }
        assert(canvas_block(out, i) =~= stored_block(src, p));
    }
    lemma_permuted_multiset(a, s, tile_table(), inverse_tile_table());
}

/// The image that the `image` crate decodes from a file's bytes, as RGBA.
pub uninterp spec fn decoded_image(bytes: Seq<u8>) -> Option<Raster>;

/// Relies on image::load_from_memory, which guesses the format from the bytes
/// and decodes them, and on DynamicImage::to_rgba8, whose buffer holds four
/// bytes for each of its `width * height` pixels.
#[verifier::external_body]
fn decode_image(bytes: &[u8]) -> (r: Option<Raster>)
    ensures
        r == decoded_image(bytes@),
        r matches Some(img) ==> img.wf(),
{
    let img = image::load_from_memory(bytes).ok()?.to_rgba8();
    let (width, height) = img.dimensions();
    Some(Raster { width, height, pixels: img.pixels().map(|p| u32::from_be_bytes(p.0)).collect() })
}

/// The de-scrambled background of a downloaded scrambled image: a file that
/// does not decode, or an image too small for the tile grid, is a solver failure.
pub fn reassemble_background(bytes: &Vec<u8>) -> (r: Result<Raster, GtError>)
    ensures
        match decoded_image(bytes@) {
            None => r == Err::<Raster, GtError>(GtError::SolverInternal),
            Some(img) => match r {
                Ok(out) => img.width >= 310 && img.height >= 160 && descrambled(img, out),
                Err(e) => (img.width < 310 || img.height < 160) && e == GtError::SolverInternal,
            },
        },
{
    match decode_image(bytes.as_slice()) {
        Some(img) => descramble(&img),
        None => Err(GtError::SolverInternal),
    }
}

/// The slide answer key: the detected offset in decimal.
pub fn slide_answer_key(offset: u32) -> (r: String)
    ensures
        r@ == decimal(offset as nat),
{
    to_decimal(offset as u64)
}

} // verus!
