use vstd::prelude::*;
use crate::errors::{AssemblyError, ErrorKind};
use crate::text::{dec_string, dec_text, owned};
use vstd::string::StringExecFns;

verus! {

/// An image as rows of pixels, four bytes (red, green, blue, alpha) each,
/// from the top left corner.
pub struct PixelImage {
    pub width: u32,
    pub height: u32,
    pub rgba: Vec<u8>,
}

impl PixelImage {
    /// The pixel bytes fill the image exactly.
    pub open spec fn wf(&self) -> bool {
        self.rgba@.len() == self.width * self.height * 4
    }
}

/// Converts images to Cicada-16 tile data: 8x8 tiles of 4 bit colour
/// indices, each stored as four bit planes of eight row bytes.
pub struct TileConverter;

/// The region of the image that is converted: the one given, or the whole image.
pub open spec fn region(
    x_pixels: Option<u16>,
    y_pixels: Option<u16>,
    width_pixels: Option<u16>,
    height_pixels: Option<u16>,
    img_width: u32,
    img_height: u32,
) -> (u32, u32, u32, u32) {
    match (x_pixels, y_pixels, width_pixels, height_pixels) {
        (Some(x), Some(y), Some(w), Some(h)) => (x as u32, y as u32, w as u32, h as u32),
        _ => (0, 0, img_width, img_height),
    }
}

/// Why a region cannot be cut into tiles, if it cannot: each coordinate
/// and size must be a multiple of 8, and the region must lie in the image.
pub open spec fn dimension_error(x: u32, y: u32, width: u32, height: u32, img_width: u32, img_height: u32) -> Option<Seq<char>> {
    if x % 8 != 0 {
        Some("X coordinate "@ + dec_text(x as nat) + " must be a multiple of 8"@)
    } else if y % 8 != 0 {
        Some("Y coordinate "@ + dec_text(y as nat) + " must be a multiple of 8"@)
    } else if width % 8 != 0 {
        Some("Width "@ + dec_text(width as nat) + " must be a multiple of 8"@)
    } else if height % 8 != 0 {
        Some("Height "@ + dec_text(height as nat) + " must be a multiple of 8"@)
    } else if x + width > img_width {
        Some("Region exceeds image width (x="@ + dec_text(x as nat) + ", width="@ + dec_text(width as nat)
            + ", image_width="@ + dec_text(img_width as nat) + ")"@)
    } else if y + height > img_height {
        Some("Region exceeds image height (y="@ + dec_text(y as nat) + ", height="@ + dec_text(height as nat)
            + ", image_height="@ + dec_text(img_height as nat) + ")"@)
    } else {
        None
    }
}

/// The 4 bit colour index of a pixel: its grey level, from 0 to 255, in
/// sixteen steps of 17.
pub open spec fn gray_index(r: u8, g: u8, b: u8) -> int {
    ((299 * r + 587 * g + 114 * b) / 1000) / 17
}

/// The colour index of the pixel at column `px` of row `py`.
pub open spec fn pixel_index(rgba: Seq<u8>, width: u32, px: int, py: int) -> int {
    let o = (py * width + px) * 4;
    gray_index(rgba[o], rgba[o + 1], rgba[o + 2])
}

/// Bit `plane` of the colour indices of the first `n` pixels of a tile row
/// that starts at column `px` of row `py`, the leftmost pixel in the
/// highest bit.
pub open spec fn plane_bits(rgba: Seq<u8>, width: u32, px: int, py: int, plane: int, n: int) -> int
    decreases n,
{
    if n <= 0 {
        0
    } else {
        plane_bits(rgba, width, px, py, plane, n - 1) * 2 + (pixel_index(rgba, width, px + n - 1, py) / pow2(plane)) % 2
    }
}

pub open spec fn pow2(plane: int) -> int {
    if plane == 0 {
        1
    } else if plane == 1 {
        2
    } else if plane == 2 {
        4
    } else {
        8
    }
}

/// The 32 bytes of the tile whose top left pixel is at column `px` of row
/// `py`: bit plane 0 of its eight rows, then plane 1, 2 and 3.
pub open spec fn tile_bytes(rgba: Seq<u8>, width: u32, px: int, py: int) -> Seq<u8> {
    Seq::new(32, |k: int| plane_bits(rgba, width, px, py + k % 8, k / 8, 8) as u8)
}

/// The bytes of the first `n` tiles of a region `tiles_wide` tiles wide,
/// row after row of tiles.
pub open spec fn tiles_upto(rgba: Seq<u8>, width: u32, x: int, y: int, tiles_wide: int, n: int) -> Seq<u8>
    decreases n,
{
    if n <= 0 || tiles_wide <= 0 {
        Seq::empty()
    } else {
        tiles_upto(rgba, width, x, y, tiles_wide, n - 1)
            + tile_bytes(rgba, width, x + ((n - 1) % tiles_wide) * 8, y + ((n - 1) / tiles_wide) * 8)
    }
}

/// The tile data of a region that lies in the image.
pub open spec fn region_tiles(img: PixelImage, x: u32, y: u32, width: u32, height: u32) -> Seq<u8> {
    tiles_upto(img.rgba@, img.width, x as int, y as int, (width / 8) as int, (width / 8) * (height / 8))
}

proof fn lemma_tiles_len(rgba: Seq<u8>, width: u32, x: int, y: int, tiles_wide: int, n: int)
    requires
        tiles_wide > 0,
        n >= 0,
    ensures
        tiles_upto(rgba, width, x, y, tiles_wide, n).len() == n * 32,
    decreases n,
{
    if n > 0 {
        lemma_tiles_len(rgba, width, x, y, tiles_wide, n - 1);
    }
}

/// Grey level of a pixel as a 4 bit colour index.
fn rgba_to_4bit_index(r: u8, g: u8, b: u8) -> (index: u8)
    ensures
        index == gray_index(r, g, b),
        index <= 15,
{
    let gray: u32 = (299 * (r as u32) + 587 * (g as u32) + 114 * (b as u32)) / 1000;
    (gray / 17) as u8
}

proof fn lemma_pixel_in_image(width: u32, height: u32, px: int, py: int)
    requires
        0 <= px < width,
        0 <= py < height,
    ensures
        0 <= (py * width + px) * 4,
        (py * width + px) * 4 + 3 < width * height * 4,
{
    assert(py * width + px < width * height) by (nonlinear_arith)
        requires
            0 <= px < width,
            0 <= py < height,
    {
        assert(py * width <= (height - 1) * width);
    }
    assert(0 <= py * width) by (nonlinear_arith)
        requires
            0 <= py,
            0 <= width,
    ;
}

/// One tile row's byte for one bit plane.
fn plane_row_byte(img: &PixelImage, px: u32, py: u32, plane: u8) -> (byte: u8)
    requires
        img.wf(),
        px + 8 <= img.width,
        py < img.height,
        plane < 4,
    ensures
        byte == plane_bits(img.rgba@, img.width, px as int, py as int, plane as int, 8),
{
    let d: u8 = if plane == 0 {
        1
    } else if plane == 1 {
        2
    } else if plane == 2 {
        4
    } else {
        8
    };
    let mut byte: u8 = 0;
    let mut col: u32 = 0;
    let len = img.rgba.len();
    while col < 8
        invariant
            img.wf(),
            len == img.rgba@.len(),
            px + 8 <= img.width,
            py < img.height,
            d as int == pow2(plane as int),
            col <= 8,
            byte == plane_bits(img.rgba@, img.width, px as int, py as int, plane as int, col as int),
            byte < col_cap(col as int),
        decreases 8 - col,
    {
        proof {
            lemma_pixel_in_image(img.width, img.height, (px + col) as int, py as int);
            assert((py as int) * (img.width as int) + (px as int) + (col as int) == (py * img.width + (px + col)) as int);
        }
        let o: u64 = ((py as u64) * (img.width as u64) + (px as u64) + (col as u64)) * 4;
        let at = o as usize;
        let p = rgba_to_4bit_index(img.rgba[at], img.rgba[at + 1], img.rgba[at + 2]);
        let bit: u8 = (p / d) % 2;
        byte = byte * 2 + bit;
        col = col + 1;
    }
    byte
}

/// A bound on a row byte after `col` of its pixels: two to the power `col`.
pub open spec fn col_cap(col: int) -> int {
    if col <= 0 {
        1
    } else if col == 1 {
        2
    } else if col == 2 {
        4
    } else if col == 3 {
        8
    } else if col == 4 {
        16
    } else if col == 5 {
        32
    } else if col == 6 {
        64
    } else if col == 7 {
        128
    } else {
        256
    }
}

/// The 32 bytes of one tile.
fn tile_to_4bpp_planar(img: &PixelImage, px: u32, py: u32) -> (out: Vec<u8>)
    requires
        img.wf(),
        px + 8 <= img.width,
        py + 8 <= img.height,
    ensures
        out@ == tile_bytes(img.rgba@, img.width, px as int, py as int),
{
    let mut out: Vec<u8> = Vec::new();
    let mut k: u32 = 0;
    while k < 32
        invariant
            img.wf(),
            px + 8 <= img.width,
            py + 8 <= img.height,
            k <= 32,
            out@.len() == k,
            forall|j: int| 0 <= j < k ==> out@[j] == tile_bytes(img.rgba@, img.width, px as int, py as int)[j],
        decreases 32 - k,
    {
        let plane = (k / 8) as u8;
        let row = k % 8;
        let byte = plane_row_byte(img, px, py + row, plane);
        out.push(byte);
        k = k + 1;
    }
    assert(out@ =~= tile_bytes(img.rgba@, img.width, px as int, py as int));
    out
}

impl TileConverter {
    /// Checks that a region can be cut into tiles: each coordinate and size
    /// a multiple of 8, and the region inside the image.
    pub fn validate_dimensions(
        x: u32,
        y: u32,
        width: u32,
        height: u32,
        img_width: u32,
        img_height: u32,
        line: usize,
    ) -> (r: Result<(), AssemblyError>)
        ensures
            match dimension_error(x, y, width, height, img_width, img_height) {
                Some(m) => r matches Err(e) && e.is(ErrorKind::ImageDimension, Some(line), m),
                None => r is Ok,
            },
    {
        if x % 8 != 0 {
            return Err(AssemblyError::ImageDimensionError { line, reason: three("X coordinate ", x, " must be a multiple of 8") });
        }
        if y % 8 != 0 {
            return Err(AssemblyError::ImageDimensionError { line, reason: three("Y coordinate ", y, " must be a multiple of 8") });
        }
        if width % 8 != 0 {
            return Err(AssemblyError::ImageDimensionError { line, reason: three("Width ", width, " must be a multiple of 8") });
        }
        if height % 8 != 0 {
            return Err(AssemblyError::ImageDimensionError { line, reason: three("Height ", height, " must be a multiple of 8") });
        }
        if (x as u64) + (width as u64) > img_width as u64 {
            return Err(AssemblyError::ImageDimensionError {
                line,
                reason: bounds_text("Region exceeds image width (x=", x, ", width=", width, ", image_width=", img_width),
            });
        }
        if (y as u64) + (height as u64) > img_height as u64 {
            return Err(AssemblyError::ImageDimensionError {
                line,
                reason: bounds_text("Region exceeds image height (y=", y, ", height=", height, ", image_height=", img_height),
            });
        }
        Ok(())
    }

    /// Converts a region of an image (the whole image unless all four of
    /// `x_pixels`, `y_pixels`, `width_pixels` and `height_pixels` are given)
    /// to 4bpp planar tile data, tile by tile, row after row of tiles.
    pub fn convert_image_to_tiles(
        img: &PixelImage,
        x_pixels: Option<u16>,
        y_pixels: Option<u16>,
        width_pixels: Option<u16>,
        height_pixels: Option<u16>,
        line: usize,
    ) -> (r: Result<Vec<u8>, AssemblyError>)
        requires
            img.wf(),
        ensures
            ({
                let (x, y, w, h) = region(x_pixels, y_pixels, width_pixels, height_pixels, img.width, img.height);
                match dimension_error(x, y, w, h, img.width, img.height) {
                    Some(m) => r matches Err(e) && e.is(ErrorKind::ImageDimension, Some(line), m),
                    None => r matches Ok(v) && v@ == region_tiles(*img, x, y, w, h),
                }
            }),
    {
        let (x, y, width, height) = Self::region_of(img, x_pixels, y_pixels, width_pixels, height_pixels);
        match Self::validate_dimensions(x, y, width, height, img.width, img.height, line) {
            Ok(()) => {},
            Err(e) => {
                return Err(e);
            },
        }
        let tiles_wide = width / 8;
        let tiles_high = height / 8;
        assert((tiles_wide as int) * (tiles_high as int) <= 0xffff_ffff * 0xffff_ffff) by (nonlinear_arith)
            requires
                tiles_wide <= 0xffff_ffff,
                tiles_high <= 0xffff_ffff,
        ;
        let total: u64 = (tiles_wide as u64) * (tiles_high as u64);
        let ghost rgba = img.rgba@;
        let mut output: Vec<u8> = Vec::new();
        let mut n: u64 = 0;
        while n < total
            invariant
                img.wf(),
                rgba == img.rgba@,
                tiles_wide == width / 8,
                tiles_high == height / 8,
                total == tiles_wide * tiles_high,
                x % 8 == 0 && y % 8 == 0 && width % 8 == 0 && height % 8 == 0,
                x + width <= img.width,
                y + height <= img.height,
                n <= total,
                output@ == tiles_upto(rgba, img.width, x as int, y as int, tiles_wide as int, n as int),
            decreases total - n,
        {
            let tx = n % (tiles_wide as u64);
            let ty = n / (tiles_wide as u64);
            proof {
                assert(tiles_wide > 0) by (nonlinear_arith)
                    requires
                        n < total,
                        total == tiles_wide * tiles_high,
                ;
                assert(ty < tiles_high) by (nonlinear_arith)
                    requires
                        n < tiles_wide * tiles_high,
                        ty == n / (tiles_wide as u64),
                        tiles_wide > 0,
                ;
                assert(tx * 8 + 8 <= width) by (nonlinear_arith)
                    requires
                        tx < tiles_wide,
                        tiles_wide == width / 8,
                ;
                assert(ty * 8 + 8 <= height) by (nonlinear_arith)
                    requires
                        ty < tiles_high,
                        tiles_high == height / 8,
                ;
            }
            let px = x + (tx as u32) * 8;
            let py = y + (ty as u32) * 8;
            let mut tile = tile_to_4bpp_planar(img, px, py);
            output.append(&mut tile);
            n = n + 1;
        }
        Ok(output)
    }

    /// The region that is converted, as `(x, y, width, height)`.
    fn region_of(
        img: &PixelImage,
        x_pixels: Option<u16>,
        y_pixels: Option<u16>,
        width_pixels: Option<u16>,
        height_pixels: Option<u16>,
    ) -> (r: (u32, u32, u32, u32))
        ensures
            r == region(x_pixels, y_pixels, width_pixels, height_pixels, img.width, img.height),
    {
        match (x_pixels, y_pixels, width_pixels, height_pixels) {
            (Some(x), Some(y), Some(w), Some(h)) => (x as u32, y as u32, w as u32, h as u32),
            _ => (0, 0, img.width, img.height),
        }
    }

    /// The number of bytes that converting a region gives: 32 per tile.
    pub fn calculate_size(
        img: &PixelImage,
        x_pixels: Option<u16>,
        y_pixels: Option<u16>,
        width_pixels: Option<u16>,
        height_pixels: Option<u16>,
        line: usize,
    ) -> (r: Result<u32, AssemblyError>)
        requires
            ({
                let (x, y, w, h) = region(x_pixels, y_pixels, width_pixels, height_pixels, img.width, img.height);
                (w / 8) * (h / 8) * 32 <= u32::MAX
            }),
        ensures
            ({
                let (x, y, w, h) = region(x_pixels, y_pixels, width_pixels, height_pixels, img.width, img.height);
                match dimension_error(x, y, w, h, img.width, img.height) {
                    Some(m) => r matches Err(e) && e.is(ErrorKind::ImageDimension, Some(line), m),
                    None => r == Ok::<u32, AssemblyError>(((w / 8) * (h / 8) * 32) as u32),
                }
            }),
    {
        let (x, y, width, height) = Self::region_of(img, x_pixels, y_pixels, width_pixels, height_pixels);
        match Self::validate_dimensions(x, y, width, height, img.width, img.height, line) {
            Ok(()) => {},
            Err(e) => {
                return Err(e);
            },
        }
        let tiles_wide = (width / 8) as u64;
        let tiles_high = (height / 8) as u64;
        assert(tiles_wide * tiles_high * 32 <= u32::MAX);
        let num_tiles = tiles_wide * tiles_high;
        Ok((num_tiles * 32) as u32)
    }
}

/// `a`, the decimal digits of `n`, then `b`.
fn three(a: &str, n: u32, b: &str) -> (s: String)
    ensures
        s@ == a@ + dec_text(n as nat) + b@,
{
    let mut s = owned(a);
    let d = dec_string(n as u64);
    s.append(d.as_str());
    s.append(b);
    s
}

/// The message of a region that leaves the image.
fn bounds_text(a: &str, p: u32, b: &str, q: u32, c: &str, m: u32) -> (s: String)
    ensures
        s@ == a@ + dec_text(p as nat) + b@ + dec_text(q as nat) + c@ + dec_text(m as nat) + ")"@,
{
    let mut s = owned(a);
    let d1 = dec_string(p as u64);
    s.append(d1.as_str());
    s.append(b);
    let d2 = dec_string(q as u64);
    s.append(d2.as_str());
    s.append(c);
    let d3 = dec_string(m as u64);
    s.append(d3.as_str());
    s.append(")");
    s
}

/// What `calculate_size` reserves for a region is the length of the tile
/// data that `convert_image_to_tiles` writes for it.
pub proof fn lemma_size_matches_tiles(img: PixelImage, x: u32, y: u32, width: u32, height: u32)
    requires
        dimension_error(x, y, width, height, img.width, img.height) is None,
    ensures
        region_tiles(img, x, y, width, height).len() == (width / 8) * (height / 8) * 32,
{
    if width / 8 > 0 {
        assert((width / 8) * (height / 8) >= 0) by (nonlinear_arith);
        lemma_tiles_len(img.rgba@, img.width, x as int, y as int, (width / 8) as int, (width / 8) * (height / 8));
    } else {
        assert(width / 8 == 0);
        assert((width / 8) * (height / 8) == 0);
        assert(region_tiles(img, x, y, width, height) == Seq::<u8>::empty());
    }
}

/// Bit `plane` of the colour index of the pixel at column `px` of row `py`.
pub open spec fn pixel_bit(rgba: Seq<u8>, width: u32, px: int, py: int, plane: int) -> int {
    (pixel_index(rgba, width, px, py) / pow2(plane)) % 2
}

proof fn lemma_plane_bits_nonneg(rgba: Seq<u8>, width: u32, px: int, py: int, plane: int, n: int)
    requires
        0 <= plane < 4,
    ensures
        plane_bits(rgba, width, px, py, plane, n) >= 0,
    decreases n,
{
    if n > 0 {
        lemma_plane_bits_nonneg(rgba, width, px, py, plane, n - 1);
    }
}

proof fn lemma_plane_bit_at(rgba: Seq<u8>, width: u32, px: int, py: int, plane: int, n: int, col: int)
    requires
        0 <= plane < 4,
        0 <= col < n <= 8,
    ensures
        (plane_bits(rgba, width, px, py, plane, n) / col_cap(n - 1 - col)) % 2 == pixel_bit(rgba, width, px + col, py, plane),
    decreases n,
{
    let p = plane_bits(rgba, width, px, py, plane, n - 1);
    let b = (pixel_index(rgba, width, px + n - 1, py) / pow2(plane)) % 2;
    lemma_plane_bits_nonneg(rgba, width, px, py, plane, n - 1);
    assert(0 <= b < 2);
    assert(plane_bits(rgba, width, px, py, plane, n) == p * 2 + b);
    if col == n - 1 {
        assert((p * 2 + b) % 2 == b) by (nonlinear_arith)
            requires
                0 <= b < 2,
                p >= 0,
        ;
    } else {
        lemma_plane_bit_at(rgba, width, px, py, plane, n - 1, col);
        let k = n - 1 - col;
        let c = col_cap(k - 1);
        assert(col_cap(k) == c * 2 && c > 0);
        assert((p * 2 + b) / 2 == p) by (nonlinear_arith)
            requires
                0 <= b < 2,
                p >= 0,
        ;
        vstd::arithmetic::div_mod::lemma_div_denominator(p * 2 + b, 2, c);
        assert(2 * c == c * 2) by (nonlinear_arith);
    }
}

/// The bit planes of a tile row: bit `7 - col` of the row byte of plane
/// `plane` is bit `plane` of the colour index of the row's pixel `col`.
pub proof fn lemma_row_byte_bits(rgba: Seq<u8>, width: u32, px: int, py: int, plane: int, col: int)
    requires
        0 <= plane < 4,
        0 <= col < 8,
    ensures
        (plane_bits(rgba, width, px, py, plane, 8) / col_cap(7 - col)) % 2 == pixel_bit(rgba, width, px + col, py, plane),
{
    lemma_plane_bit_at(rgba, width, px, py, plane, 8, col);
}

/// The tile slices: bytes `32 * t` to `32 * t + 31` of the tile data are
/// the bytes of tile `t`, counted row after row of tiles.
pub proof fn lemma_tile_slices(rgba: Seq<u8>, width: u32, x: int, y: int, tiles_wide: int, n: int, t: int, j: int)
    requires
        tiles_wide > 0,
        0 <= t < n,
        0 <= j < 32,
    ensures
        tiles_upto(rgba, width, x, y, tiles_wide, n)[32 * t + j]
            == tile_bytes(rgba, width, x + (t % tiles_wide) * 8, y + (t / tiles_wide) * 8)[j],
    decreases n,
{
    lemma_tiles_len(rgba, width, x, y, tiles_wide, n - 1);
    if t < n - 1 {
        lemma_tile_slices(rgba, width, x, y, tiles_wide, n - 1, t, j);
        assert(32 * t + j < 32 * (n - 1)) by (nonlinear_arith)
            requires
                t < n - 1,
                j < 32,
        ;
    } else {
        assert(32 * t + j - 32 * (n - 1) == j);
    }
}

proof fn lemma_plane_bits_bound(rgba: Seq<u8>, width: u32, px: int, py: int, plane: int, n: int)
    requires
        0 <= plane < 4,
        0 <= n <= 8,
    ensures
        0 <= plane_bits(rgba, width, px, py, plane, n) < col_cap(n),
    decreases n,
{
    if n > 0 {
        lemma_plane_bits_bound(rgba, width, px, py, plane, n - 1);
    }
}

/// The 4 bit colour of pixel `col` of row `row` of tile `tile` in 4bpp
/// planar tile data, read back from its four bit planes: plane `p` is bit
/// `p` of the colour, and pixel `col` of a row is bit `7 - col` of the
/// plane's row byte.
pub open spec fn planar_colour(data: Seq<u8>, tile: int, row: int, col: int) -> int {
    (data[32 * tile + row] as int / col_cap(7 - col)) % 2
        + 2 * ((data[32 * tile + 8 + row] as int / col_cap(7 - col)) % 2)
        + 4 * ((data[32 * tile + 16 + row] as int / col_cap(7 - col)) % 2)
        + 8 * ((data[32 * tile + 24 + row] as int / col_cap(7 - col)) % 2)
}

proof fn lemma_tile_plane_byte(img: PixelImage, x: u32, y: u32, width: u32, height: u32, t: int, plane: int, row: int, col: int)
    requires
        width / 8 > 0,
        0 <= t < (width / 8) * (height / 8),
        0 <= plane < 4,
        0 <= row < 8,
        0 <= col < 8,
    ensures
        ({
            let tw = (width / 8) as int;
            (region_tiles(img, x, y, width, height)[32 * t + 8 * plane + row] as int / col_cap(7 - col)) % 2
                == pixel_bit(img.rgba@, img.width, x + (t % tw) * 8 + col, y + (t / tw) * 8 + row, plane)
        }),
{
    let tw = (width / 8) as int;
    let n = (width / 8) * (height / 8);
    let tx = x + (t % tw) * 8;
    let ty = y + (t / tw) * 8;
    let j = 8 * plane + row;
    lemma_tile_slices(img.rgba@, img.width, x as int, y as int, tw, n as int, t, j);
    assert(j % 8 == row && j / 8 == plane);
    lemma_plane_bits_bound(img.rgba@, img.width, tx, ty + row, plane, 8);
    lemma_row_byte_bits(img.rgba@, img.width, tx, ty + row, plane, col);
}

/// The colour index of every pixel of a converted region is its luma,
/// `(299 * red + 587 * green + 114 * blue) / 1000`, divided by 17: reading
/// the four bit planes of the tile data back gives that number for the
/// pixel at row `row`, column `col` of tile `t` (tiles counted row after
/// row of tiles).
pub proof fn lemma_tiles_hold_pixel_luma(img: PixelImage, x: u32, y: u32, width: u32, height: u32, t: int, row: int, col: int)
    requires
        dimension_error(x, y, width, height, img.width, img.height) is None,
        0 <= t < (width / 8) * (height / 8),
        0 <= row < 8,
        0 <= col < 8,
    ensures
        ({
            let tw = (width / 8) as int;
            let o = ((y + (t / tw) * 8 + row) * img.width + x + (t % tw) * 8 + col) * 4;
            planar_colour(region_tiles(img, x, y, width, height), t, row, col)
                == ((299 * img.rgba@[o] + 587 * img.rgba@[o + 1] + 114 * img.rgba@[o + 2]) / 1000) / 17
        }),
{
    let tw = (width / 8) as int;
    assert(tw > 0) by (nonlinear_arith)
        requires
            0 <= t < tw * ((height / 8) as int),
    ;
    let data = region_tiles(img, x, y, width, height);
    let px = x + (t % tw) * 8 + col;
    let py = y + (t / tw) * 8 + row;
    lemma_tile_plane_byte(img, x, y, width, height, t, 0, row, col);
    lemma_tile_plane_byte(img, x, y, width, height, t, 1, row, col);
    lemma_tile_plane_byte(img, x, y, width, height, t, 2, row, col);
    lemma_tile_plane_byte(img, x, y, width, height, t, 3, row, col);
    let o = (py * img.width + px) * 4;
    let r = img.rgba@[o];
    let g = img.rgba@[o + 1];
    let b = img.rgba@[o + 2];
    let lum: int = (299 * r + 587 * g + 114 * b) / 1000;
    assert(0 <= lum <= 255) by (nonlinear_arith)
        requires
            lum == (299 * r + 587 * g + 114 * b) / 1000,
            0 <= r <= 255,
            0 <= g <= 255,
            0 <= b <= 255,
    ;
    let c: u8 = (lum / 17) as u8;
    assert(c == pixel_index(img.rgba@, img.width, px, py));
    assert(c < 16);
    assert((c / 1) % 2 + 2 * ((c / 2) % 2) + 4 * ((c / 4) % 2) + 8 * ((c / 8) % 2) == c) by (bit_vector)
        requires
            c < 16,
    ;
    assert(32 * t + 0 + row == 32 * t + 8 * 0 + row);
}

} // verus!
