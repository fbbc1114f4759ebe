//! Region-of-interest change detection.
//!
//! The screen is cut into square tiles. Each tile is summarised by a hash
//! (the wrapping sum of its pixels read as 32-bit words), and a tile counts
//! as changed when its hash differs from the one seen in the previous frame.
//! The changed tiles are reported as the single rectangle that bounds them.

use vstd::arithmetic::div_mod::lemma_add_mod_noop;
use vstd::arithmetic::mul::lemma_mul_inequality;
use vstd::arithmetic::mul::lemma_mul_upper_bound;
use vstd::prelude::*;

verus! {

/// Calls `u32::from_ne_bytes`: the four bytes read in the machine's byte
/// order, which is either little-endian or big-endian.
#[verifier::external_body]
fn u32_from_ne_bytes(b: [u8; 4]) -> (r: u32)
    ensures
        r == little_endian_word(b@, 0) || r == big_endian_word(b@, 0),
{
    u32::from_ne_bytes(b)
}

/// The 32-bit word stored little-endian at `b[i..i + 4]`.
pub open spec fn little_endian_word(b: Seq<u8>, i: int) -> int {
    b[i] + b[i + 1] * 256 + b[i + 2] * 65536 + b[i + 3] * 16777216
}

/// The 32-bit word stored big-endian at `b[i..i + 4]`.
pub open spec fn big_endian_word(b: Seq<u8>, i: int) -> int {
    b[i + 3] + b[i + 2] * 256 + b[i + 1] * 65536 + b[i] * 16777216
}

/// The pixel stored at `b[i..i + 4]`, read in the given byte order.
pub open spec fn pixel_value(b: Seq<u8>, i: int, little: bool) -> int {
    if little {
        little_endian_word(b, i)
    } else {
        big_endian_word(b, i)
    }
}

/// Sum of the first `n` pixels of `b`.
pub open spec fn pixel_sum(b: Seq<u8>, n: nat, little: bool) -> int
    decreases n,
{
    if n == 0 {
        0
    } else {
        pixel_sum(b, (n - 1) as nat, little) + pixel_value(b, 4 * (n - 1), little)
    }
}

/// The hash of a tile: the sum, modulo 2^64, of its whole 4-byte pixels. A
/// trailing group of fewer than 4 bytes is ignored.
pub open spec fn tile_hash(b: Seq<u8>, little: bool) -> u64 {
    (pixel_sum(b, b.len() / 4, little) % 0x1_0000_0000_0000_0000) as u64
}

/// Reads the pixel at `b[i..i + 4]` in the given byte order.
fn read_pixel(b: &[u8], i: usize, little: bool) -> (p: u32)
    requires
        i + 4 <= b@.len(),
    ensures
        p as int == pixel_value(b@, i as int, little),
{
    let b0 = b[i] as u32;
    let b1 = b[i + 1] as u32;
    let b2 = b[i + 2] as u32;
    let b3 = b[i + 3] as u32;
    if little {
        b0 + b1 * 256 + b2 * 65536 + b3 * 16777216
    } else {
        b3 + b2 * 256 + b1 * 65536 + b0 * 16777216
    }
}

/// Whether this machine reads multi-byte words little-endian, found by
/// reading the bytes `[1, 0, 0, 0]` in native order: only a little-endian
/// reading gives 1.
fn machine_is_little_endian() -> (little: bool) {
    let probe = u32_from_ne_bytes([1u8, 0, 0, 0]);
    probe == 1
}

/// Adding to a running sum kept modulo 2^64 by a wrapping addition keeps it
/// equal to the true sum modulo 2^64.
proof fn lemma_wrapping_sum_step(acc: u64, total: int, p: u64)
    requires
        acc as int == total % 0x1_0000_0000_0000_0000,
    ensures
        vstd::wrapping::u64_specs::wrapping_add(acc, p) as int == (total + p) % 0x1_0000_0000_0000_0000,
{
    let m = 0x1_0000_0000_0000_0000int;
    lemma_add_mod_noop(total, p as int, m);
    assert((p as int) % m == p as int);
    assert((acc as int) % m == acc as int);
}

/// Hashes a tile whose pixels are read in the given byte order.
pub fn hash_tile_bytes(tile: &[u8], little: bool) -> (h: u64)
    ensures
        h == tile_hash(tile@, little),
{
    let len = tile.len();
    let n = len / 4;
    let mut hash: u64 = 0;
    let mut k: usize = 0;
    while k < n
        invariant
            len == tile@.len(),
            n == len / 4,
            k <= n,
            hash as int == pixel_sum(tile@, k as nat, little) % 0x1_0000_0000_0000_0000,
        decreases n - k,
    {
        assert(4 * k + 4 <= len);
        let p = read_pixel(tile, 4 * k, little);
        let ghost before = hash;
        hash = hash.wrapping_add(p as u64);
        proof {
            let total = pixel_sum(tile@, k as nat, little);
            assert(pixel_sum(tile@, (k + 1) as nat, little) == total + p);
            lemma_wrapping_sum_step(before, total, p as u64);
        }
        k = k + 1;
    }
    hash
}

impl RoiDetector {
    /// Hashes a tile, reading its pixels in the machine's byte order.
    pub fn compute_tile_hash(tile: &[u8]) -> (h: u64)
        ensures
            h == tile_hash(tile@, true) || h == tile_hash(tile@, false),
    {
        let little = machine_is_little_endian();
        hash_tile_bytes(tile, little)
    }
}

/// Number of tiles of side `ts` needed to cover `extent` pixels.
pub open spec fn tile_count(extent: int, ts: int) -> int {
    (extent + ts - 1) / ts
}

/// The bytes of `rows` rows of a tile whose top-left pixel is `(x0, y0)`
/// and which is `tw` pixels wide, in a frame `width` pixels wide stored row
/// after row at 4 bytes per pixel.
pub open spec fn tile_rows(frame: Seq<u8>, width: int, x0: int, y0: int, tw: int, rows: nat) -> Seq<
    u8,
>
    decreases rows,
{
    if rows == 0 {
        Seq::empty()
    } else {
        let start = ((y0 + rows - 1) * width + x0) * 4;
        tile_rows(frame, width, x0, y0, tw, (rows - 1) as nat) + frame.subrange(start, start + tw * 4)
    }
}

pub open spec fn min_int(a: int, b: int) -> int {
    if a <= b {
        a
    } else {
        b
    }
}

/// The bytes of the tile in column `col` and row `row` of a `width` x
/// `height` frame cut into tiles of side `ts`; tiles on the right and bottom
/// edges are cut off at the frame's border.
pub open spec fn tile_content(frame: Seq<u8>, width: int, height: int, ts: int, col: int, row: int) -> Seq<u8> {
    let x0 = col * ts;
    let y0 = row * ts;
    let x1 = min_int(x0 + ts, width);
    let y1 = min_int(y0 + ts, height);
    tile_rows(frame, width, x0, y0, x1 - x0, (y1 - y0) as nat)
}

/// The hash of the tile in column `col` and row `row` of a grid with
/// `columns` columns stored row after row.
pub open spec fn at_tile(hashes: Seq<u64>, columns: int, row: int, col: int) -> u64 {
    hashes[row * columns + col]
}

/// The tiles of row `row` among its first `cols` whose hash in `new`
/// differs from the one in `old`, as `(column, row)` pairs in column order.
pub open spec fn changed_in_row(old: Seq<u64>, new: Seq<u64>, columns: int, row: int, cols: nat) -> Seq<(u32, u32)>
    decreases cols,
{
    if cols == 0 {
        Seq::empty()
    } else {
        let col = cols - 1;
        let before = changed_in_row(old, new, columns, row, (cols - 1) as nat);
        if at_tile(old, columns, row, col) != at_tile(new, columns, row, col) {
            before.push((col as u32, row as u32))
        } else {
            before
        }
    }
}

/// The tiles of the first `rows` rows whose hash in `new` differs from the
/// one in `old`, in row-major order.
pub open spec fn changed_tiles(old: Seq<u64>, new: Seq<u64>, columns: int, rows: nat) -> Seq<(u32, u32)>
    decreases rows,
{
    if rows == 0 {
        Seq::empty()
    } else {
        changed_tiles(old, new, columns, (rows - 1) as nat) + changed_in_row(
            old,
            new,
            columns,
            rows - 1,
            columns as nat,
        )
    }
}

/// Smallest column among `tiles` (`u32::MAX` when there is none).
pub open spec fn min_col(tiles: Seq<(u32, u32)>) -> u32
    decreases tiles.len(),
{
    if tiles.len() == 0 {
        u32::MAX
    } else {
        let m = min_col(tiles.drop_last());
        if tiles.last().0 < m {
            tiles.last().0
        } else {
            m
        }
    }
}

/// Smallest row among `tiles` (`u32::MAX` when there is none).
pub open spec fn min_row(tiles: Seq<(u32, u32)>) -> u32
    decreases tiles.len(),
{
    if tiles.len() == 0 {
        u32::MAX
    } else {
        let m = min_row(tiles.drop_last());
        if tiles.last().1 < m {
            tiles.last().1
        } else {
            m
        }
    }
}

/// Largest column among `tiles` (0 when there is none).
pub open spec fn max_col(tiles: Seq<(u32, u32)>) -> u32
    decreases tiles.len(),
{
    if tiles.len() == 0 {
        0
    } else {
        let m = max_col(tiles.drop_last());
        if tiles.last().0 > m {
            tiles.last().0
        } else {
            m
        }
    }
}

/// Largest row among `tiles` (0 when there is none).
pub open spec fn max_row(tiles: Seq<(u32, u32)>) -> u32
    decreases tiles.len(),
{
    if tiles.len() == 0 {
        0
    } else {
        let m = max_row(tiles.drop_last());
        if tiles.last().1 > m {
            tiles.last().1
        } else {
            m
        }
    }
}

/// The regions reported for a set of changed tiles of side `ts`: nothing
/// when no tile changed, otherwise the one rectangle that bounds them all.
pub open spec fn bounding_region(tiles: Seq<(u32, u32)>, ts: int) -> Seq<TileRegion> {
    if tiles.len() == 0 {
        Seq::empty()
    } else {
        seq![
            TileRegion {
                x: (min_col(tiles) * ts) as u32,
                y: (min_row(tiles) * ts) as u32,
                width: ((max_col(tiles) - min_col(tiles) + 1) * ts) as u32,
                height: ((max_row(tiles) - min_row(tiles) + 1) * ts) as u32,
            },
        ]
    }
}

/// The bounding box of a non-empty set of tiles is spanned by tiles of it,
/// and every tile lies inside it.
pub proof fn lemma_bounds_of_tiles(tiles: Seq<(u32, u32)>)
    ensures
        forall|i: int|
            0 <= i < tiles.len() ==> {
                &&& min_col(tiles) <= #[trigger] tiles[i].0 <= max_col(tiles)
                &&& min_row(tiles) <= tiles[i].1 <= max_row(tiles)
            },
        tiles.len() > 0 ==> exists|i: int| 0 <= i < tiles.len() && #[trigger] tiles[i].0 == max_col(tiles),
        tiles.len() > 0 ==> exists|i: int| 0 <= i < tiles.len() && #[trigger] tiles[i].1 == max_row(tiles),
    decreases tiles.len(),
{
    if tiles.len() > 0 {
        let rest = tiles.drop_last();
        lemma_bounds_of_tiles(rest);
        assert forall|i: int| 0 <= i < tiles.len() implies {
            &&& min_col(tiles) <= #[trigger] tiles[i].0 <= max_col(tiles)
            &&& min_row(tiles) <= tiles[i].1 <= max_row(tiles)
        } by {
            if i < rest.len() {
                assert(rest[i] == tiles[i]);
            }
        }
        let last = tiles.len() - 1;
        assert(tiles[last] == tiles.last());
        if tiles.last().0 > max_col(rest) || rest.len() == 0 {
            assert(tiles[last].0 == max_col(tiles));
        } else {
            let j = choose|j: int| 0 <= j < rest.len() && #[trigger] rest[j].0 == max_col(rest);
            assert(tiles[j] == rest[j]);
            assert(tiles[j].0 == max_col(tiles));
        }
        if tiles.last().1 > max_row(rest) || rest.len() == 0 {
            assert(tiles[last].1 == max_row(tiles));
        } else {
            let k = choose|k: int| 0 <= k < rest.len() && #[trigger] rest[k].1 == max_row(rest);
            assert(tiles[k] == rest[k]);
            assert(tiles[k].1 == max_row(tiles));
        }
        assert(tiles[tiles.len() - 1] == tiles.last());
    }
}

/// `row * columns + col` stays below `rows * columns` inside the grid.
pub proof fn lemma_grid_index(row: int, col: int, rows: int, columns: int)
    requires
        0 <= row < rows,
        0 <= col < columns,
    ensures
        0 <= row * columns + col < rows * columns,
        (row + 1) * columns <= rows * columns,
        row * columns + columns == (row + 1) * columns,
{
    lemma_mul_inequality(row + 1, rows, columns);
    assert(row * columns + columns == (row + 1) * columns) by (nonlinear_arith);
    assert(0 <= row * columns) by (nonlinear_arith)
        requires
            0 <= row,
            0 <= columns,
    ;
}

/// The changes found in a row only read the hashes of that row.
pub proof fn lemma_changed_in_row_reads_row(
    old: Seq<u64>,
    a: Seq<u64>,
    b: Seq<u64>,
    columns: int,
    row: int,
    cols: nat,
)
    requires
        forall|c: int| 0 <= c < cols ==> #[trigger] at_tile(a, columns, row, c) == at_tile(b, columns, row, c),
    ensures
        changed_in_row(old, a, columns, row, cols) == changed_in_row(old, b, columns, row, cols),
    decreases cols,
{
    if cols > 0 {
        lemma_changed_in_row_reads_row(old, a, b, columns, row, (cols - 1) as nat);
        let c = cols - 1;
        assert(at_tile(a, columns, row, c) == at_tile(b, columns, row, c));
    }
}

/// The changes found in the first `rows` rows only read the hashes of those
/// rows.
pub proof fn lemma_changed_tiles_reads_rows(
    old: Seq<u64>,
    a: Seq<u64>,
    b: Seq<u64>,
    columns: int,
    rows: nat,
)
    requires
        columns >= 0,
        forall|i: int| 0 <= i < rows * columns ==> a[i] == b[i],
    ensures
        changed_tiles(old, a, columns, rows) == changed_tiles(old, b, columns, rows),
    decreases rows,
{
    if rows > 0 {
        let row = rows - 1;
        assert(row * columns <= rows * columns) by {
            lemma_mul_inequality(row, rows as int, columns);
        }
        lemma_changed_tiles_reads_rows(old, a, b, columns, (rows - 1) as nat);
        assert forall|c: int| 0 <= c < columns implies #[trigger] at_tile(a, columns, row, c) == at_tile(b, columns, row, c) by {
            lemma_grid_index(row, c, rows as int, columns);
        }
        lemma_changed_in_row_reads_row(old, a, b, columns, row, columns as nat);
    }
}

/// Every tile reported by `changed_in_row` lies in that row, before `cols`.
pub proof fn lemma_changed_in_row_bounded(old: Seq<u64>, new: Seq<u64>, columns: int, row: int, cols: nat)
    requires
        0 <= row <= u32::MAX,
        cols <= u32::MAX + 1,
    ensures
        forall|i: int|
            0 <= i < changed_in_row(old, new, columns, row, cols).len() ==> {
                &&& (#[trigger] changed_in_row(old, new, columns, row, cols)[i]).0 < cols
                &&& changed_in_row(old, new, columns, row, cols)[i].1 == row
            },
    decreases cols,
{
    if cols > 0 {
        lemma_changed_in_row_bounded(old, new, columns, row, (cols - 1) as nat);
        let before = changed_in_row(old, new, columns, row, (cols - 1) as nat);
        let all = changed_in_row(old, new, columns, row, cols);
        assert forall|i: int| 0 <= i < all.len() implies {
            &&& (#[trigger] all[i]).0 < cols
            &&& all[i].1 == row
        } by {
            if i < before.len() {
                assert(all[i] == before[i]);
            }
        }
    }
}

/// Every tile reported by `changed_tiles` lies in the grid.
pub proof fn lemma_changed_tiles_bounded(old: Seq<u64>, new: Seq<u64>, columns: int, rows: nat)
    requires
        0 <= columns <= u32::MAX,
        rows <= u32::MAX + 1,
    ensures
        forall|i: int|
            0 <= i < changed_tiles(old, new, columns, rows).len() ==> {
                &&& (#[trigger] changed_tiles(old, new, columns, rows)[i]).0 < columns
                &&& changed_tiles(old, new, columns, rows)[i].1 < rows
            },
    decreases rows,
{
    if rows > 0 {
        lemma_changed_tiles_bounded(old, new, columns, (rows - 1) as nat);
        lemma_changed_in_row_bounded(old, new, columns, rows - 1, columns as nat);
        let prefix = changed_tiles(old, new, columns, (rows - 1) as nat);
        let last = changed_in_row(old, new, columns, rows - 1, columns as nat);
        assert forall|i: int| 0 <= i < (prefix + last).len() implies {
            &&& (#[trigger] (prefix + last)[i]).0 < columns
            &&& (prefix + last)[i].1 < rows
        } by {
            if i < prefix.len() {
                assert((prefix + last)[i] == prefix[i]);
            } else {
                assert((prefix + last)[i] == last[i - prefix.len()]);
            }
        }
    }
}

/// When two hash grids agree on every tile, no tile is reported as changed.
pub proof fn lemma_equal_grids_change_nothing(old: Seq<u64>, new: Seq<u64>, columns: int, rows: nat)
    requires
        columns >= 0,
        forall|row: int, col: int|
            0 <= row < rows && 0 <= col < columns ==> #[trigger] at_tile(old, columns, row, col) == at_tile(
                new,
                columns,
                row,
                col,
            ),
    ensures
        changed_tiles(old, new, columns, rows) == Seq::<(u32, u32)>::empty(),
    decreases rows,
{
    if rows > 0 {
        lemma_equal_grids_change_nothing(old, new, columns, (rows - 1) as nat);
        lemma_row_without_change(old, new, columns, rows - 1, columns as nat);
        assert(changed_tiles(old, new, columns, rows) =~= Seq::<(u32, u32)>::empty());
    }
}

proof fn lemma_row_without_change(old: Seq<u64>, new: Seq<u64>, columns: int, row: int, cols: nat)
    requires
        cols <= columns,
        forall|col: int| 0 <= col < cols ==> #[trigger] at_tile(old, columns, row, col) == at_tile(new, columns, row, col),
    ensures
        changed_in_row(old, new, columns, row, cols) == Seq::<(u32, u32)>::empty(),
    decreases cols,
{
    if cols > 0 {
        lemma_row_without_change(old, new, columns, row, (cols - 1) as nat);
        assert(at_tile(old, columns, row, cols - 1) == at_tile(new, columns, row, cols - 1));
    }
}

/// Law: detecting changes twice in the same frame reports nothing the second
/// time. Both calls store, for every tile, the hash of the same tile content
/// read in the detector's byte order, so the second call compares every
/// tile with an equal hash.
pub proof fn law_same_frame_reports_nothing(
    first: Seq<u64>,
    second: Seq<u64>,
    frame: Seq<u8>,
    width: int,
    height: int,
    tile_size: int,
    columns: int,
    rows: nat,
    little: bool,
)
    requires
        columns >= 0,
        forall|row: int, col: int|
            0 <= row < rows && 0 <= col < columns ==> at_tile(first, columns, row, col) == tile_hash(
                #[trigger] tile_content(frame, width, height, tile_size, col, row),
                little,
            ),
        forall|row: int, col: int|
            0 <= row < rows && 0 <= col < columns ==> at_tile(second, columns, row, col) == tile_hash(
                #[trigger] tile_content(frame, width, height, tile_size, col, row),
                little,
            ),
    ensures
        bounding_region(changed_tiles(first, second, columns, rows), tile_size) == Seq::<TileRegion>::empty(),
{
    assert forall|row: int, col: int|
        0 <= row < rows && 0 <= col < columns implies #[trigger] at_tile(first, columns, row, col) == at_tile(
            second,
            columns,
            row,
            col,
        ) by {
        assert(tile_content(frame, width, height, tile_size, col, row) == tile_content(
            frame,
            width,
            height,
            tile_size,
            col,
            row,
        ));
    }
    lemma_equal_grids_change_nothing(first, second, columns, rows);
}

proof fn lemma_changed_in_row_lists(old: Seq<u64>, new: Seq<u64>, columns: int, row: int, cols: nat, col: int)
    requires
        0 <= col < cols,
        0 <= row <= u32::MAX,
        cols <= u32::MAX + 1,
        at_tile(old, columns, row, col) != at_tile(new, columns, row, col),
    ensures
        changed_in_row(old, new, columns, row, cols).contains((col as u32, row as u32)),
    decreases cols,
{
    let before = changed_in_row(old, new, columns, row, (cols - 1) as nat);
    let all = changed_in_row(old, new, columns, row, cols);
    if col < cols - 1 {
        lemma_changed_in_row_lists(old, new, columns, row, (cols - 1) as nat, col);
        let i = choose|i: int| 0 <= i < before.len() && before[i] == (col as u32, row as u32);
        assert(all[i] == before[i]);
    } else {
        assert(all[all.len() - 1] == (col as u32, row as u32));
    }
}

/// A tile whose hash differs between the two grids is among the changed
/// tiles.
pub proof fn lemma_changed_tile_listed(old: Seq<u64>, new: Seq<u64>, columns: int, rows: nat, row: int, col: int)
    requires
        0 <= row < rows,
        0 <= col < columns,
        columns <= u32::MAX,
        rows <= u32::MAX + 1,
        at_tile(old, columns, row, col) != at_tile(new, columns, row, col),
    ensures
        changed_tiles(old, new, columns, rows).contains((col as u32, row as u32)),
    decreases rows,
{
    let prefix = changed_tiles(old, new, columns, (rows - 1) as nat);
    let last = changed_in_row(old, new, columns, rows - 1, columns as nat);
    if row < rows - 1 {
        lemma_changed_tile_listed(old, new, columns, (rows - 1) as nat, row, col);
        let i = choose|i: int| 0 <= i < prefix.len() && prefix[i] == (col as u32, row as u32);
        assert((prefix + last)[i] == prefix[i]);
    } else {
        lemma_changed_in_row_lists(old, new, columns, row, columns as nat, col);
        let i = choose|i: int| 0 <= i < last.len() && last[i] == (col as u32, row as u32);
        assert((prefix + last)[prefix.len() + i] == last[i]);
    }
}

/// Law: every tile whose hash changed lies inside the reported region. When
/// at least one tile of the grid changed, exactly one region is reported,
/// and the pixel square of each changed tile lies within it.
pub proof fn law_changed_tiles_are_covered(
    old: Seq<u64>,
    new: Seq<u64>,
    columns: int,
    rows: nat,
    tile_size: int,
    row: int,
    col: int,
)
    requires
        0 <= row < rows,
        0 <= col < columns,
        tile_size > 0,
        columns * tile_size <= u32::MAX,
        rows * tile_size <= u32::MAX,
        at_tile(old, columns, row, col) != at_tile(new, columns, row, col),
    ensures
        ({
            let region = bounding_region(changed_tiles(old, new, columns, rows), tile_size);
            &&& region.len() == 1
            &&& region[0].x <= col * tile_size
            &&& col * tile_size + tile_size <= region[0].x + region[0].width
            &&& region[0].y <= row * tile_size
            &&& row * tile_size + tile_size <= region[0].y + region[0].height
        }),
{
    assert(columns <= columns * tile_size) by (nonlinear_arith)
        requires
            columns >= 0,
            tile_size >= 1,
    ;
    assert(rows <= rows * tile_size) by (nonlinear_arith)
        requires
            tile_size >= 1,
    ;
    lemma_changed_tile_listed(old, new, columns, rows, row, col);
    let ch = changed_tiles(old, new, columns, rows);
    lemma_changed_tiles_bounded(old, new, columns, rows);
    lemma_bounds_of_tiles(ch);
    let i = choose|i: int| 0 <= i < ch.len() && ch[i] == (col as u32, row as u32);
    let mnx = min_col(ch) as int;
    let mxx = max_col(ch) as int;
    let mny = min_row(ch) as int;
    let mxy = max_row(ch) as int;
    assert(mnx <= col <= mxx && mny <= row <= mxy);
    let j = choose|j: int| 0 <= j < ch.len() && #[trigger] ch[j].0 == max_col(ch);
    let k = choose|k: int| 0 <= k < ch.len() && #[trigger] ch[k].1 == max_row(ch);
    assert(mxx < columns && mxy < rows);
    lemma_mul_inequality(mxx + 1, columns, tile_size);
    lemma_mul_inequality(mxy + 1, rows as int, tile_size);
    lemma_mul_inequality(mnx, col, tile_size);
    lemma_mul_inequality(mny, row, tile_size);
    lemma_mul_inequality(col + 1, mxx + 1, tile_size);
    lemma_mul_inequality(row + 1, mxy + 1, tile_size);
    lemma_mul_inequality(mnx, mxx + 1, tile_size);
    lemma_mul_inequality(mny, mxy + 1, tile_size);
    lemma_mul_inequality(mxx - mnx + 1, mxx + 1, tile_size);
    lemma_mul_inequality(mxy - mny + 1, mxy + 1, tile_size);
    assert((col + 1) * tile_size == col * tile_size + tile_size) by (nonlinear_arith);
    assert((row + 1) * tile_size == row * tile_size + tile_size) by (nonlinear_arith);
    assert(mnx * tile_size + (mxx - mnx + 1) * tile_size == (mxx + 1) * tile_size) by (nonlinear_arith);
    assert(mny * tile_size + (mxy - mny + 1) * tile_size == (mxy + 1) * tile_size) by (nonlinear_arith);
}

/// A rectangle of the screen, in pixels.
#[derive(Debug, Clone, PartialEq, Eq, Structural)]
pub struct TileRegion {
    pub x: u32,
    pub y: u32,
    pub width: u32,
    pub height: u32,
}

/// Tile-hash change detector for a screen of fixed size.
pub struct RoiDetector {
    tile_size: u32,
    tiles_x: u32,
    tiles_y: u32,
    prev_hashes: Vec<u64>,
    little_endian: bool,
}

/// Copies a tile out of a frame, row after row.
fn extract_tile(frame: &[u8], width: u32, height: u32, x0: u32, y0: u32, tw: u32, th: u32) -> (t: Vec<u8>)
    requires
        width * height * 4 <= u32::MAX,
        width * height * 4 <= frame@.len(),
        x0 + tw <= width,
        y0 + th <= height,
    ensures
        t@ == tile_rows(frame@, width as int, x0 as int, y0 as int, tw as int, th as nat),
{
    proof {
        lemma_mul_upper_bound(tw as int, width as int, th as int, height as int);
    }
    let mut tile_data: Vec<u8> = Vec::with_capacity((tw * th * 4) as usize);
    assert(tile_data@ =~= tile_rows(frame@, width as int, x0 as int, y0 as int, tw as int, 0));
    let mut row: u32 = 0;
    while row < th
        invariant
            width * height * 4 <= u32::MAX,
            width * height * 4 <= frame@.len(),
            x0 + tw <= width,
            y0 + th <= height,
            row <= th,
            tile_data@ == tile_rows(frame@, width as int, x0 as int, y0 as int, tw as int, row as nat),
        decreases th - row,
    {
        proof {
            let r = (y0 + row) as int;
            lemma_mul_inequality(r + 1, height as int, width as int);
            assert((r + 1) * width == r * width + width) by (nonlinear_arith);
            assert(height * width == width * height) by (nonlinear_arith);
        }
        let row_start = ((y0 + row) * width + x0) as usize * 4;
        let row_end = row_start + (tw * 4) as usize;
        let ghost before = tile_data@;
        tile_data.extend_from_slice(&frame[row_start..row_end]);
        proof {
            let next = tile_rows(frame@, width as int, x0 as int, y0 as int, tw as int, (row + 1) as nat);
            let piece = frame@.subrange(row_start as int, row_end as int);
            assert(next == before + piece);
            assert forall|i: int| 0 <= i < tile_data@.len() implies tile_data@[i] == (before + piece)[i] by {
                if i >= before.len() {
                    assert(piece[i - before.len()] == tile_data@[i]);
                }
            }
            assert(tile_data@ =~= next);
        }
        row = row + 1;
    }
    tile_data
}

impl RoiDetector {
    /// The detector's internal consistency: a positive tile side and one
    /// stored hash per tile.
    pub closed spec fn wf(self) -> bool {
        &&& self.tile_size > 0
        &&& self.tiles_x * self.tiles_y <= u32::MAX
        &&& self.prev_hashes@.len() == self.tiles_x * self.tiles_y
    }

    /// Side of a tile in pixels.
    pub closed spec fn tile_side(self) -> u32 {
        self.tile_size
    }

    /// Number of tile columns.
    pub closed spec fn columns(self) -> u32 {
        self.tiles_x
    }

    /// Number of tile rows.
    pub closed spec fn rows(self) -> u32 {
        self.tiles_y
    }

    /// The hash of every tile in the last frame, row after row.
    pub closed spec fn hashes(self) -> Seq<u64> {
        self.prev_hashes@
    }

    /// The byte order in which this detector reads pixels: the machine's.
    pub closed spec fn little_endian(self) -> bool {
        self.little_endian
    }

    /// A detector for a `width` x `height` screen cut into tiles of side
    /// `tile_size`, whose previous frame hashes to 0 everywhere.
    pub fn new(width: u32, height: u32, tile_size: u32) -> (d: Self)
        requires
            tile_size > 0,
            width + tile_size <= u32::MAX,
            height + tile_size <= u32::MAX,
            tile_count(width as int, tile_size as int) * tile_count(height as int, tile_size as int)
                <= u32::MAX,
        ensures
            d.wf(),
            d.tile_side() == tile_size,
            d.columns() == tile_count(width as int, tile_size as int),
            d.rows() == tile_count(height as int, tile_size as int),
            d.hashes().len() == d.columns() * d.rows(),
            forall|i: int| 0 <= i < d.hashes().len() ==> #[trigger] d.hashes()[i] == 0,
    {
        let tiles_x = (width + tile_size - 1) / tile_size;
        let tiles_y = (height + tile_size - 1) / tile_size;
        let little_endian = machine_is_little_endian();
        RoiDetector {
            tile_size,
            tiles_x,
            tiles_y,
            prev_hashes: vec![0; (tiles_x * tiles_y) as usize],
            little_endian,
        }
    }

    /// Side of a tile in pixels.
    pub fn tile_size(&self) -> (t: u32)
        ensures
            t == self.tile_side(),
    {
        self.tile_size
    }

    /// Number of tile columns.
    pub fn tiles_x(&self) -> (n: u32)
        ensures
            n == self.columns(),
    {
        self.tiles_x
    }

    /// Number of tile rows.
    pub fn tiles_y(&self) -> (n: u32)
        ensures
            n == self.rows(),
    {
        self.tiles_y
    }

    /// Compares every tile of `frame` with the previous frame and returns
    /// the rectangle that bounds the tiles whose hash changed (nothing when
    /// none did). Each tile's new hash replaces the stored one. A frame
    /// shorter than `width * height * 4` bytes is ignored.
    pub fn detect_changes(&mut self, frame: &[u8], width: u32, height: u32) -> (r: Vec<TileRegion>)
        requires
            old(self).wf(),
            width * height * 4 <= u32::MAX,
            frame@.len() >= width * height * 4 && old(self).columns() > 0 && old(self).rows() > 0
                ==> {
                &&& (old(self).columns() - 1) * old(self).tile_side() <= width
                &&& (old(self).rows() - 1) * old(self).tile_side() <= height
                &&& old(self).columns() * old(self).tile_side() <= u32::MAX
                &&& old(self).rows() * old(self).tile_side() <= u32::MAX
            },
        ensures
            final(self).wf(),
            final(self).tile_side() == old(self).tile_side(),
            final(self).columns() == old(self).columns(),
            final(self).rows() == old(self).rows(),
            final(self).little_endian() == old(self).little_endian(),
            final(self).hashes().len() == old(self).hashes().len(),
            frame@.len() < width * height * 4 ==> {
                &&& r@ == Seq::<TileRegion>::empty()
                &&& final(self).hashes() == old(self).hashes()
            },
            frame@.len() >= width * height * 4 ==> {
                &&& forall|row: int, col: int|
                    0 <= row < old(self).rows() && 0 <= col < old(self).columns() ==> at_tile(
                        final(self).hashes(),
                        old(self).columns() as int,
                        row,
                        col,
                    ) == tile_hash(
                        #[trigger] tile_content(
                            frame@,
                            width as int,
                            height as int,
                            old(self).tile_side() as int,
                            col,
                            row,
                        ),
                        old(self).little_endian(),
                    )
                &&& r@ == bounding_region(
                    changed_tiles(
                        old(self).hashes(),
                        final(self).hashes(),
                        old(self).columns() as int,
                        old(self).rows() as nat,
                    ),
                    old(self).tile_side() as int,
                )
            },
    {
        let frame_size = (width * height * 4) as usize;
        if frame.len() < frame_size {
            return Vec::new();
        }
        let ghost old_hashes = self.prev_hashes@;
        let tiles_x = self.tiles_x;
        let tiles_y = self.tiles_y;
        let tile_size = self.tile_size;
        let little = self.little_endian;
        let ghost ts = tile_size as int;
        let ghost cols = tiles_x as int;
        let mut changed_tiles_v: Vec<(u32, u32)> = Vec::new();
        let mut tile_y: u32 = 0;
        while tile_y < tiles_y
            invariant
                tiles_x == self.tiles_x,
                tiles_y == self.tiles_y,
                tile_size == self.tile_size,
                little == self.little_endian,
                ts == tile_size,
                cols == tiles_x,
                tile_size > 0,
                tiles_x * tiles_y <= u32::MAX,
                width * height * 4 <= u32::MAX,
                width * height * 4 <= frame@.len(),
                tiles_x > 0 && tiles_y > 0 ==> {
                    &&& (tiles_x - 1) * tile_size <= width
                    &&& (tiles_y - 1) * tile_size <= height
                    &&& tiles_x * tile_size <= u32::MAX
                    &&& tiles_y * tile_size <= u32::MAX
                },
                tile_y <= tiles_y,
                self.prev_hashes@.len() == tiles_x * tiles_y,
                old_hashes.len() == tiles_x * tiles_y,
                forall|row: int, col: int|
                    0 <= row < tile_y && 0 <= col < tiles_x ==> at_tile(self.prev_hashes@, cols, row, col)
                        == tile_hash(
                        #[trigger] tile_content(frame@, width as int, height as int, ts, col, row),
                        little,
                    ),
                forall|i: int| tile_y * tiles_x <= i < old_hashes.len() ==> self.prev_hashes@[i] == old_hashes[i],
                changed_tiles_v@ == changed_tiles(old_hashes, self.prev_hashes@, cols, tile_y as nat),
            decreases tiles_y - tile_y,
        {
            let ghost row_start_hashes = self.prev_hashes@;
            let mut tile_x: u32 = 0;
            while tile_x < tiles_x
                invariant
                    tiles_x == self.tiles_x,
                    tiles_y == self.tiles_y,
                    tile_size == self.tile_size,
                    little == self.little_endian,
                    ts == tile_size,
                    cols == tiles_x,
                    tile_size > 0,
                    tiles_x * tiles_y <= u32::MAX,
                    width * height * 4 <= u32::MAX,
                    width * height * 4 <= frame@.len(),
                    tiles_x > 0 ==> {
                        &&& (tiles_x - 1) * tile_size <= width
                        &&& (tiles_y - 1) * tile_size <= height
                        &&& tiles_x * tile_size <= u32::MAX
                        &&& tiles_y * tile_size <= u32::MAX
                    },
                    tile_y < tiles_y,
                    tile_x <= tiles_x,
                    self.prev_hashes@.len() == tiles_x * tiles_y,
                    old_hashes.len() == tiles_x * tiles_y,
                    forall|i: int| 0 <= i < tile_y * tiles_x ==> self.prev_hashes@[i] == row_start_hashes[i],
                    forall|row: int, col: int|
                        0 <= row < tile_y && 0 <= col < tiles_x ==> at_tile(row_start_hashes, cols, row, col)
                            == tile_hash(
                            #[trigger] tile_content(frame@, width as int, height as int, ts, col, row),
                            little,
                        ),
                    forall|col: int|
                        0 <= col < tile_x ==> at_tile(self.prev_hashes@, cols, tile_y as int, col) == tile_hash(
                            #[trigger] tile_content(frame@, width as int, height as int, ts, col, tile_y as int),
                            little,
                        ),
                    forall|i: int|
                        tile_y * tiles_x + tile_x <= i < old_hashes.len() ==> self.prev_hashes@[i] == old_hashes[i],
                    changed_tiles_v@ == changed_tiles(old_hashes, row_start_hashes, cols, tile_y as nat)
                        + changed_in_row(old_hashes, self.prev_hashes@, cols, tile_y as int, tile_x as nat),
                decreases tiles_x - tile_x,
            {
                proof {
                    lemma_mul_inequality(tile_x as int, (tiles_x - 1) as int, ts);
                    lemma_mul_inequality(tile_y as int, (tiles_y - 1) as int, ts);
                    lemma_mul_inequality(tile_x as int + 1, tiles_x as int, ts);
                    lemma_mul_inequality(tile_y as int + 1, tiles_y as int, ts);
                    assert((tile_x + 1) * ts == tile_x * ts + ts) by (nonlinear_arith);
                    assert((tile_y + 1) * ts == tile_y * ts + ts) by (nonlinear_arith);
                    lemma_grid_index(tile_y as int, tile_x as int, tiles_y as int, cols);
                    assert(tiles_y * tiles_x == tiles_x * tiles_y) by (nonlinear_arith);
                }
                let tile_x_start = tile_x * tile_size;
                let tile_y_start = tile_y * tile_size;
                let tile_x_end = if tile_x_start + tile_size < width {
                    tile_x_start + tile_size
                } else {
                    width
                };
                let tile_y_end = if tile_y_start + tile_size < height {
                    tile_y_start + tile_size
                } else {
                    height
                };
                let tile_width = tile_x_end - tile_x_start;
                let tile_height = tile_y_end - tile_y_start;
                let tile_data = extract_tile(
                    frame,
                    width,
                    height,
                    tile_x_start,
                    tile_y_start,
                    tile_width,
                    tile_height,
                );
                let current_hash = hash_tile_bytes(tile_data.as_slice(), little);
                assert(current_hash == tile_hash(
                    tile_content(frame@, width as int, height as int, ts, tile_x as int, tile_y as int),
                    little,
                ));
                let tile_idx = (tile_y * tiles_x + tile_x) as usize;
                let ghost before = self.prev_hashes@;
                if self.prev_hashes[tile_idx] != current_hash {
                    changed_tiles_v.push((tile_x, tile_y));
                }
                self.prev_hashes.set(tile_idx, current_hash);
                proof {
                    let after = self.prev_hashes@;
                    assert(before[tile_idx as int] == old_hashes[tile_idx as int]);
                    assert(at_tile(old_hashes, cols, tile_y as int, tile_x as int) == before[tile_idx as int]);
                    assert(at_tile(after, cols, tile_y as int, tile_x as int) == current_hash);
                    assert forall|c: int| 0 <= c < tile_x implies #[trigger] at_tile(
                        before,
                        cols,
                        tile_y as int,
                        c,
                    ) == at_tile(after, cols, tile_y as int, c) by {
                        lemma_grid_index(tile_y as int, c, tiles_y as int, cols);
                    }
                    lemma_changed_in_row_reads_row(
                        old_hashes,
                        before,
                        after,
                        cols,
                        tile_y as int,
                        tile_x as nat,
                    );
                    assert forall|col: int| 0 <= col < tile_x + 1 implies at_tile(
                        after,
                        cols,
                        tile_y as int,
                        col,
                    ) == tile_hash(
                        #[trigger] tile_content(frame@, width as int, height as int, ts, col, tile_y as int),
                        little,
                    ) by {
                        lemma_grid_index(tile_y as int, col, tiles_y as int, cols);
                        if col < tile_x {
                            assert(at_tile(before, cols, tile_y as int, col) == at_tile(
                                after,
                                cols,
                                tile_y as int,
                                col,
                            ));
                        }
                    }
                }
                tile_x = tile_x + 1;
            }
            proof {
                let now = self.prev_hashes@;
                lemma_mul_inequality(tile_y as int, tile_y as int + 1, cols);
                lemma_mul_inequality(tile_y as int + 1, tiles_y as int, cols);
                assert((tile_y + 1) * cols == tile_y * cols + cols) by (nonlinear_arith);
                assert(tiles_y * tiles_x == tiles_x * tiles_y) by (nonlinear_arith);
                assert(forall|i: int| 0 <= i < tile_y * tiles_x ==> now[i] == row_start_hashes[i]);
                lemma_changed_tiles_reads_rows(old_hashes, row_start_hashes, now, cols, tile_y as nat);
                assert(changed_tiles_v@ =~= changed_tiles(old_hashes, now, cols, (tile_y + 1) as nat));
                assert forall|row: int, col: int|
                    0 <= row < tile_y + 1 && 0 <= col < tiles_x implies at_tile(now, cols, row, col)
                        == tile_hash(
                        #[trigger] tile_content(frame@, width as int, height as int, ts, col, row),
                        little,
                    ) by {
                    if row < tile_y {
                        lemma_grid_index(row, col, tile_y as int, cols);
                        assert(at_tile(now, cols, row, col) == at_tile(row_start_hashes, cols, row, col));
                    }
                }
            }
            tile_y = tile_y + 1;
        }
        proof {
            let now = self.prev_hashes@;
            lemma_changed_tiles_bounded(old_hashes, now, cols, tiles_y as nat);
            let ch = changed_tiles_v@;
            if ch.len() > 0 {
                lemma_bounds_of_tiles(ch);
                let j = choose|j: int| 0 <= j < ch.len() && #[trigger] ch[j].0 == max_col(ch);
                let k = choose|k: int| 0 <= k < ch.len() && #[trigger] ch[k].1 == max_row(ch);
                assert(ch[0].0 < tiles_x);
                lemma_mul_inequality(max_col(ch) as int + 1, tiles_x as int, ts);
                lemma_mul_inequality(max_row(ch) as int + 1, tiles_y as int, ts);
                lemma_mul_inequality(min_col(ch) as int, max_col(ch) as int + 1, ts);
                lemma_mul_inequality(min_row(ch) as int, max_row(ch) as int + 1, ts);
                lemma_mul_inequality(
                    max_col(ch) - min_col(ch) + 1,
                    max_col(ch) as int + 1,
                    ts,
                );
                lemma_mul_inequality(
                    max_row(ch) - min_row(ch) + 1,
                    max_row(ch) as int + 1,
                    ts,
                );
            }
        }
        Self::merge_tiles(changed_tiles_v, tile_size)
    }

    /// Merges the changed tiles into the rectangle that bounds them all.
    pub fn merge_tiles(tiles: Vec<(u32, u32)>, tile_size: u32) -> (r: Vec<TileRegion>)
        requires
            tiles@.len() > 0 ==> {
                &&& min_col(tiles@) * tile_size <= u32::MAX
                &&& min_row(tiles@) * tile_size <= u32::MAX
                &&& max_col(tiles@) - min_col(tiles@) + 1 <= u32::MAX
                &&& max_row(tiles@) - min_row(tiles@) + 1 <= u32::MAX
                &&& (max_col(tiles@) - min_col(tiles@) + 1) * tile_size <= u32::MAX
                &&& (max_row(tiles@) - min_row(tiles@) + 1) * tile_size <= u32::MAX
            },
        ensures
            r@ == bounding_region(tiles@, tile_size as int),
    {
        if tiles.len() == 0 {
            return Vec::new();
        }
        let mut min_x = u32::MAX;
        let mut min_y = u32::MAX;
        let mut max_x = 0u32;
        let mut max_y = 0u32;
        let mut i: usize = 0;
        while i < tiles.len()
            invariant
                i <= tiles@.len(),
                min_x == min_col(tiles@.take(i as int)),
                min_y == min_row(tiles@.take(i as int)),
                max_x == max_col(tiles@.take(i as int)),
                max_y == max_row(tiles@.take(i as int)),
            decreases tiles@.len() - i,
        {
            let (tx, ty) = tiles[i];
            assert(tiles@.take(i + 1).drop_last() =~= tiles@.take(i as int));
            if tx < min_x {
                min_x = tx;
            }
            if ty < min_y {
                min_y = ty;
            }
            if tx > max_x {
                max_x = tx;
            }
            if ty > max_y {
                max_y = ty;
            }
            i = i + 1;
        }
        assert(tiles@.take(tiles@.len() as int) =~= tiles@);
        proof {
            lemma_bounds_of_tiles(tiles@);
            assert(min_x <= tiles@[0].0 <= max_x);
            assert(min_y <= tiles@[0].1 <= max_y);
        }
        // Small and large sets of changed tiles are both reported as their
        // bounding rectangle.
        let width_tiles = max_x - min_x + 1;
        let height_tiles = max_y - min_y + 1;
        if tiles.len() <= 9 {
            let region = TileRegion {
                x: min_x * tile_size,
                y: min_y * tile_size,
                width: width_tiles * tile_size,
                height: height_tiles * tile_size,
            };
            return vec![region];
        }
        let region = TileRegion {
            x: min_x * tile_size,
            y: min_y * tile_size,
            width: width_tiles * tile_size,
            height: height_tiles * tile_size,
        };
        vec![region]
    }
}

} // verus!
