//! Block materialization: turning loaded voxel cells into entity-spawn
//! descriptors.
//!
//! A cell is skipped when its lookup failed (the chunk is not resolvable
//! yet) or when its block is the configured empty/air sentinel. Every
//! accepted cell yields one descriptor: a translation that is the cell
//! coordinate scaled by the fixed spacing constant, a color derived
//! deterministically from the block-type name, and a static unit-cube
//! collision volume.
//!
//! Translations are fixed-point in units of `1 / SPACING_DEN` world units,
//! so a spacing of `SPACING_NUM / SPACING_DEN` needs no fractions.

use vstd::prelude::*;

use crate::BodyKind;
use crate::CHUNK_WIDTH;

verus! {

broadcast use vstd::seq_lib::group_seq_properties;

/// Numerator of the world spacing constant: adjacent cells sit
/// `SPACING_NUM / SPACING_DEN` world units apart, leaving a visible gap
/// between unit cubes.
pub const SPACING_NUM: i64 = 105;

/// Denominator of the world spacing constant, and the fixed-point unit
/// of translations and extents here.
pub const SPACING_DEN: i64 = 100;

/// Half extent of a materialized block's collision cuboid along each
/// axis: half a world unit, in translation units.
pub const BLOCK_HALF_EXTENT: i64 = 50;

/// Largest cell coordinate magnitude the materializer accepts; keeps the
/// scaled translation inside `i64`.
pub const CELL_COORD_BOUND: i64 = 80_000_000_000_000_000;

/// Largest chunk coordinate magnitude accepted when computing absolute
/// cell coordinates; keeps them inside [`CELL_COORD_BOUND`].
pub const CHUNK_COORD_BOUND: i64 = 4_000_000_000_000_000;

/// An RGB color; each channel is a numerator over 255.
#[derive(Clone, Copy, PartialEq, Eq, Structural, Debug)]
pub struct Rgb {
    pub r: u8,
    pub g: u8,
    pub b: u8,
}

/// The color derived from a block-type name: its first three bytes,
/// read as the red, green and blue channel intensities.
pub open spec fn color_spec(name: Seq<u8>) -> Rgb {
    Rgb { r: name[0], g: name[1], b: name[2] }
}

/// Derives the display color of a block type from its name. The result
/// is a pure function of the name's bytes, so the same name always maps
/// to the same color; the name must carry at least the three bytes the
/// channels are read from.
pub fn color_of_name(name: &Vec<u8>) -> (c: Rgb)
    requires
        name@.len() >= 3,
    ensures
        c == color_spec(name@),
{
    Rgb { r: name[0], g: name[1], b: name[2] }
}

/// Law: color derivation is deterministic. Two derivations from the same
/// block-type name yield bit-identical colors.
pub proof fn lemma_color_deterministic(n1: Seq<u8>, n2: Seq<u8>)
    requires
        n1 == n2,
    ensures
        color_spec(n1) == color_spec(n2),
{
}

/// Splits a packed in-chunk cell offset into its local coordinates:
/// x from the low four bits, z from the next four, y from the four
/// above those.
pub fn decode_offset(offset: u16) -> (p: (u16, u16, u16))
    requires
        offset < 4096,
    ensures
        p.0 == offset as int % 16,
        p.1 == offset as int / 256,
        p.2 == (offset as int / 16) % 16,
        p.0 < 16,
        p.1 < 16,
        p.2 < 16,
{
    let x = offset & 15;
    let y = (offset >> 8) & 15;
    let z = (offset >> 4) & 15;
    proof {
        assert(offset & 15 == offset % 16) by (bit_vector);
        assert((offset >> 8) & 15 == offset / 256 && offset / 256 < 16) by (bit_vector)
            requires
                offset < 4096,
        ;
        assert((offset >> 4) & 15 == (offset / 16) % 16) by (bit_vector);
        assert(offset % 16 < 16 && (offset / 16) % 16 < 16) by (bit_vector);
    }
    (x, y, z)
}

/// The absolute coordinates of the cell at packed offset `offset` of the
/// sub-chunk at height index `sub_y` of chunk `(cx, cz)`.
pub fn cell_world_coords(cx: i64, cz: i64, sub_y: i64, offset: u16) -> (p: (i64, i64, i64))
    requires
        offset < 4096,
        -CHUNK_COORD_BOUND <= cx <= CHUNK_COORD_BOUND,
        -CHUNK_COORD_BOUND <= cz <= CHUNK_COORD_BOUND,
        -CHUNK_COORD_BOUND <= sub_y <= CHUNK_COORD_BOUND,
    ensures
        p.0 == CHUNK_WIDTH * cx + offset as int % 16,
        p.1 == CHUNK_WIDTH * sub_y + offset as int / 256,
        p.2 == CHUNK_WIDTH * cz + (offset as int / 16) % 16,
        -CELL_COORD_BOUND <= p.0 <= CELL_COORD_BOUND,
        -CELL_COORD_BOUND <= p.1 <= CELL_COORD_BOUND,
        -CELL_COORD_BOUND <= p.2 <= CELL_COORD_BOUND,
{
    let (lx, ly, lz) = decode_offset(offset);
    (
        CHUNK_WIDTH * cx + lx as i64,
        CHUNK_WIDTH * sub_y + ly as i64,
        CHUNK_WIDTH * cz + lz as i64,
    )
}

/// Number of cells in one sub-chunk: a 16 x 16 x 16 cube.
pub const CELLS_PER_SUB_CHUNK: usize = 4096;

/// Enumerates the absolute coordinates of every cell of the sub-chunk at
/// height index `sub_y` of chunk `(cx, cz)`, in packed-offset order: the
/// whole horizontal extent and the whole height of the sub-chunk, each
/// cell once.
pub fn chunk_cell_positions(cx: i64, cz: i64, sub_y: i64) -> (out: Vec<(i64, i64, i64)>)
    requires
        -CHUNK_COORD_BOUND <= cx <= CHUNK_COORD_BOUND,
        -CHUNK_COORD_BOUND <= cz <= CHUNK_COORD_BOUND,
        -CHUNK_COORD_BOUND <= sub_y <= CHUNK_COORD_BOUND,
    ensures
        out@.len() == CELLS_PER_SUB_CHUNK,
        forall|k: int|
            0 <= k < CELLS_PER_SUB_CHUNK ==> {
                &&& (#[trigger] out@[k]).0 == CHUNK_WIDTH * cx + k % 16
                &&& out@[k].1 == CHUNK_WIDTH * sub_y + k / 256
                &&& out@[k].2 == CHUNK_WIDTH * cz + (k / 16) % 16
            },
{
    let mut out: Vec<(i64, i64, i64)> = Vec::new();
    let mut k: usize = 0;
    while k < CELLS_PER_SUB_CHUNK
        invariant
            k <= CELLS_PER_SUB_CHUNK,
            out@.len() == k,
            -CHUNK_COORD_BOUND <= cx <= CHUNK_COORD_BOUND,
            -CHUNK_COORD_BOUND <= cz <= CHUNK_COORD_BOUND,
            -CHUNK_COORD_BOUND <= sub_y <= CHUNK_COORD_BOUND,
            forall|j: int|
                0 <= j < k ==> {
                    &&& (#[trigger] out@[j]).0 == CHUNK_WIDTH * cx + j % 16
                    &&& out@[j].1 == CHUNK_WIDTH * sub_y + j / 256
                    &&& out@[j].2 == CHUNK_WIDTH * cz + (j / 16) % 16
                },
        decreases CELLS_PER_SUB_CHUNK - k,
    {
        let p = cell_world_coords(cx, cz, sub_y, k as u16);
        out.push(p);
        k = k + 1;
    }
    out
}

/// Scales a cell coordinate to its world-space translation: a pure
/// per-axis scale by the fixed spacing constant, in translation units of
/// `1 / SPACING_DEN` world units.
pub fn scale_translation(x: i64, y: i64, z: i64) -> (t: (i64, i64, i64))
    requires
        -CELL_COORD_BOUND <= x <= CELL_COORD_BOUND,
        -CELL_COORD_BOUND <= y <= CELL_COORD_BOUND,
        -CELL_COORD_BOUND <= z <= CELL_COORD_BOUND,
    ensures
        t.0 == SPACING_NUM * x,
        t.1 == SPACING_NUM * y,
        t.2 == SPACING_NUM * z,
{
    (SPACING_NUM * x, SPACING_NUM * y, SPACING_NUM * z)
}

/// A block as the data source reports it: a registry identifier and the
/// bytes of its display name.
pub struct BlockInfo {
    pub id: u32,
    pub name: Vec<u8>,
}

/// One cell observed during a materialization pass: its absolute
/// coordinates, and the block found there - `None` when the lookup
/// failed because the chunk is not resolvable yet.
pub struct CellLookup {
    pub x: i64,
    pub y: i64,
    pub z: i64,
    pub block: Option<BlockInfo>,
}

/// One entity-spawn descriptor: translation (in units of
/// `1 / SPACING_DEN` world units), display color, and an immovable
/// unit-cube collision volume.
#[derive(Clone, Copy, PartialEq, Eq, Structural, Debug)]
pub struct MaterializedBlock {
    pub tx: i64,
    pub ty: i64,
    pub tz: i64,
    pub color: Rgb,
    pub half_extent: i64,
    pub body: BodyKind,
}

/// A cell produces a block exactly when its lookup succeeded and the
/// block is not the empty/air sentinel.
pub open spec fn cell_emits(empty_id: u32, cell: CellLookup) -> bool {
    match cell.block {
        Option::Some(b) => b.id != empty_id,
        Option::None => false,
    }
}

/// The name bytes of the cell's block (empty when the lookup failed).
pub open spec fn cell_name(cell: CellLookup) -> Seq<u8> {
    match cell.block {
        Option::Some(b) => b.name@,
        Option::None => Seq::empty(),
    }
}

/// A cell the materializer accepts as input: coordinates in range, and,
/// if it will emit, a name long enough to derive a color from.
pub open spec fn cell_ok(empty_id: u32, cell: CellLookup) -> bool {
    &&& -CELL_COORD_BOUND <= cell.x <= CELL_COORD_BOUND
    &&& -CELL_COORD_BOUND <= cell.y <= CELL_COORD_BOUND
    &&& -CELL_COORD_BOUND <= cell.z <= CELL_COORD_BOUND
    &&& cell_emits(empty_id, cell) ==> cell_name(cell).len() >= 3
}

/// The descriptor an emitting cell produces.
pub open spec fn emitted_block(empty_id: u32, cell: CellLookup) -> MaterializedBlock {
    MaterializedBlock {
        tx: (SPACING_NUM * cell.x) as i64,
        ty: (SPACING_NUM * cell.y) as i64,
        tz: (SPACING_NUM * cell.z) as i64,
        color: color_spec(cell_name(cell)),
        half_extent: BLOCK_HALF_EXTENT,
        body: BodyKind::Static,
    }
}

/// What one cell contributes: its descriptor if it emits, nothing
/// otherwise.
pub open spec fn materialize_cell_spec(empty_id: u32, cell: CellLookup) -> Option<
    MaterializedBlock,
> {
    if cell_emits(empty_id, cell) {
        Option::Some(emitted_block(empty_id, cell))
    } else {
        Option::None
    }
}

/// Materializes one cell: a descriptor exactly when the lookup succeeded
/// and the block is not the empty sentinel; a skipped cell produces
/// nothing.
pub fn materialize_cell(empty_id: u32, cell: &CellLookup) -> (r: Option<MaterializedBlock>)
    requires
        cell_ok(empty_id, *cell),
    ensures
        r == materialize_cell_spec(empty_id, *cell),
        r is Some <==> cell_emits(empty_id, *cell),
{
    match &cell.block {
        Option::Some(b) => {
            if b.id != empty_id {
                let t = scale_translation(cell.x, cell.y, cell.z);
                Option::Some(
                    MaterializedBlock {
                        tx: t.0,
                        ty: t.1,
                        tz: t.2,
                        color: color_of_name(&b.name),
                        half_extent: BLOCK_HALF_EXTENT,
                        body: BodyKind::Static,
                    },
                )
            } else {
                Option::None
            }
        },
        Option::None => Option::None,
    }
}

/// The descriptors of a pass over `cells`, in order, one per emitting
/// cell. No deduplication happens here.
pub open spec fn materialize_seq(empty_id: u32, cells: Seq<CellLookup>) -> Seq<
    MaterializedBlock,
>
    decreases cells.len(),
{
    if cells.len() == 0 {
        Seq::empty()
    } else {
        let rest = materialize_seq(empty_id, cells.drop_last());
        match materialize_cell_spec(empty_id, cells.last()) {
            Option::Some(mb) => rest.push(mb),
            Option::None => rest,
        }
    }
}

/// How many cells of `cells` emit a block.
pub open spec fn count_emitting(empty_id: u32, cells: Seq<CellLookup>) -> int
    decreases cells.len(),
{
    if cells.len() == 0 {
        0
    } else {
        count_emitting(empty_id, cells.drop_last()) + if cell_emits(empty_id, cells.last()) {
            1int
        } else {
            0int
        }
    }
}

/// Every cell of `cells` is acceptable input.
pub open spec fn cells_ok(empty_id: u32, cells: Seq<CellLookup>) -> bool {
    forall|i: int| 0 <= i < cells.len() ==> cell_ok(empty_id, #[trigger] cells[i])
}

/// Materializes a pass over `cells`: one descriptor per emitting cell,
/// in input order; cells whose lookup failed and cells holding the empty
/// sentinel contribute nothing. Re-running a pass re-emits descriptors:
/// deduplication is the caller's, via [`MaterializedSet`].
pub fn materialize_region(empty_id: u32, cells: &Vec<CellLookup>) -> (out: Vec<
    MaterializedBlock,
>)
    requires
        cells_ok(empty_id, cells@),
    ensures
        out@ == materialize_seq(empty_id, cells@),
{
    let mut out: Vec<MaterializedBlock> = Vec::new();
    let mut i: usize = 0;
    while i < cells.len()
        invariant
            i <= cells@.len(),
            cells_ok(empty_id, cells@),
            out@ == materialize_seq(empty_id, cells@.subrange(0, i as int)),
        decreases cells@.len() - i,
    {
        proof {
            assert(cells@.subrange(0, i as int + 1).drop_last() =~= cells@.subrange(
                0,
                i as int,
            ));
        }
        match materialize_cell(empty_id, &cells[i]) {
            Option::Some(mb) => out.push(mb),
            Option::None => (),
        }
        i = i + 1;
    }
    proof {
        assert(cells@.subrange(0, cells@.len() as int) =~= cells@);
    }
    out
}

/// Law: materialization never emits a block for a cell whose block type
/// is the empty sentinel, nor for a failed lookup, for any cell
/// contents: the output holds exactly one descriptor per emitting cell,
/// and every descriptor is some emitting cell's.
pub proof fn lemma_materialize_never_emits_empty(empty_id: u32, cells: Seq<CellLookup>)
    ensures
        materialize_seq(empty_id, cells).len() == count_emitting(empty_id, cells),
        forall|j: int|
            0 <= j < materialize_seq(empty_id, cells).len() ==> exists|i: int|
                0 <= i < cells.len() && cell_emits(empty_id, cells[i])
                    && #[trigger] materialize_seq(empty_id, cells)[j] == emitted_block(
                    empty_id,
                    cells[i],
                ),
    decreases cells.len(),
{
    if cells.len() == 0 {
    } else {
        lemma_materialize_never_emits_empty(empty_id, cells.drop_last());
        let prev = materialize_seq(empty_id, cells.drop_last());
        let cur = materialize_seq(empty_id, cells);
        assert forall|j: int| 0 <= j < cur.len() implies exists|i: int|
            0 <= i < cells.len() && cell_emits(empty_id, cells[i]) && #[trigger] cur[j]
                == emitted_block(empty_id, cells[i]) by {
            if j < prev.len() {
                let i0 = choose|i: int|
                    0 <= i < cells.drop_last().len() && cell_emits(
                        empty_id,
                        cells.drop_last()[i],
                    ) && prev[j] == emitted_block(empty_id, cells.drop_last()[i]);
                assert(cells.drop_last()[i0] == cells[i0]);
                assert(cur[j] == prev[j]);
            } else {
                let i0 = cells.len() - 1;
                assert(cell_emits(empty_id, cells[i0]));
                assert(cur[j] == emitted_block(empty_id, cells[i0]));
            }
        }
    }
}

/// An absolute cell coordinate, the key of [`MaterializedSet`].
#[derive(Clone, Copy, PartialEq, Eq, Structural, Debug)]
pub struct CellPos {
    pub x: i64,
    pub y: i64,
    pub z: i64,
}

/// The coordinate key of a cell.
pub open spec fn cell_pos(cell: CellLookup) -> CellPos {
    CellPos { x: cell.x, y: cell.y, z: cell.z }
}

/// The set of cell coordinates already materialized, owned by the
/// caller. A pass that consults it never spawns a second entity for the
/// same cell, even over overlapping regions or repeated passes.
pub struct MaterializedSet {
    pub coords: Vec<CellPos>,
}

impl MaterializedSet {
    pub open spec fn wf(self) -> bool {
        self.coords@.no_duplicates()
    }

    /// The coordinates recorded so far.
    pub open spec fn pos_set(self) -> Set<CellPos> {
        self.coords@.to_set()
    }

    pub fn new() -> (s: MaterializedSet)
        ensures
            s.wf(),
            s.pos_set() == Set::<CellPos>::empty(),
    {
        let s = MaterializedSet { coords: Vec::new() };
        proof {
            assert(s.pos_set() =~= Set::<CellPos>::empty());
        }
        s
    }

    /// Returns whether `p` was recorded.
    pub fn contains(&self, p: CellPos) -> (b: bool)
        ensures
            b == self.pos_set().contains(p),
    {
        let mut i: usize = 0;
        while i < self.coords.len()
            invariant
                i <= self.coords@.len(),
                forall|j: int| 0 <= j < i ==> self.coords@[j] != p,
            decreases self.coords@.len() - i,
        {
            if self.coords[i] == p {
                return true;
            }
            i = i + 1;
        }
        false
    }

    /// Records `p`; reports whether it was new.
    pub fn insert_if_absent(&mut self, p: CellPos) -> (inserted: bool)
        requires
            old(self).wf(),
        ensures
            final(self).wf(),
            inserted == !old(self).pos_set().contains(p),
            final(self).pos_set() == old(self).pos_set().insert(p),
    {
        let present = self.contains(p);
        if !present {
            self.coords.push(p);
        }
        proof {
            assert(self.pos_set() =~= old(self).pos_set().insert(p));
        }
        !present
    }
}

/// The descriptors of a deduplicating pass over `cells`: one per
/// emitting cell whose coordinate is not yet in `seen` and was not
/// emitted earlier in the same pass.
pub open spec fn dedup_materialize_seq(
    empty_id: u32,
    cells: Seq<CellLookup>,
    seen: Set<CellPos>,
) -> Seq<MaterializedBlock>
    decreases cells.len(),
{
    if cells.len() == 0 {
        Seq::empty()
    } else {
        let c = cells[0];
        if cell_emits(empty_id, c) && !seen.contains(cell_pos(c)) {
            seq![emitted_block(empty_id, c)] + dedup_materialize_seq(
                empty_id,
                cells.drop_first(),
                seen.insert(cell_pos(c)),
            )
        } else {
            dedup_materialize_seq(empty_id, cells.drop_first(), seen)
        }
    }
}

/// The coordinates recorded after a deduplicating pass over `cells`
/// starting from `seen`.
pub open spec fn dedup_seen_set(
    empty_id: u32,
    cells: Seq<CellLookup>,
    seen: Set<CellPos>,
) -> Set<CellPos>
    decreases cells.len(),
{
    if cells.len() == 0 {
        seen
    } else {
        let c = cells[0];
        if cell_emits(empty_id, c) && !seen.contains(cell_pos(c)) {
            dedup_seen_set(empty_id, cells.drop_first(), seen.insert(cell_pos(c)))
        } else {
            dedup_seen_set(empty_id, cells.drop_first(), seen)
        }
    }
}

/// Materializes a pass over `cells` while consulting and updating the
/// caller's [`MaterializedSet`]: an emitting cell whose coordinate was
/// already recorded - by an earlier pass or earlier in this one - is
/// skipped, so overlapping passes cannot spawn duplicate entities.
pub fn materialize_region_deduped(
    empty_id: u32,
    cells: &Vec<CellLookup>,
    set: &mut MaterializedSet,
) -> (out: Vec<MaterializedBlock>)
    requires
        old(set).wf(),
        cells_ok(empty_id, cells@),
    ensures
        final(set).wf(),
        out@ == dedup_materialize_seq(empty_id, cells@, old(set).pos_set()),
        final(set).pos_set() == dedup_seen_set(empty_id, cells@, old(set).pos_set()),
{
    let ghost seen0 = old(set).pos_set();
    let mut out: Vec<MaterializedBlock> = Vec::new();
    let mut i: usize = 0;
    while i < cells.len()
        invariant
            i <= cells@.len(),
            cells_ok(empty_id, cells@),
            set.wf(),
            dedup_materialize_seq(empty_id, cells@, seen0) == out@ + dedup_materialize_seq(
                empty_id,
                cells@.skip(i as int),
                set.pos_set(),
            ),
            dedup_seen_set(empty_id, cells@, seen0) == dedup_seen_set(
                empty_id,
                cells@.skip(i as int),
                set.pos_set(),
            ),
        decreases cells@.len() - i,
    {
        proof {
            assert(cells@.skip(i as int)[0] == cells@[i as int]);
            assert(cells@.skip(i as int).drop_first() =~= cells@.skip(i as int + 1));
        }
        let ghost pre_seen = set.pos_set();
        let ghost pre_out = out@;
        let cell = &cells[i];
        let emits = match &cell.block {
            Option::Some(b) => b.id != empty_id,
            Option::None => false,
        };
        if emits {
            let p = CellPos { x: cell.x, y: cell.y, z: cell.z };
            let fresh = set.insert_if_absent(p);
            if fresh {
                match materialize_cell(empty_id, cell) {
                    Option::Some(mb) => out.push(mb),
                    Option::None => (),
                }
            }
            proof {
                if !pre_seen.contains(cell_pos(cells@[i as int])) {
                    assert(out@ =~= pre_out + seq![
                        emitted_block(empty_id, cells@[i as int]),
                    ]);
                    assert(pre_out + (seq![emitted_block(empty_id, cells@[i as int])]
                        + dedup_materialize_seq(
                        empty_id,
                        cells@.skip(i as int + 1),
                        pre_seen.insert(cell_pos(cells@[i as int])),
                    )) =~= out@ + dedup_materialize_seq(
                        empty_id,
                        cells@.skip(i as int + 1),
                        set.pos_set(),
                    ));
                } else {
                    assert(set.pos_set() =~= pre_seen);
                }
            }
        }
        i = i + 1;
    }
    proof {
        assert(cells@.skip(cells@.len() as int) =~= Seq::<CellLookup>::empty());
        assert(out@ + Seq::<MaterializedBlock>::empty() =~= out@);
    }
    out
}

} // verus!
