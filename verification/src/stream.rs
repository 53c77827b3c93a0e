//! Chunk streaming: which chunks cover a block region, the bookkeeping of
//! issued load requests and their completions, and the bounded poll/sleep
//! policy used to wait for a batch.
//!
//! The data source that actually decodes chunks is an outside collaborator:
//! it is driven by the caller, which hands every completion it observes to
//! the manager here.

use vstd::prelude::*;

use itertools::Itertools;

use crate::CHUNK_WIDTH;
use crate::geom::lemma_abs_mul_le;

verus! {

broadcast use vstd::seq_lib::group_seq_properties;

/// Identifies one fixed-width vertical column of voxel data.
#[derive(Clone, Copy, PartialEq, Eq, Structural, Debug, Hash)]
pub struct ChunkCoord {
    pub cx: i64,
    pub cz: i64,
}

/// The chunk axis index covering block axis coordinate `x`: the floor of
/// `x / CHUNK_WIDTH` (Euclidean division, so negative blocks map to
/// negative chunks without a seam at zero).
pub fn chunk_of_block(x: i64) -> (c: i64)
    requires
        x > i64::MIN,
    ensures
        c == x as int / CHUNK_WIDTH as int,
{
    if x >= 0 {
        ((x as u64) / (CHUNK_WIDTH as u64)) as i64
    } else {
        let y: u64 = (-x) as u64;
        let q: u64 = (y + 15) / (CHUNK_WIDTH as u64);
        proof {
            let yi = y as int;
            let k = (-yi) / 16;
            vstd::arithmetic::div_mod::lemma_fundamental_div_mod(-yi, 16);
            let m = (-yi) % 16;
            vstd::arithmetic::div_mod::lemma_mod_bound(-yi, 16);
            assert(yi + 15 == 16 * (-k) + (15 - m));
            vstd::arithmetic::div_mod::lemma_fundamental_div_mod_converse(
                yi + 15,
                16,
                -k,
                15 - m,
            );
        }
        -(q as i64)
    }
}

/// First-occurrence deduplication: what is kept of `s` once every element
/// already seen earlier in the walk is dropped, starting from `seen`.
pub open spec fn dedup_from(s: Seq<i64>, seen: Set<i64>) -> Seq<i64>
    decreases s.len(),
{
    if s.len() == 0 {
        Seq::empty()
    } else if seen.contains(s[0]) {
        dedup_from(s.drop_first(), seen)
    } else {
        seq![s[0]] + dedup_from(s.drop_first(), seen.insert(s[0]))
    }
}

/// The distinct elements of `s`, each at its first occurrence, in order.
pub open spec fn dedup_first(s: Seq<i64>) -> Seq<i64> {
    dedup_from(s, Set::empty())
}

/// Relies on `itertools::Itertools::unique`: it yields each distinct
/// element once, at its first occurrence, in the input's order
/// (duplicates are detected by `Eq`, which on `i64` is value equality).
#[verifier::external_body]
fn unique_i64(v: &Vec<i64>) -> (r: Vec<i64>)
    ensures
        r@ == dedup_first(v@),
{
    v.iter().copied().unique().collect()
}

/// The sequence of chunk axis indices covering blocks `min..=max`.
pub open spec fn chunk_axis_seq(min: int, max: int) -> Seq<i64> {
    Seq::new((max + 1 - min) as nat, |i: int| ((min + i) / (CHUNK_WIDTH as int)) as i64)
}

/// The chunk axis indices whose chunks cover the inclusive block range
/// `min..=max`, each once, in ascending block order.
pub fn covering_chunk_axis(min: i64, max: i64) -> (r: Vec<i64>)
    requires
        i64::MIN < min <= max < i64::MAX,
    ensures
        r@ == dedup_first(chunk_axis_seq(min as int, max as int)),
{
    let mut blocks: Vec<i64> = Vec::new();
    let mut x: i64 = min;
    while x <= max
        invariant
            min <= x <= max + 1,
            min > i64::MIN,
            max < i64::MAX,
            blocks@ =~= chunk_axis_seq(min as int, max as int).subrange(0, x - min),
        decreases max + 1 - x,
    {
        let c = chunk_of_block(x);
        blocks.push(c);
        x = x + 1;
    }
    proof {
        assert(blocks@ =~= chunk_axis_seq(min as int, max as int));
    }
    unique_i64(&blocks)
}

/// How one chunk load ended: with usable chunk data, or with a
/// source-level error carried as a numeric code.
#[derive(Clone, Copy, PartialEq, Eq, Structural, Debug)]
pub enum ChunkLoadResult {
    Loaded,
    Failed(u32),
}

/// One completion delivered by the data source: which chunk resolved,
/// and how.
#[derive(Clone, Copy, PartialEq, Eq, Structural, Debug)]
pub struct Completion {
    pub coord: ChunkCoord,
    pub result: ChunkLoadResult,
}

/// Returns whether `v` holds `c`.
fn contains_coord(v: &Vec<ChunkCoord>, c: ChunkCoord) -> (b: bool)
    ensures
        b == v@.contains(c),
{
    let mut i: usize = 0;
    while i < v.len()
        invariant
            i <= v@.len(),
            forall|j: int| 0 <= j < i ==> v@[j] != c,
        decreases v@.len() - i,
    {
        if v[i] == c {
            return true;
        }
        i = i + 1;
    }
    false
}

/// The chunk coordinates of the square region of side `width` anchored
/// at `(ocx, ocz)`.
pub open spec fn region_set(ocx: int, ocz: int, width: int) -> Set<ChunkCoord> {
    Set::new(
        |c: ChunkCoord| ocx <= c.cx < ocx + width && ocz <= c.cz < ocz + width,
    )
}

/// Owns the table of issued chunk-load requests and of the completions
/// seen so far. A coordinate counts as in flight from the moment it is
/// requested until its first completion, loaded or failed, is recorded;
/// a failed chunk is resolved, not retried.
pub struct ChunkStreamer {
    pub requested: Vec<ChunkCoord>,
    pub resolved: Vec<ChunkCoord>,
}

impl ChunkStreamer {
    /// Each coordinate appears at most once in each table, and only
    /// requested coordinates ever resolve.
    pub open spec fn wf(self) -> bool {
        &&& self.requested@.no_duplicates()
        &&& self.resolved@.no_duplicates()
        &&& forall|i: int|
            0 <= i < self.resolved@.len() ==> self.requested@.contains(
                #[trigger] self.resolved@[i],
            )
    }

    /// How many requests are still in flight.
    pub open spec fn pending(self) -> int {
        self.requested@.len() - self.resolved@.len()
    }

    /// A resolved table without duplicates, all of whose entries were
    /// requested, is never longer than the request table.
    pub proof fn lemma_resolved_le_requested(self)
        requires
            self.wf(),
        ensures
            self.resolved@.len() <= self.requested@.len(),
    {
        broadcast use vstd::seq_lib::seq_to_set_is_finite;

        self.resolved@.unique_seq_to_set();
        self.requested@.unique_seq_to_set();
        assert(self.resolved@.to_set().subset_of(self.requested@.to_set()));
        vstd::set_lib::lemma_len_subset(self.resolved@.to_set(), self.requested@.to_set());
    }

    pub fn new() -> (s: ChunkStreamer)
        ensures
            s.wf(),
            s.requested@ == Seq::<ChunkCoord>::empty(),
            s.resolved@ == Seq::<ChunkCoord>::empty(),
    {
        ChunkStreamer { requested: Vec::new(), resolved: Vec::new() }
    }

    /// Issues a load request for one chunk. Requesting a coordinate
    /// already in the table is allowed and changes nothing, so repeated
    /// requests stay idempotent.
    pub fn request_chunk(&mut self, c: ChunkCoord)
        requires
            old(self).wf(),
        ensures
            final(self).wf(),
            final(self).resolved@ == old(self).resolved@,
            old(self).requested@.contains(c) ==> final(self).requested@ == old(
                self,
            ).requested@,
            !old(self).requested@.contains(c) ==> final(self).requested@ == old(
                self,
            ).requested@.push(c),
    {
        if !contains_coord(&self.requested, c) {
            self.requested.push(c);
        }
    }

    /// Issues one load request per chunk coordinate in the inclusive
    /// square region of side `width` anchored at `(ocx, ocz)`; chunks
    /// already requested are not requested again, and nothing resolves.
    pub fn request_region(&mut self, ocx: i64, ocz: i64, width: u32)
        requires
            old(self).wf(),
            ocx + width <= i64::MAX,
            ocz + width <= i64::MAX,
        ensures
            final(self).wf(),
            final(self).resolved@ == old(self).resolved@,
            final(self).requested@.to_set() == old(self).requested@.to_set().union(
                region_set(ocx as int, ocz as int, width as int),
            ),
            old(self).requested@.to_set().disjoint(
                region_set(ocx as int, ocz as int, width as int),
            ) ==> final(self).requested@.len() == old(self).requested@.len() + width
                * width,
    {
        let ghost base = old(self).requested@.to_set();
        let ghost base_len = old(self).requested@.len();
        let ghost fresh = base.disjoint(region_set(ocx as int, ocz as int, width as int));
        let mut i: u32 = 0;
        while i < width
            invariant
                self.wf(),
                self.resolved@ == old(self).resolved@,
                i <= width,
                ocx + width <= i64::MAX,
                ocz + width <= i64::MAX,
                self.requested@.to_set() == base.union(
                    region_set(ocx as int, ocz as int, width as int).intersect(
                        Set::new(|c: ChunkCoord| c.cx < ocx + i),
                    ),
                ),
                fresh == base.disjoint(region_set(ocx as int, ocz as int, width as int)),
                base_len == old(self).requested@.len(),
                fresh ==> self.requested@.len() == base_len + i * width,
            decreases width - i,
        {
            let cx: i64 = ocx + i as i64;
            let mut j: u32 = 0;
            while j < width
                invariant
                    self.wf(),
                    self.resolved@ == old(self).resolved@,
                    i < width,
                    j <= width,
                    cx == ocx + i,
                    ocx + width <= i64::MAX,
                    ocz + width <= i64::MAX,
                    self.requested@.to_set() == base.union(
                        region_set(ocx as int, ocz as int, width as int).intersect(
                            Set::new(
                                |c: ChunkCoord| c.cx < ocx + i || (c.cx == ocx + i && c.cz
                                    < ocz + j),
                            ),
                        ),
                    ),
                    fresh == base.disjoint(
                        region_set(ocx as int, ocz as int, width as int),
                    ),
                    base_len == old(self).requested@.len(),
                    fresh ==> self.requested@.len() == base_len + i * width + j,
                decreases width - j,
            {
                let c = ChunkCoord { cx, cz: ocz + j as i64 };
                let ghost before = self.requested@.to_set();
                let ghost before_len = self.requested@.len();
                proof {
                    if fresh {
                        assert(region_set(ocx as int, ocz as int, width as int).contains(c));
                        assert(!before.contains(c));
                        assert(!self.requested@.contains(c));
                    }
                }
                self.request_chunk(c);
                proof {
                    if fresh {
                        assert(self.requested@.len() == before_len + 1);
                    }
                    assert(self.requested@.to_set() =~= before.insert(c));
                    assert(self.requested@.to_set() =~= base.union(
                        region_set(ocx as int, ocz as int, width as int).intersect(
                            Set::new(
                                |cc: ChunkCoord| cc.cx < ocx + i || (cc.cx == ocx + i
                                    && cc.cz < ocz + j + 1),
                            ),
                        ),
                    ));
                }
                j = j + 1;
            }
            proof {
                assert(region_set(ocx as int, ocz as int, width as int).intersect(
                    Set::new(
                        |c: ChunkCoord| c.cx < ocx + i || (c.cx == ocx + i && c.cz < ocz
                            + width),
                    ),
                ) =~= region_set(ocx as int, ocz as int, width as int).intersect(
                    Set::new(|c: ChunkCoord| c.cx < ocx + i + 1),
                ));
                assert((i + 1) * width == i * width + width) by (nonlinear_arith);
            }
            i = i + 1;
        }
        proof {
            assert(region_set(ocx as int, ocz as int, width as int).intersect(
                Set::new(|c: ChunkCoord| c.cx < ocx + width),
            ) =~= region_set(ocx as int, ocz as int, width as int));
        }
    }

    /// Records one completion. It is accepted exactly when its chunk was
    /// requested and had not resolved yet; duplicate or unsolicited
    /// completions change nothing. Accepting marks the chunk resolved,
    /// whether it loaded or failed.
    pub fn record_completion(&mut self, comp: Completion) -> (accepted: bool)
        requires
            old(self).wf(),
        ensures
            final(self).wf(),
            final(self).requested@ == old(self).requested@,
            accepted == (old(self).requested@.contains(comp.coord) && !old(
                self,
            ).resolved@.contains(comp.coord)),
            accepted ==> final(self).resolved@ == old(self).resolved@.push(comp.coord),
            !accepted ==> final(self).resolved@ == old(self).resolved@,
    {
        if contains_coord(&self.requested, comp.coord) && !contains_coord(
            &self.resolved,
            comp.coord,
        ) {
            self.resolved.push(comp.coord);
            true
        } else {
            false
        }
    }

    /// How many requests are still in flight.
    pub fn pending_count(&self) -> (n: usize)
        requires
            self.wf(),
        ensures
            n == self.pending(),
    {
        proof {
            self.lemma_resolved_le_requested();
        }
        self.requested.len() - self.resolved.len()
    }
}

/// The completions of `comps` that a streamer whose resolved table holds
/// `resolved` accepts, in order: first completions of requested,
/// not-yet-resolved chunks.
pub open spec fn accepted_completions(
    requested: Seq<ChunkCoord>,
    resolved: Seq<ChunkCoord>,
    comps: Seq<Completion>,
) -> Seq<Completion>
    decreases comps.len(),
{
    if comps.len() == 0 {
        Seq::empty()
    } else {
        let c = comps[0];
        if requested.contains(c.coord) && !resolved.contains(c.coord) {
            seq![c] + accepted_completions(requested, resolved.push(c.coord), comps.drop_first())
        } else {
            accepted_completions(requested, resolved, comps.drop_first())
        }
    }
}

/// How many completions of a batch of length `len` one poll processes
/// under `budget`: all of them, or the budget where it is smaller.
pub open spec fn poll_limit(budget: Option<usize>, len: nat) -> nat {
    match budget {
        Option::Some(b) => if b < len {
            b as nat
        } else {
            len
        },
        Option::None => len,
    }
}

impl ChunkStreamer {
    /// Drains a batch of completions: records the first
    /// `poll_limit(budget, ...)` of them in order (all of them when
    /// `budget` is `None`), and returns the accepted ones (for the caller
    /// to report or materialize) together with the number of requests
    /// still in flight afterwards. Callable repeatedly without new
    /// requests.
    pub fn poll_completions(&mut self, comps: &Vec<Completion>, budget: Option<usize>) -> (r: (
        Vec<Completion>,
        usize,
    ))
        requires
            old(self).wf(),
        ensures
            final(self).wf(),
            final(self).requested@ == old(self).requested@,
            r.0@ == accepted_completions(
                old(self).requested@,
                old(self).resolved@,
                comps@.take(poll_limit(budget, comps@.len()) as int),
            ),
            final(self).resolved@ == old(self).resolved@ + r.0@.map_values(
                |c: Completion| c.coord,
            ),
            r.1 == final(self).pending(),
    {
        let lim: usize = match budget {
            Option::Some(b) => if b < comps.len() {
                b
            } else {
                comps.len()
            },
            Option::None => comps.len(),
        };
        let ghost batch = comps@.take(lim as int);
        let mut accepted: Vec<Completion> = Vec::new();
        let mut i: usize = 0;
        while i < lim
            invariant
                self.wf(),
                i <= lim <= comps@.len(),
                batch == comps@.take(lim as int),
                self.requested@ == old(self).requested@,
                self.resolved@ == old(self).resolved@ + accepted@.map_values(
                    |c: Completion| c.coord,
                ),
                accepted_completions(old(self).requested@, old(self).resolved@, batch)
                    == accepted@ + accepted_completions(
                    self.requested@,
                    self.resolved@,
                    batch.skip(i as int),
                ),
            decreases lim - i,
        {
            let comp = comps[i];
            let ghost pre_resolved = self.resolved@;
            let ghost pre_accepted = accepted@;
            proof {
                assert(batch.skip(i as int)[0] == batch[i as int]);
                assert(batch[i as int] == comps@[i as int]);
                assert(batch.skip(i as int).drop_first() =~= batch.skip(i as int + 1));
            }
            let ok = self.record_completion(comp);
            if ok {
                accepted.push(comp);
            }
            proof {
                if ok {
                    assert(self.resolved@ =~= old(self).resolved@
                        + accepted@.map_values(|c: Completion| c.coord));
                    assert(accepted@ + accepted_completions(
                        self.requested@,
                        self.resolved@,
                        batch.skip(i as int + 1),
                    ) =~= pre_accepted + (seq![comp] + accepted_completions(
                        self.requested@,
                        pre_resolved.push(comp.coord),
                        batch.skip(i as int).drop_first(),
                    )));
                } else {
                    assert(accepted@ + accepted_completions(
                        self.requested@,
                        self.resolved@,
                        batch.skip(i as int + 1),
                    ) == pre_accepted + accepted_completions(
                        self.requested@,
                        pre_resolved,
                        batch.skip(i as int).drop_first(),
                    ));
                }
            }
            i = i + 1;
        }
        proof {
            assert(batch.skip(lim as int) =~= Seq::<Completion>::empty());
            assert(accepted@ + Seq::<Completion>::empty() =~= accepted@);
            assert(lim == poll_limit(budget, comps@.len()));
        }
        let pending = self.pending_count();
        (accepted, pending)
    }
}

/// One decision of the bounded drain loop: keep polling only while
/// something is pending and attempts remain.
pub fn drain_step(pending: usize, attempts_used: u32, max_attempts: u32) -> (again: bool)
    ensures
        again == (pending > 0 && attempts_used < max_attempts),
{
    pending > 0 && attempts_used < max_attempts
}

/// How many sleeps the drain loop takes when the successive polls observe
/// the pending counts `pendings`: it sleeps after a poll that still sees
/// pending work, until the counts run out, a poll sees zero, or
/// `max_attempts` sleeps have been taken.
pub open spec fn drain_sleep_count(pendings: Seq<int>, max_attempts: nat) -> nat
    decreases pendings.len(),
{
    if pendings.len() == 0 || pendings[0] <= 0 || max_attempts == 0 {
        0
    } else {
        1 + drain_sleep_count(pendings.drop_first(), (max_attempts - 1) as nat)
    }
}

/// Law: the drain loop is a bounded wait. Whatever pending counts the
/// polls observe - even if the source never completes anything - the loop
/// sleeps at most `max_attempts` times.
pub proof fn lemma_drain_bounded(pendings: Seq<int>, max_attempts: nat)
    ensures
        drain_sleep_count(pendings, max_attempts) <= max_attempts,
    decreases pendings.len(),
{
    if pendings.len() == 0 || pendings[0] <= 0 || max_attempts == 0 {
    } else {
        lemma_drain_bounded(pendings.drop_first(), (max_attempts - 1) as nat);
    }
}

/// Law: with one sleep of `delay` per attempt, the drain loop's total
/// wall time is at most `max_attempts * delay`.
pub proof fn lemma_drain_wall_time(pendings: Seq<int>, max_attempts: nat, delay: nat)
    ensures
        drain_sleep_count(pendings, max_attempts) * delay <= max_attempts * delay,
{
    lemma_drain_bounded(pendings, max_attempts);
    lemma_abs_mul_le(
        drain_sleep_count(pendings, max_attempts) as int,
        delay as int,
        max_attempts as int,
        delay as int,
    );
}

} // verus!
