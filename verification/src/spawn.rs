//! Choosing what to place on the track: the kind of object, weighted at
//! random, and the lanes it occupies.

use vstd::prelude::*;
use rand::distr::weighted::WeightedIndex;
use rand::distr::Distribution;
use rand::seq::IndexedRandom;
use crate::lane::NUM_LANES;
use crate::player::SpawnObject;

verus! {

/// A weighted index distribution over `u32` weights (`rand`'s
/// `WeightedIndex<u32>`), held opaquely; `weights_of` names the weights it was
/// built from.
#[verifier::external_body]
pub struct WeightTable {
    dist: WeightedIndex<u32>,
}

#[verifier::external_type_specification]
#[verifier::external_body]
pub struct ExWeightError(rand::distr::weighted::Error);

/// The weights a weight table was built from.
pub uninterp spec fn weights_of(table: WeightTable) -> Seq<u32>;

/// Builds a weighted index distribution (`WeightedIndex::new`). It fails when
/// the weights are empty, all zero, or their sum overflows; otherwise the
/// distribution keeps the weights it was given.
#[verifier::external_body]
fn new_weight_table(weights: &[u32]) -> (r: Result<WeightTable, rand::distr::weighted::Error>)
    ensures
        r is Ok <==> (weights@.len() > 0 && weight_total(weights@) > 0 && weight_total(weights@)
            <= u32::MAX),
        r matches Ok(d) ==> weights_of(d) == weights@,
{
    match WeightedIndex::new(weights) {
        Ok(dist) => Ok(WeightTable { dist }),
        Err(e) => Err(e),
    }
}

/// Draws an index from the distribution with the thread-local generator
/// (`Distribution::sample` on `rand::rng()`). The index is that of one of the
/// weights, and never of a zero weight; which one it is depends on chance.
#[verifier::external_body]
fn sample_index(table: &WeightTable) -> (i: usize)
    ensures
        i < weights_of(*table).len(),
        weights_of(*table)[i as int] > 0,
{
    table.dist.sample(&mut rand::rng())
}

/// Picks one of the given items uniformly at random (`IndexedRandom::choose`
/// on the thread-local generator). The item is one of `items`; which one
/// depends on chance.
#[verifier::external_body]
fn choose_one<T: Copy>(items: &[T]) -> (t: T)
    requires
        items@.len() > 0,
    ensures
        items@.contains(t),
{
    *items.choose(&mut rand::rng()).unwrap()
}

/// Picks one of the given voice lines (asset paths) at random.
pub fn pick_voice_line(lines: &[&'static str]) -> (line: &'static str)
    requires
        lines@.len() > 0,
    ensures
        lines@.contains(line),
{
    choose_one(lines)
}

/// The sum of a sequence of weights.
pub open spec fn weight_total(weights: Seq<u32>) -> nat
    decreases weights.len(),
{
    if weights.len() == 0 {
        0
    } else {
        weight_total(weights.drop_last()) + weights.last() as nat
    }
}


/// The number of lane patterns for fences and stones.
pub const NUM_PATTERNS: usize = 7;

/// The lanes blocked by obstacle pattern `p`: every non-empty set of lanes,
/// numbered so that pattern `p` holds lane `l` when bit `l` of `p + 1` is set.
pub open spec fn pattern_lanes(p: nat) -> Seq<usize> {
    if p == 0 {
        seq![0usize]
    } else if p == 1 {
        seq![1usize]
    } else if p == 2 {
        seq![0usize, 1usize]
    } else if p == 3 {
        seq![2usize]
    } else if p == 4 {
        seq![0usize, 2usize]
    } else if p == 5 {
        seq![1usize, 2usize]
    } else {
        seq![0usize, 1usize, 2usize]
    }
}

/// The object kind at position `i` of the spawn table.
pub open spec fn spawn_object_at(i: nat) -> SpawnObject {
    if i == 0 {
        SpawnObject::Fence0
    } else if i == 1 {
        SpawnObject::Stone0
    } else {
        SpawnObject::Fuel
    }
}

/// The weights of fence, stone and fuel in the spawn table.
pub open spec fn spawn_weights() -> Seq<u32> {
    seq![5u32, 5u32, 3u32]
}

/// The weights of the seven fence patterns.
pub open spec fn fence_weights() -> Seq<u32> {
    seq![3u32, 3u32, 2u32, 3u32, 2u32, 2u32, 1u32]
}

/// The weights of the seven stone patterns.
pub open spec fn stone_weights() -> Seq<u32> {
    seq![3u32, 3u32, 2u32, 3u32, 2u32, 2u32, 1u32]
}

/// The lanes of obstacle pattern `p`.
pub fn pattern(p: usize) -> (lanes: Vec<usize>)
    requires
        p < NUM_PATTERNS,
    ensures
        lanes@ == pattern_lanes(p as nat),
{
    if p == 0 {
        vec![0]
    } else if p == 1 {
        vec![1]
    } else if p == 2 {
        vec![0, 1]
    } else if p == 3 {
        vec![2]
    } else if p == 4 {
        vec![0, 2]
    } else if p == 5 {
        vec![1, 2]
    } else {
        vec![0, 1, 2]
    }
}

/// A decision to place objects of one kind on some lanes.
pub struct SpawnPlan {
    /// The kind of object to place.
    pub object: SpawnObject,
    /// The lanes to place one object each on, in increasing order.
    pub lanes: Vec<usize>,
}

/// The plan that the drawn values give: the kind at position `kind` of the
/// spawn table (fence, stone, fuel); a fence or stone covers the lanes of
/// pattern `pattern`, a fuel can stands on lane `lane` alone.
pub open spec fn spec_plan(kind: nat, pattern: nat, lane: usize) -> (SpawnObject, Seq<usize>) {
    let object = spawn_object_at(kind);
    if object == SpawnObject::Fuel {
        (object, seq![lane])
    } else {
        (object, pattern_lanes(pattern))
    }
}

/// Turns the drawn values into a plan: the index drawn from the spawn table,
/// the pattern drawn for an obstacle and the lane drawn for a fuel can (the
/// value that the kind does not use is ignored).
pub fn plan_from_draws(kind: usize, pattern: usize, lane: usize) -> (plan: SpawnPlan)
    requires
        kind < 3,
        pattern < NUM_PATTERNS,
        lane < NUM_LANES,
    ensures
        (plan.object, plan.lanes@) == spec_plan(kind as nat, pattern as nat, lane),
        plan.object.spec_ordinal() == kind,
{
    if kind == 0 {
        SpawnPlan { object: SpawnObject::Fence0, lanes: self::pattern(pattern) }
    } else if kind == 1 {
        SpawnPlan { object: SpawnObject::Stone0, lanes: self::pattern(pattern) }
    } else {
        let lanes: Vec<usize> = vec![lane];
        assert(lanes@ =~= seq![lane]);
        SpawnPlan { object: SpawnObject::Fuel, lanes }
    }
}

/// Chooses, at random, the kind of the next object group and its lanes.
pub struct ObjectSpawner {
    next_obj: SpawnObject,
    object_distr: WeightTable,
    fence_distr: WeightTable,
    stone_distr: WeightTable,
}

impl ObjectSpawner {
    #[verifier::type_invariant]
    spec fn inv(self) -> bool {
        &&& weights_of(self.object_distr) == spawn_weights()
        &&& weights_of(self.fence_distr) == fence_weights()
        &&& weights_of(self.stone_distr) == stone_weights()
    }

    /// The kind of object chosen last (a fence before any choice).
    pub closed spec fn spec_next_obj(self) -> SpawnObject {
        self.next_obj
    }

    /// The weights of fence, stone and fuel that the kind is drawn with.
    pub closed spec fn object_weights(self) -> Seq<u32> {
        weights_of(self.object_distr)
    }

    /// The weights of the seven fence patterns.
    pub closed spec fn fence_pattern_weights(self) -> Seq<u32> {
        weights_of(self.fence_distr)
    }

    /// The weights of the seven stone patterns.
    pub closed spec fn stone_pattern_weights(self) -> Seq<u32> {
        weights_of(self.stone_distr)
    }

    /// Whether `(kind, pattern, lane)` is a draw this spawner can make: a
    /// kind of positive weight, for an obstacle a pattern of positive weight,
    /// and a lane on the track.
    pub open spec fn possible_draw(self, kind: nat, pattern: nat, lane: usize) -> bool {
        &&& kind < 3
        &&& pattern < NUM_PATTERNS
        &&& lane < NUM_LANES
        &&& self.object_weights()[kind as int] > 0
        &&& kind == 0 ==> self.fence_pattern_weights()[pattern as int] > 0
        &&& kind == 1 ==> self.stone_pattern_weights()[pattern as int] > 0
    }

    /// A spawner with the game's weights: fences and stones five each, fuel
    /// three; the seven patterns weighted three, three, two, three, two, two
    /// and one.
    pub fn new() -> (s: ObjectSpawner)
        ensures
            s.spec_next_obj() == SpawnObject::Fence0,
            s.object_weights() == spawn_weights(),
            s.fence_pattern_weights() == fence_weights(),
            s.stone_pattern_weights() == stone_weights(),
    {
        let object_weights: Vec<u32> = vec![5, 5, 3];
        let fence: Vec<u32> = vec![3, 3, 2, 3, 2, 2, 1];
        let stone: Vec<u32> = vec![3, 3, 2, 3, 2, 2, 1];
        proof {
            reveal_with_fuel(weight_total, 8);
            assert(object_weights@ =~= spawn_weights());
            assert(fence@ =~= fence_weights());
            assert(stone@ =~= stone_weights());
        }
        let object_distr = match new_weight_table(object_weights.as_slice()) {
            Ok(t) => t,
            Err(_) => vstd::pervasive::unreached(),
        };
        let fence_distr = match new_weight_table(fence.as_slice()) {
            Ok(t) => t,
            Err(_) => vstd::pervasive::unreached(),
        };
        let stone_distr = match new_weight_table(stone.as_slice()) {
            Ok(t) => t,
            Err(_) => vstd::pervasive::unreached(),
        };
        ObjectSpawner { next_obj: SpawnObject::Fence0, object_distr, fence_distr, stone_distr }
    }

    /// Chooses the next object group: its kind drawn from the spawn table,
    /// then a pattern drawn for an obstacle or a lane drawn for a fuel can.
    /// Which values are drawn depends on chance; whatever they are, the plan
    /// is the one `plan_from_draws` makes of them.
    pub fn choose_spawn(&mut self) -> (plan: SpawnPlan)
        ensures
            exists|kind: nat, pattern: nat, lane: usize|
                #![trigger spec_plan(kind, pattern, lane)]
                old(self).possible_draw(kind, pattern, lane) && (plan.object, plan.lanes@)
                    == spec_plan(kind, pattern, lane),
            final(self).spec_next_obj() == plan.object,
            final(self).object_weights() == old(self).object_weights(),
            final(self).fence_pattern_weights() == old(self).fence_pattern_weights(),
            final(self).stone_pattern_weights() == old(self).stone_pattern_weights(),
    {
        proof {
            use_type_invariant(&*self);
        }
        let kind = sample_index(&self.object_distr);
        let mut pattern: usize = 0;
        let mut lane: usize = 0;
        if kind == 0 {
            pattern = sample_index(&self.fence_distr);
        } else if kind == 1 {
            pattern = sample_index(&self.stone_distr);
        } else {
            let all_lanes: Vec<usize> = vec![0, 1, 2];
            proof {
                assert(all_lanes@ =~= seq![0usize, 1usize, 2usize]);
            }
            lane = choose_one(all_lanes.as_slice());
        }
        let plan = plan_from_draws(kind, pattern, lane);
        assert(self.possible_draw(kind as nat, pattern as nat, lane));
        self.next_obj = plan.object;
        plan
    }
}

impl Default for ObjectSpawner {
    fn default() -> (s: ObjectSpawner)
        ensures
            s.spec_next_obj() == SpawnObject::Fence0,
            s.object_weights() == spawn_weights(),
            s.fence_pattern_weights() == fence_weights(),
            s.stone_pattern_weights() == stone_weights(),
    {
        ObjectSpawner::new()
    }
}

/// Pattern `p` blocks lane `l` exactly when bit `l` of `p + 1` is set, so the
/// seven patterns are the seven non-empty sets of lanes.
pub proof fn lemma_pattern_bits(p: nat, l: usize)
    requires
        p < NUM_PATTERNS,
        l < NUM_LANES,
    ensures
        pattern_lanes(p).contains(l) <==> ((p + 1) / (if l == 0 {
            1nat
        } else if l == 1 {
            2nat
        } else {
            4nat
        })) % 2 == 1,
{
    let s = pattern_lanes(p);
    if p == 0 { assert(s[0] == 0); }
    if p == 1 { assert(s[0] == 1); }
    if p == 2 { assert(s[0] == 0 && s[1] == 1); }
    if p == 3 { assert(s[0] == 2); }
    if p == 4 { assert(s[0] == 0 && s[1] == 2); }
    if p == 5 { assert(s[0] == 1 && s[1] == 2); }
    if p == 6 { assert(s[0] == 0 && s[1] == 1 && s[2] == 2); }
}

/// Every pattern lists at least one lane, each on the track, in strictly
/// increasing order.
pub proof fn lemma_patterns_well_formed(p: nat)
    requires
        p < NUM_PATTERNS,
    ensures
        pattern_lanes(p).len() > 0,
        forall|i: int| 0 <= i < pattern_lanes(p).len() ==> pattern_lanes(p)[i] < NUM_LANES,
        forall|i: int, j: int|
            0 <= i < j < pattern_lanes(p).len() ==> pattern_lanes(p)[i] < pattern_lanes(p)[j],
{
}

/// With the game's weights, every lane can receive a fuel can and every
/// pattern of positive weight can receive a fence or a stone: each such plan
/// is the plan of a draw the spawner can make.
pub proof fn lemma_every_plan_reachable(spawner: ObjectSpawner, pattern: nat, lane: usize)
    requires
        spawner.object_weights() == spawn_weights(),
        spawner.fence_pattern_weights() == fence_weights(),
        spawner.stone_pattern_weights() == stone_weights(),
        pattern < NUM_PATTERNS,
        lane < NUM_LANES,
    ensures
        spawner.possible_draw(2, 0, lane),
        spec_plan(2, 0, lane) == (SpawnObject::Fuel, seq![lane]),
        spawner.possible_draw(0, pattern, 0),
        spec_plan(0, pattern, 0) == (SpawnObject::Fence0, pattern_lanes(pattern)),
        spawner.possible_draw(1, pattern, 0),
        spec_plan(1, pattern, 0) == (SpawnObject::Stone0, pattern_lanes(pattern)),
{
}

} // verus!
