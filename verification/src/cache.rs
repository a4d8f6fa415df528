//! The result cache: grids keyed by the request that produced them, bounded by
//! an insert ceiling and a hard capacity.
//!
//! The policy is a fire-break, not an eviction order. A store into a cache
//! that has reached its hard capacity empties the cache and stores nothing.
//! Below the capacity a grid is stored only while the cache holds fewer
//! entries than the insert ceiling; at the ceiling nothing is stored. So a
//! cache never holds more entries than either limit allows.

use vstd::prelude::*;
use crate::fractal::{FractalGenerator, FractalParams, FractalType, SamplePlan};
use crate::grid::{cells_at_most, clone_grid, grid_view, has_shape};
use crate::scalar::{Rounded, Scalar};

verus! {

/// The insert ceiling of a cache made by [`FractalCache::new`].
pub const DEFAULT_INSERT_CEILING: usize = 50;

/// The hard capacity of a cache made by [`FractalCache::new`].
pub const DEFAULT_CAPACITY: usize = 100;

/// The fractional digits to which a key rounds the centre coordinates.
pub const CENTER_DIGITS: u32 = 6;

/// The fractional digits to which a key rounds the zoom.
pub const ZOOM_DIGITS: u32 = 3;

/// The pattern that stands for every NaN in a key.
pub const CANONICAL_NAN: u64 = 0x7FF8_0000_0000_0000;

/// The part of a key that identifies the fractal family and its parameters.
pub enum VariantKey {
    Mandelbrot,
    Julia { re: u64, im: u64 },
    BurningShip,
    Tricorn,
    Multibrot { power: u64 },
    Custom { equation: Seq<char> },
}

/// The mathematical model of a [`CacheKey`].
pub struct KeyView {
    pub variant: VariantKey,
    pub width: usize,
    pub height: usize,
    pub center_x: Rounded,
    pub center_y: Rounded,
    pub zoom: Rounded,
    pub max_iterations: u32,
}

/// The key of a request: the fractal family with its parameters, the grid
/// size, the centre rounded to six fractional digits, the zoom rounded to
/// three, and the iteration budget.
#[derive(Debug, Clone)]
pub struct CacheKey {
    pub fractal_type: FractalType,
    pub width: usize,
    pub height: usize,
    pub center_x: Rounded,
    pub center_y: Rounded,
    pub zoom: Rounded,
    pub max_iterations: u32,
}

/// A parameter of a fractal family as it enters a key: its bit pattern, with
/// every NaN standing for the same one.
pub open spec fn parameter_identity(value: Scalar) -> u64 {
    if value.is_nan() {
        CANONICAL_NAN
    } else {
        value.bits
    }
}

/// The part of a key that a fractal family contributes.
pub open spec fn variant_key(fractal_type: FractalType) -> VariantKey {
    match fractal_type {
        FractalType::Mandelbrot => VariantKey::Mandelbrot,
        FractalType::Julia { c } => VariantKey::Julia {
            re: parameter_identity(c.re),
            im: parameter_identity(c.im),
        },
        FractalType::BurningShip => VariantKey::BurningShip,
        FractalType::Tricorn => VariantKey::Tricorn,
        FractalType::Multibrot { power } => VariantKey::Multibrot {
            power: parameter_identity(power),
        },
        FractalType::Custom { equation } => VariantKey::Custom { equation: equation@ },
    }
}

/// The key of a request, as a function of the request alone.
pub open spec fn key_of(params: FractalParams) -> KeyView {
    KeyView {
        variant: variant_key(params.fractal_type),
        width: params.width,
        height: params.height,
        center_x: params.center_x.rounded(CENTER_DIGITS as nat),
        center_y: params.center_y.rounded(CENTER_DIGITS as nat),
        zoom: params.zoom.rounded(ZOOM_DIGITS as nat),
        max_iterations: params.max_iterations,
    }
}

impl View for CacheKey {
    type V = KeyView;

    open spec fn view(&self) -> KeyView {
        KeyView {
            variant: variant_key(self.fractal_type),
            width: self.width,
            height: self.height,
            center_x: self.center_x,
            center_y: self.center_y,
            zoom: self.zoom,
            max_iterations: self.max_iterations,
        }
    }
}

/// The bit pattern under which a family parameter enters a key.
fn identity_bits(value: Scalar) -> (bits: u64)
    ensures
        bits == parameter_identity(value),
{
    if value.check_nan() {
        CANONICAL_NAN
    } else {
        value.to_bits()
    }
}

/// Tells whether two fractal families contribute the same part to a key.
fn same_variant(a: &FractalType, b: &FractalType) -> (r: bool)
    ensures
        r == (variant_key(*a) == variant_key(*b)),
{
    match a {
        FractalType::Mandelbrot => match b {
            FractalType::Mandelbrot => true,
            _ => false,
        },
        FractalType::Julia { c } => match b {
            FractalType::Julia { c: d } => identity_bits(c.re) == identity_bits(d.re)
                && identity_bits(c.im) == identity_bits(d.im),
            _ => false,
        },
        FractalType::BurningShip => match b {
            FractalType::BurningShip => true,
            _ => false,
        },
        FractalType::Tricorn => match b {
            FractalType::Tricorn => true,
            _ => false,
        },
        FractalType::Multibrot { power } => match b {
            FractalType::Multibrot { power: other } => identity_bits(*power) == identity_bits(
                *other,
            ),
            _ => false,
        },
        FractalType::Custom { equation } => match b {
            FractalType::Custom { equation: other } => *equation == *other,
            _ => false,
        },
    }
}

/// Derives the key of a request.
pub fn create_cache_key(params: &FractalParams) -> (key: CacheKey)
    ensures
        key@ == key_of(*params),
{
    CacheKey {
        fractal_type: params.fractal_type.duplicate(),
        width: params.width,
        height: params.height,
        center_x: params.center_x.round_to(CENTER_DIGITS),
        center_y: params.center_y.round_to(CENTER_DIGITS),
        zoom: params.zoom.round_to(ZOOM_DIGITS),
        max_iterations: params.max_iterations,
    }
}

impl CacheKey {
    /// Tells whether two keys stand for the same request.
    pub fn same_as(&self, other: &CacheKey) -> (r: bool)
        ensures
            r == (self@ == other@),
    {
        same_variant(&self.fractal_type, &other.fractal_type) && self.width == other.width
            && self.height == other.height && self.center_x == other.center_x && self.center_y
            == other.center_y && self.zoom == other.zoom && self.max_iterations
            == other.max_iterations
    }

    /// Copies the key.
    pub fn duplicate(&self) -> (copy: CacheKey)
        ensures
            copy@ == self@,
    {
        CacheKey {
            fractal_type: self.fractal_type.duplicate(),
            width: self.width,
            height: self.height,
            center_x: self.center_x,
            center_y: self.center_y,
            zoom: self.zoom,
            max_iterations: self.max_iterations,
        }
    }
}

/// A stored grid with the key of the request that produced it.
pub struct CacheEntry {
    pub key: CacheKey,
    pub grid: Vec<Vec<u32>>,
}

/// The cache. Its entries have pairwise different keys, and there are never
/// more of them than the insert ceiling or the hard capacity allows: every
/// cache that this module hands out is well formed in that sense, and its
/// methods keep it so.
pub struct FractalCache {
    entries: Vec<CacheEntry>,
    insert_ceiling: usize,
    capacity: usize,
}

/// The mathematical model of a [`FractalCache`]: the entries in the order in
/// which they were stored, and the two limits.
pub struct CacheState {
    pub entries: Seq<(KeyView, Seq<Seq<u32>>)>,
    pub insert_ceiling: nat,
    pub capacity: nat,
}

impl CacheState {
    /// No key occurs twice, and the entries respect the insert ceiling and the
    /// hard capacity.
    pub open spec fn well_formed(self) -> bool {
        &&& self.entries.len() <= self.insert_ceiling
        &&& self.entries.len() <= self.capacity
        &&& forall|i: int, j: int|
            0 <= i < j < self.entries.len() ==> (#[trigger] self.entries[i]).0 != (
            #[trigger] self.entries[j]).0
    }

    /// The number of entries.
    pub open spec fn len(self) -> nat {
        self.entries.len()
    }

    /// Entry `i` is stored under `key`.
    pub open spec fn holds_at(self, key: KeyView, i: int) -> bool {
        0 <= i < self.entries.len() && self.entries[i].0 == key
    }

    /// Some entry is stored under `key`.
    pub open spec fn contains(self, key: KeyView) -> bool {
        exists|i: int| self.holds_at(key, i)
    }

    /// The place of the entry stored under `key`.
    pub open spec fn index_of(self, key: KeyView) -> int {
        choose|i: int| self.holds_at(key, i)
    }

    /// The grid stored under `key`, if there is one.
    pub open spec fn lookup(self, key: KeyView) -> Option<Seq<Seq<u32>>> {
        if self.contains(key) {
            Some(self.entries[self.index_of(key)].1)
        } else {
            None
        }
    }

    /// The cache without its entries; the limits stay.
    pub open spec fn cleared(self) -> CacheState {
        CacheState { entries: Seq::empty(), ..self }
    }

    /// The cache after a store. A cache that has reached its hard capacity
    /// loses all its entries, and the grid is not stored. Below the capacity
    /// and below the insert ceiling the grid is stored under the key, in place
    /// of a grid that was stored under it before. At the ceiling nothing is
    /// stored.
    pub open spec fn stored(self, key: KeyView, grid: Seq<Seq<u32>>) -> CacheState {
        if self.entries.len() >= self.capacity {
            self.cleared()
        } else if self.entries.len() < self.insert_ceiling {
            if self.contains(key) {
                CacheState {
                    entries: self.entries.update(self.index_of(key), (key, grid)),
                    ..self
                }
            } else {
                CacheState { entries: self.entries.push((key, grid)), ..self }
            }
        } else {
            self
        }
    }
}

impl View for FractalCache {
    type V = CacheState;

    closed spec fn view(&self) -> CacheState {
        CacheState {
            entries: Seq::new(
                self.entries.len() as nat,
                |i: int| (self.entries[i].key@, grid_view(self.entries[i].grid@)),
            ),
            insert_ceiling: self.insert_ceiling as nat,
            capacity: self.capacity as nat,
        }
    }
}

impl FractalCache {
    /// An empty cache with an insert ceiling of 50 and a capacity of 100.
    pub fn new() -> (cache: FractalCache)
        ensures
            cache@.entries.len() == 0,
            cache@.insert_ceiling == DEFAULT_INSERT_CEILING,
            cache@.capacity == DEFAULT_CAPACITY,
            cache@.well_formed(),
    {
        FractalCache {
            entries: Vec::new(),
            insert_ceiling: DEFAULT_INSERT_CEILING,
            capacity: DEFAULT_CAPACITY,
        }
    }

    /// An empty cache with the given limits.
    pub fn with_limits(insert_ceiling: usize, capacity: usize) -> (cache: FractalCache)
        ensures
            cache@.entries.len() == 0,
            cache@.insert_ceiling == insert_ceiling,
            cache@.capacity == capacity,
            cache@.well_formed(),
    {
        FractalCache { entries: Vec::new(), insert_ceiling, capacity }
    }

    /// The number of entries.
    pub fn len(&self) -> (n: usize)
        ensures
            n == self@.len(),
    {
        self.entries.len()
    }

    /// Tells whether the cache holds no entry.
    pub fn is_empty(&self) -> (r: bool)
        ensures
            r == (self@.len() == 0),
    {
        self.entries.len() == 0
    }

    /// The insert ceiling.
    pub fn insert_ceiling(&self) -> (n: usize)
        ensures
            n == self@.insert_ceiling,
    {
        self.insert_ceiling
    }

    /// The hard capacity.
    pub fn capacity(&self) -> (n: usize)
        ensures
            n == self@.capacity,
    {
        self.capacity
    }

    /// The place of the entry stored under `key`, if there is one.
    fn find(&self, key: &CacheKey) -> (place: Option<usize>)
        requires
            self@.well_formed(),
        ensures
            place.is_some() == self@.contains(key@),
            place.is_some() ==> self@.holds_at(key@, place.unwrap() as int) && place.unwrap()
                == self@.index_of(key@),
    {
        let mut i: usize = 0;
        while i < self.entries.len()
            invariant
                i <= self.entries.len(),
                self@.well_formed(),
                forall|j: int| 0 <= j < i ==> !self@.holds_at(key@, j),
            decreases self.entries.len() - i,
        {
            if self.entries[i].key.same_as(key) {
                assert(self@.holds_at(key@, i as int));
                return Some(i);
            }
            i += 1;
        }
        None
    }

    /// A copy of the grid stored under `key`, if there is one. The cache is
    /// left as it was.
    pub fn lookup(&self, key: &CacheKey) -> (found: Option<Vec<Vec<u32>>>)
        requires
            self@.well_formed(),
        ensures
            match found {
                Some(grid) => self@.lookup(key@) == Some(grid_view(grid@)),
                None => self@.lookup(key@).is_none(),
            },
    {
        match self.find(key) {
            Some(i) => Some(clone_grid(self.entries[i].grid.as_slice())),
            None => None,
        }
    }

    /// Empties the cache; the limits stay.
    pub fn clear(&mut self)
        ensures
            final(self)@ == old(self)@.cleared(),
            final(self)@.well_formed(),
    {
        self.entries = Vec::new();
        assert(self@.entries =~= Seq::empty());
    }

    /// Offers a grid to the cache under `key`.
    ///
    /// A cache that has reached its hard capacity is emptied. Below the
    /// capacity and the insert ceiling a copy of the grid is stored; at the
    /// ceiling nothing is stored.
    pub fn store(&mut self, key: CacheKey, grid: &Vec<Vec<u32>>)
        requires
            old(self)@.well_formed(),
        ensures
            final(self)@ == old(self)@.stored(key@, grid_view(grid@)),
            final(self)@.well_formed(),
    {
        let ghost before = self@;
        if self.entries.len() >= self.capacity {
            self.entries = Vec::new();
            assert(self@.entries =~= Seq::empty());
        } else if self.entries.len() < self.insert_ceiling {
            let place = self.find(&key);
            let copy = clone_grid(grid.as_slice());
            match place {
                Some(i) => {
                    self.entries.set(i, CacheEntry { key, grid: copy });
                    assert(self@.entries =~= before.entries.update(
                        i as int,
                        (key@, grid_view(grid@)),
                    ));
                },
                None => {
                    self.entries.push(CacheEntry { key, grid: copy });
                    assert(self@.entries =~= before.entries.push((key@, grid_view(grid@))));
                    assert forall|a: int, b: int| 0 <= a < b < self@.entries.len() implies (
                    #[trigger] self@.entries[a]).0 != (#[trigger] self@.entries[b]).0 by {
                        if b == before.entries.len() {
                            assert(!before.holds_at(key@, a));
                        }
                    }
                },
            }
        }
    }
}

impl Default for FractalCache {
    fn default() -> (cache: FractalCache)
        ensures
            cache@.entries.len() == 0,
            cache@.insert_ceiling == DEFAULT_INSERT_CEILING,
            cache@.capacity == DEFAULT_CAPACITY,
    {
        FractalCache::new()
    }
}

/// Idempotence: a grid that was stored while the cache was below its insert
/// ceiling and its capacity is what a lookup under the same key serves
/// afterwards.
pub proof fn lemma_stored_grid_is_served(state: CacheState, key: KeyView, grid: Seq<Seq<u32>>)
    requires
        state.well_formed(),
        state.len() < state.insert_ceiling,
        state.len() < state.capacity,
    ensures
        state.stored(key, grid).well_formed(),
        state.stored(key, grid).lookup(key) == Some(grid),
{
    let next = state.stored(key, grid);
    if state.contains(key) {
        let i = state.index_of(key);
        assert(next.holds_at(key, i));
        lemma_place_is_unique(next, key, i);
    } else {
        let i = state.entries.len() as int;
        assert(next.holds_at(key, i));
        assert forall|a: int, b: int| 0 <= a < b < next.entries.len() implies (
        #[trigger] next.entries[a]).0 != (#[trigger] next.entries[b]).0 by {
            if b == i {
                assert(!state.holds_at(key, a));
            }
        }
        lemma_place_is_unique(next, key, i);
    }
}

/// In a well-formed cache a key is stored at one place at most.
pub proof fn lemma_place_is_unique(state: CacheState, key: KeyView, i: int)
    requires
        state.well_formed(),
        state.holds_at(key, i),
    ensures
        state.contains(key),
        state.index_of(key) == i,
        state.lookup(key) == Some(state.entries[i].1),
{
    let j = state.index_of(key);
    assert(state.holds_at(key, j));
    if i < j {
        assert(state.entries[i].0 != state.entries[j].0);
    } else if j < i {
        assert(state.entries[j].0 != state.entries[i].0);
    }
}

/// A store leaves the grids under all other keys as they were, as long as the
/// cache is below its insert ceiling and its capacity.
pub proof fn lemma_store_keeps_other_keys(
    state: CacheState,
    key: KeyView,
    grid: Seq<Seq<u32>>,
    other: KeyView,
)
    requires
        state.well_formed(),
        state.len() < state.insert_ceiling,
        state.len() < state.capacity,
        other != key,
    ensures
        state.stored(key, grid).lookup(other) == state.lookup(other),
{
    let next = state.stored(key, grid);
    lemma_stored_grid_is_served(state, key, grid);
    if state.contains(other) {
        let i = state.index_of(other);
        assert(state.holds_at(other, i));
        assert(next.holds_at(other, i));
        lemma_place_is_unique(next, other, i);
    } else {
        if next.contains(other) {
            let j = next.index_of(other);
            assert(next.holds_at(other, j));
            assert(state.holds_at(other, j));
        }
    }
}

/// Bounded capacity: whatever is offered to a well-formed cache, the cache
/// stays well formed, so it never holds more entries than its hard capacity
/// or its insert ceiling allows.
pub proof fn lemma_store_keeps_the_bounds(state: CacheState, key: KeyView, grid: Seq<Seq<u32>>)
    requires
        state.well_formed(),
    ensures
        state.stored(key, grid).well_formed(),
        state.stored(key, grid).len() <= state.capacity,
        state.stored(key, grid).len() <= state.insert_ceiling,
        state.stored(key, grid).capacity == state.capacity,
        state.stored(key, grid).insert_ceiling == state.insert_ceiling,
{
    if state.len() < state.capacity && state.len() < state.insert_ceiling {
        lemma_stored_grid_is_served(state, key, grid);
        if state.contains(key) {
            assert(state.holds_at(key, state.index_of(key)));
        }
    }
}

/// The fire-break: a store into a cache that has reached its hard capacity
/// leaves no entry at all, neither the old ones nor the one that was offered,
/// whatever the insert ceiling is.
pub proof fn lemma_fire_break(state: CacheState, key: KeyView, grid: Seq<Seq<u32>>)
    requires
        state.len() >= state.capacity,
    ensures
        state.stored(key, grid).len() == 0,
        state.stored(key, grid).lookup(key).is_none(),
        state.stored(key, grid).insert_ceiling == state.insert_ceiling,
        state.stored(key, grid).capacity == state.capacity,
{
}

/// Between the insert ceiling and the hard capacity a store changes nothing.
pub proof fn lemma_store_at_ceiling_is_skipped(state: CacheState, key: KeyView, grid: Seq<Seq<u32>>)
    requires
        state.len() >= state.insert_ceiling,
        state.len() < state.capacity,
    ensures
        state.stored(key, grid) == state,
{
}

/// The answer of the cache to a request: the grid, or what has to be sampled
/// to compute it.
pub enum Lookup {
    Hit(Vec<Vec<u32>>),
    Miss(SamplePlan),
}

impl FractalCache {
    /// Answers a request from the cache where it can: a grid that is stored
    /// under the key of the request is served as it is, and nothing has to be
    /// sampled. Otherwise the answer is the sampling plan of the request.
    pub fn get_or_plan(&self, generator: &FractalGenerator, params: &FractalParams) -> (answer:
        Lookup)
        requires
            self@.well_formed(),
            generator.super_sampling ==> 2 * params.width <= usize::MAX && 2 * params.height
                <= usize::MAX,
        ensures
            match answer {
                Lookup::Hit(grid) => self@.lookup(key_of(*params)) == Some(grid_view(grid@)),
                Lookup::Miss(plan) => self@.lookup(key_of(*params)).is_none() && plan
                    == generator.plan_for(*params) && plan.well_formed(),
            },
    {
        let key = create_cache_key(params);
        match self.lookup(&key) {
            Some(grid) => Lookup::Hit(grid),
            None => Lookup::Miss(generator.sample_plan(params)),
        }
    }

    /// Assembles the grid of a request from its samples and offers it to the
    /// cache under the key of the request.
    pub fn compute_and_store(
        &mut self,
        generator: &FractalGenerator,
        params: &FractalParams,
        samples: &Vec<Vec<u32>>,
    ) -> (grid: Vec<Vec<u32>>)
        requires
            old(self)@.well_formed(),
            generator.super_sampling ==> 2 * params.width <= usize::MAX && 2 * params.height
                <= usize::MAX,
            generator.plan_for(*params).accepts(grid_view(samples@)),
        ensures
            grid_view(grid@) == generator.assembled(*params, grid_view(samples@)),
            has_shape(grid_view(grid@), params.width as int, params.height as int),
            cells_at_most(grid_view(grid@), generator.budget_for(params.max_iterations)),
            final(self)@ == old(self)@.stored(key_of(*params), grid_view(grid@)),
            final(self)@.well_formed(),
    {
        let grid = generator.generate(params, samples);
        self.store(create_cache_key(params), &grid);
        grid
    }
}

/// Two requests in a row: once the grid of a request was computed and stored
/// in a cache below its insert ceiling and its capacity, the same request is
/// answered with that very grid.
pub proof fn lemma_repeated_request_is_served(
    state: CacheState,
    generator: FractalGenerator,
    params: FractalParams,
    samples: Seq<Seq<u32>>,
)
    requires
        state.well_formed(),
        state.len() < state.insert_ceiling,
        state.len() < state.capacity,
    ensures
        state.stored(key_of(params), generator.assembled(params, samples)).lookup(key_of(params))
            == Some(generator.assembled(params, samples)),
{
    lemma_stored_grid_is_served(state, key_of(params), generator.assembled(params, samples));
}

} // verus!
