//! The resource ledger: what a business's production moves in a turn, and
//! how a turn commits it to the business's stock.
use vstd::prelude::*;

use crate::building::{Building, Tile};
use crate::flow::{
    flat, fits_i32, gross_in, gross_out, lemma_fits_prefix, lemma_flat_split, lemma_flat_step,
    lemma_gross_nonneg, lemma_gross_push, lemma_push_fits, lemma_untouched, touches, Flow,
};
use crate::recipe::{recipe_deltas, scaled_flows, ScaledValidRecipe};
use crate::resource::{lemma_ordinal_bijection, ordinal, Resource, RESOURCE_COUNT};
use crate::resource_map::ResourceMap;

verus! {

/// Money a new business starts with.
pub const STARTING_MONEY: i32 = 250;

/// The stock of one resource together with what one turn moves of it.
#[derive(PartialEq, Eq, Structural, Clone, Copy, Debug)]
pub struct QuantityInfo {
    pub quantity: i32,
    pub gross_in: i32,
    pub gross_out: i32,
}

impl QuantityInfo {
    /// What the turn adds to the stock.
    pub fn net_in(&self) -> (n: i32)
        requires
            i32::MIN <= self.gross_in - self.gross_out <= i32::MAX,
        ensures
            n == self.gross_in - self.gross_out,
    {
        self.gross_in - self.gross_out
    }

    /// What the turn takes from the stock.
    pub fn net_out(&self) -> (n: i32)
        requires
            i32::MIN <= self.gross_out - self.gross_in <= i32::MAX,
        ensures
            n == self.gross_out - self.gross_in,
    {
        self.gross_out - self.gross_in
    }
}

/// An economic actor and its stock.
#[derive(Clone, Copy, Debug)]
pub struct Business {
    pub resources: ResourceMap<i32>,
}

impl Business {
    /// A business holding only its starting money.
    pub fn new() -> (b: Self)
        ensures
            b.resources@ == map![Resource::Money => STARTING_MONEY],
    {
        let mut resources = ResourceMap::new();
        resources.insert(Resource::Money, STARTING_MONEY);
        assert(resources@ =~= map![Resource::Money => STARTING_MONEY]);
        Business { resources }
    }
}

impl Default for Business {
    /// A business holding nothing.
    fn default() -> (b: Self)
        ensures
            b.resources@ == Map::<Resource, i32>::empty(),
    {
        Business { resources: ResourceMap::new() }
    }
}

/// The stock of `r` in `holdings`, 0 where there is none.
pub open spec fn held(holdings: Map<Resource, i32>, r: Resource) -> int {
    if holdings.contains_key(r) {
        holdings[r] as int
    } else {
        0
    }
}

/// The ledger line of `r`: its stock and what `flows` move of it.
pub open spec fn flow_info(holdings: Map<Resource, i32>, flows: Seq<Flow>, r: Resource) -> QuantityInfo {
    QuantityInfo {
        quantity: held(holdings, r) as i32,
        gross_in: gross_in(flows, r) as i32,
        gross_out: gross_out(flows, r) as i32,
    }
}

/// The ledger lines of the resources that `flows` move.
pub open spec fn flow_tally(holdings: Map<Resource, i32>, flows: Seq<Flow>) -> Map<
    Resource,
    QuantityInfo,
> {
    Map::new(|r: Resource| touches(flows, r), |r: Resource| flow_info(holdings, flows, r))
}

/// The ledger lines of the resources that are held or that `flows` move.
pub open spec fn stock_report(holdings: Map<Resource, i32>, flows: Seq<Flow>) -> Map<
    Resource,
    QuantityInfo,
> {
    Map::new(
        |r: Resource| holdings.contains_key(r) || touches(flows, r),
        |r: Resource| flow_info(holdings, flows, r),
    )
}

/// The stock after one turn of `flows`: each held or moved resource changes
/// by its net flow.
pub open spec fn next_holdings(holdings: Map<Resource, i32>, flows: Seq<Flow>) -> Map<
    Resource,
    i32,
> {
    Map::new(
        |r: Resource| holdings.contains_key(r) || touches(flows, r),
        |r: Resource| (held(holdings, r) + gross_in(flows, r) - gross_out(flows, r)) as i32,
    )
}

/// Every stock after one turn of `flows` fits in an `i32`.
pub open spec fn turn_fits(holdings: Map<Resource, i32>, flows: Seq<Flow>) -> bool {
    forall|r: Resource|
        i32::MIN <= #[trigger] held(holdings, r) + gross_in(flows, r) - gross_out(flows, r)
            <= i32::MAX
}

/// Per recipe of a building, the flows it runs.
pub open spec fn recipe_flows() -> spec_fn(ScaledValidRecipe) -> Seq<Flow> {
    |sr: ScaledValidRecipe| scaled_flows(sr)
}

/// The flows of one turn of a building.
pub open spec fn site_flows(b: Building) -> Seq<Flow> {
    flat(b.production_scale@, recipe_flows())
}

/// The flows that a tile contributes to `owner`: those of its building if
/// `owner` owns the tile, none otherwise.
pub open spec fn tile_flows(t: Tile, owner: usize) -> Seq<Flow> {
    match t.building {
        Some(b) => if t.owner_id == Some(owner) {
            site_flows(b)
        } else {
            seq![]
        },
        None => seq![],
    }
}

/// Per tile, the flows it contributes to `owner`.
pub open spec fn tile_flows_for(owner: usize) -> spec_fn(Tile) -> Seq<Flow> {
    |t: Tile| tile_flows(t, owner)
}

/// The flows that a row of tiles contributes to `owner`.
pub open spec fn row_flows(row: Vec<Tile>, owner: usize) -> Seq<Flow> {
    flat(row@, tile_flows_for(owner))
}

/// Per row of tiles, the flows it contributes to `owner`.
pub open spec fn row_flows_for(owner: usize) -> spec_fn(Vec<Tile>) -> Seq<Flow> {
    |row: Vec<Tile>| row_flows(row, owner)
}

/// All flows of one turn of `owner`'s production, row by row, tile by tile,
/// recipe by recipe.
pub open spec fn world_flows(tiles: Seq<Vec<Tile>>, owner: usize) -> Seq<Flow> {
    flat(tiles, row_flows_for(owner))
}

/// Adds one flow to a tally. Succeeds exactly when every gross sum stays in
/// the `i32` range; a failed tally is of no further use.
fn tally_flow(
    tally: &mut ResourceMap<QuantityInfo>,
    holdings: &ResourceMap<i32>,
    resource: Resource,
    amount: i64,
    Ghost(done): Ghost<Seq<Flow>>,
) -> (ok: bool)
    requires
        old(tally)@ == flow_tally(holdings@, done),
        fits_i32(done),
        -0x4000_0000_0000_0000 <= amount <= 0x4000_0000_0000_0000,
    ensures
        ok == fits_i32(done.push((resource, amount as int))),
        ok ==> final(tally)@ == flow_tally(holdings@, done.push((resource, amount as int))),
{
    let ghost next = done.push((resource, amount as int));
    proof {
        lemma_gross_push(done, (resource, amount as int), resource);
        lemma_gross_nonneg(done, resource);
        lemma_push_fits(done, (resource, amount as int));
    }
    let added_in: i64 = if amount > 0 {
        amount
    } else {
        0
    };
    let added_out: i64 = if amount < 0 {
        -amount
    } else {
        0
    };
    let (quantity, prior_in, prior_out) = match tally.get(&resource) {
        Some(info) => (info.quantity, info.gross_in, info.gross_out),
        None => {
            proof {
                lemma_untouched(done, resource);
            }
            let quantity = match holdings.get(&resource) {
                Some(q) => q,
                None => 0,
            };
            (quantity, 0, 0)
        },
    };
    let total_in: i64 = prior_in as i64 + added_in;
    let total_out: i64 = prior_out as i64 + added_out;
    if total_in > i32::MAX as i64 || total_out > i32::MAX as i64 {
        return false;
    }
    tally.insert(
        resource,
        QuantityInfo { quantity, gross_in: total_in as i32, gross_out: total_out as i32 },
    );
    proof {
        assert forall|r: Resource| r != resource implies (#[trigger] tally@.contains_key(r)
            == touches(next, r)) && (touches(next, r) ==> tally@[r] == flow_info(
            holdings@,
            next,
            r,
        )) by {
            lemma_gross_push(done, (resource, amount as int), r);
        }
        assert(tally@[resource] == flow_info(holdings@, next, resource));
        assert(tally@ =~= flow_tally(holdings@, next));
    }
    true
}

/// Where `done + part` is a prefix of `whole`, a failure on the prefix is a
/// failure on the whole.
proof fn lemma_overflow_spreads(done: Seq<Flow>, part: Seq<Flow>, rest: Seq<Flow>, whole: Seq<Flow>)
    requires
        !fits_i32(done + part),
        done + whole == (done + part) + rest,
    ensures
        !fits_i32(done + whole),
{
    if fits_i32(done + whole) {
        lemma_fits_prefix(done + part, rest);
    }
}

/// Adds one turn of a scaled recipe to a tally.
fn tally_recipe(
    tally: &mut ResourceMap<QuantityInfo>,
    holdings: &ResourceMap<i32>,
    sr: &ScaledValidRecipe,
    Ghost(done): Ghost<Seq<Flow>>,
) -> (ok: bool)
    requires
        old(tally)@ == flow_tally(holdings@, done),
        fits_i32(done),
    ensures
        ok == fits_i32(done + scaled_flows(*sr)),
        ok ==> final(tally)@ == flow_tally(holdings@, done + scaled_flows(*sr)),
{
    let ghost flows = scaled_flows(*sr);
    if sr.scale == 0 {
        assert(done + flows =~= done);
        return true;
    }
    let recipe = sr.valid_recipe.get_recipe();
    assert(done + flows.take(0) =~= done);
    let mut m: usize = 0;
    while m < recipe.resources.len()
        invariant
            m <= recipe.resources.len(),
            sr.scale != 0,
            recipe.resources@ == recipe_deltas(sr.valid_recipe),
            flows == scaled_flows(*sr),
            flows.len() == recipe.resources.len(),
            fits_i32(done + flows.take(m as int)),
            tally@ == flow_tally(holdings@, done + flows.take(m as int)),
        decreases recipe.resources.len() - m,
    {
        let (resource, delta) = recipe.resources[m];
        let scale = sr.scale;
        assert(-0x4000_0000_0000_0000 <= (delta as int) * (scale as int) <= 0x4000_0000_0000_0000)
            by (nonlinear_arith)
            requires
                i32::MIN <= delta <= i32::MAX,
                i32::MIN <= scale <= i32::MAX,
        ;
        let amount: i64 = (delta as i64) * (scale as i64);
        let ghost before = done + flows.take(m as int);
        let ghost after = done + flows.take(m + 1);
        proof {
            assert(flows[m as int] == (resource, amount as int));
            assert(after =~= before.push((resource, amount as int)));
            assert(done + flows =~= after + flows.skip(m + 1));
        }
        if !tally_flow(tally, holdings, resource, amount, Ghost(before)) {
            proof {
                lemma_overflow_spreads(done, flows.take(m + 1), flows.skip(m + 1), flows);
            }
            return false;
        }
        m = m + 1;
    }
    assert(flows.take(m as int) =~= flows);
    true
}

/// Adds one turn of a building to a tally.
fn tally_site(
    tally: &mut ResourceMap<QuantityInfo>,
    holdings: &ResourceMap<i32>,
    building: &Building,
    Ghost(done): Ghost<Seq<Flow>>,
) -> (ok: bool)
    requires
        old(tally)@ == flow_tally(holdings@, done),
        fits_i32(done),
    ensures
        ok == fits_i32(done + site_flows(*building)),
        ok ==> final(tally)@ == flow_tally(holdings@, done + site_flows(*building)),
{
    let recipes = &building.production_scale;
    let ghost f = recipe_flows();
    assert(done + flat(recipes@.take(0), f) =~= done);
    let mut k: usize = 0;
    while k < recipes.len()
        invariant
            k <= recipes.len(),
            recipes == &building.production_scale,
            f == recipe_flows(),
            fits_i32(done + flat(recipes@.take(k as int), f)),
            tally@ == flow_tally(holdings@, done + flat(recipes@.take(k as int), f)),
        decreases recipes.len() - k,
    {
        let ghost before = done + flat(recipes@.take(k as int), f);
        let ghost after = done + flat(recipes@.take(k + 1), f);
        proof {
            lemma_flat_step(recipes@, k as int, f);
            assert(after =~= before + scaled_flows(recipes@[k as int]));
            lemma_flat_split(recipes@, k + 1, f);
            assert(done + flat(recipes@, f) =~= after + flat(recipes@.skip(k + 1), f));
        }
        if !tally_recipe(tally, holdings, &recipes[k], Ghost(before)) {
            proof {
                lemma_overflow_spreads(
                    done,
                    flat(recipes@.take(k + 1), f),
                    flat(recipes@.skip(k + 1), f),
                    flat(recipes@, f),
                );
            }
            return false;
        }
        k = k + 1;
    }
    assert(recipes@.take(k as int) =~= recipes@);
    true
}

/// Adds one turn of what a tile contributes to `owner` to a tally.
fn tally_tile(
    tally: &mut ResourceMap<QuantityInfo>,
    holdings: &ResourceMap<i32>,
    tile: &Tile,
    owner: usize,
    Ghost(done): Ghost<Seq<Flow>>,
) -> (ok: bool)
    requires
        old(tally)@ == flow_tally(holdings@, done),
        fits_i32(done),
    ensures
        ok == fits_i32(done + tile_flows(*tile, owner)),
        ok ==> final(tally)@ == flow_tally(holdings@, done + tile_flows(*tile, owner)),
{
    let owned = match tile.owner_id {
        Some(id) => id == owner,
        None => false,
    };
    match &tile.building {
        Some(building) => {
            if owned {
                tally_site(tally, holdings, building, Ghost(done))
            } else {
                assert(done + tile_flows(*tile, owner) =~= done);
                true
            }
        },
        None => {
            assert(done + tile_flows(*tile, owner) =~= done);
            true
        },
    }
}

/// Adds one turn of what a row of tiles contributes to `owner` to a tally.
fn tally_row(
    tally: &mut ResourceMap<QuantityInfo>,
    holdings: &ResourceMap<i32>,
    row: &Vec<Tile>,
    owner: usize,
    Ghost(done): Ghost<Seq<Flow>>,
) -> (ok: bool)
    requires
        old(tally)@ == flow_tally(holdings@, done),
        fits_i32(done),
    ensures
        ok == fits_i32(done + row_flows(*row, owner)),
        ok ==> final(tally)@ == flow_tally(holdings@, done + row_flows(*row, owner)),
{
    let ghost f = tile_flows_for(owner);
    assert(done + flat(row@.take(0), f) =~= done);
    let mut j: usize = 0;
    while j < row.len()
        invariant
            j <= row.len(),
            f == tile_flows_for(owner),
            fits_i32(done + flat(row@.take(j as int), f)),
            tally@ == flow_tally(holdings@, done + flat(row@.take(j as int), f)),
        decreases row.len() - j,
    {
        let ghost before = done + flat(row@.take(j as int), f);
        let ghost after = done + flat(row@.take(j + 1), f);
        proof {
            lemma_flat_step(row@, j as int, f);
            assert(after =~= before + tile_flows(row@[j as int], owner));
            lemma_flat_split(row@, j + 1, f);
            assert(done + flat(row@, f) =~= after + flat(row@.skip(j + 1), f));
        }
        if !tally_tile(tally, holdings, &row[j], owner, Ghost(before)) {
            proof {
                lemma_overflow_spreads(
                    done,
                    flat(row@.take(j + 1), f),
                    flat(row@.skip(j + 1), f),
                    flat(row@, f),
                );
            }
            return false;
        }
        j = j + 1;
    }
    assert(row@.take(j as int) =~= row@);
    true
}

/// The map of tiles and the businesses that own parts of it.
pub struct GameData {
    pub tiles: Vec<Vec<Tile>>,
    pub businesses: Vec<Business>,
}

impl GameData {
    /// A game over `tiles` with `business_count` businesses, each holding
    /// only its starting money.
    pub fn new(tiles: Vec<Vec<Tile>>, business_count: usize) -> (g: Self)
        ensures
            g.tiles == tiles,
            g.businesses.len() == business_count,
            forall|i: int|
                0 <= i < business_count ==> (#[trigger] g.businesses[i]).resources@ == map![
                    Resource::Money => STARTING_MONEY,
                ],
    {
        let mut businesses: Vec<Business> = Vec::new();
        let mut i: usize = 0;
        while i < business_count
            invariant
                i <= business_count,
                businesses.len() == i,
                forall|j: int|
                    0 <= j < i ==> (#[trigger] businesses[j]).resources@ == map![
                        Resource::Money => STARTING_MONEY,
                    ],
            decreases business_count - i,
        {
            businesses.push(Business::new());
            i = i + 1;
        }
        GameData { tiles, businesses }
    }

    /// The stock of business `owner`.
    pub open spec fn holdings(&self, owner: usize) -> Map<Resource, i32> {
        self.businesses@[owner as int].resources@
    }

    /// All flows of one turn of `owner`'s production.
    pub open spec fn production_flows(&self, owner: usize) -> Seq<Flow> {
        world_flows(self.tiles@, owner)
    }

    /// The flows of all rows for business `business_id`, tallied; `None`
    /// exactly when a gross sum leaves the `i32` range.
    fn tally_rows(&self, business_id: usize) -> (tally: Option<ResourceMap<QuantityInfo>>)
        requires
            business_id < self.businesses.len(),
        ensures
            tally is Some == fits_i32(self.production_flows(business_id)),
            tally matches Some(t) ==> t@ == flow_tally(
                self.holdings(business_id),
                self.production_flows(business_id),
            ),
    {
        let holdings = &self.businesses[business_id].resources;
        let ghost f = row_flows_for(business_id);
        let mut tally: ResourceMap<QuantityInfo> = ResourceMap::new();
        proof {
            assert(flat(self.tiles@.take(0), f) =~= Seq::<Flow>::empty());
            assert(tally@ =~= flow_tally(holdings@, flat(self.tiles@.take(0), f)));
            assert forall|r: Resource| #[trigger] gross_in(Seq::<Flow>::empty(), r) == 0 && gross_out(
                Seq::<Flow>::empty(),
                r,
            ) == 0 by {}
        }
        let mut i: usize = 0;
        while i < self.tiles.len()
            invariant
                i <= self.tiles.len(),
                business_id < self.businesses.len(),
                holdings == &self.businesses@[business_id as int].resources,
                f == row_flows_for(business_id),
                fits_i32(flat(self.tiles@.take(i as int), f)),
                tally@ == flow_tally(holdings@, flat(self.tiles@.take(i as int), f)),
            decreases self.tiles.len() - i,
        {
            let ghost before = flat(self.tiles@.take(i as int), f);
            let ghost after = flat(self.tiles@.take(i + 1), f);
            proof {
                lemma_flat_step(self.tiles@, i as int, f);
                assert(after =~= before + row_flows(self.tiles@[i as int], business_id));
                lemma_flat_split(self.tiles@, i + 1, f);
            }
            if !tally_row(&mut tally, holdings, &self.tiles[i], business_id, Ghost(before)) {
                proof {
                    let empty = Seq::<Flow>::empty();
                    assert(empty + after =~= after);
                    assert(empty + flat(self.tiles@, f) =~= flat(self.tiles@, f));
                    lemma_overflow_spreads(
                        empty,
                        after,
                        flat(self.tiles@.skip(i + 1), f),
                        flat(self.tiles@, f),
                    );
                }
                return None;
            }
            i = i + 1;
        }
        assert(self.tiles@.take(i as int) =~= self.tiles@);
        Some(tally)
    }

    /// The ledger of business `business_id`, or `None` where one of its gross
    /// sums leaves the `i32` range.
    pub fn try_get_resource_stock(&self, business_id: usize) -> (stock: Option<
        ResourceMap<QuantityInfo>,
    >)
        requires
            business_id < self.businesses.len(),
        ensures
            stock is Some == fits_i32(self.production_flows(business_id)),
            stock matches Some(s) ==> s@ == stock_report(
                self.holdings(business_id),
                self.production_flows(business_id),
            ),
    {
        let ghost flows = self.production_flows(business_id);
        let ghost h = self.holdings(business_id);
        let mut stock = match self.tally_rows(business_id) {
            Some(tally) => tally,
            None => {
                return None;
            },
        };
        let holdings = &self.businesses[business_id].resources;
        proof {
            lemma_ordinal_bijection();
        }
        let mut i: usize = 0;
        while i < RESOURCE_COUNT
            invariant
                i <= RESOURCE_COUNT,
                holdings@ == h,
                stock@ == Map::new(
                    |r: Resource| touches(flows, r) || (h.contains_key(r) && ordinal(r) < i),
                    |r: Resource| flow_info(h, flows, r),
                ),
            decreases RESOURCE_COUNT - i,
        {
            let resource = Resource::from_ordinal(i);
            if !stock.contains_key(&resource) {
                if let Some(quantity) = holdings.get(&resource) {
                    proof {
                        lemma_untouched(flows, resource);
                    }
                    stock.insert(resource, QuantityInfo { quantity, gross_in: 0, gross_out: 0 });
                }
            }
            i = i + 1;
            proof {
                assert(stock@ =~= Map::new(
                    |r: Resource| touches(flows, r) || (h.contains_key(r) && ordinal(r) < i),
                    |r: Resource| flow_info(h, flows, r),
                ));
            }
        }
        assert(stock@ =~= stock_report(h, flows));
        Some(stock)
    }

    /// The ledger of business `business_id`: for each resource that it holds
    /// or that its production moves, the stock and the gross amounts that one
    /// turn brings in and takes out.
    pub fn get_resource_stock(&self, business_id: usize) -> (stock: ResourceMap<QuantityInfo>)
        requires
            business_id < self.businesses.len(),
            fits_i32(self.production_flows(business_id)),
        ensures
            stock@ == stock_report(self.holdings(business_id), self.production_flows(business_id)),
    {
        self.try_get_resource_stock(business_id).unwrap()
    }

    /// Whether one more turn keeps every stock of business `business_id` in
    /// the `i32` range, given its ledger `report`.
    fn turn_stays_in_range(&self, business_id: usize, report: &ResourceMap<QuantityInfo>) -> (b:
        bool)
        requires
            business_id < self.businesses.len(),
            fits_i32(self.production_flows(business_id)),
            report@ == stock_report(self.holdings(business_id), self.production_flows(business_id)),
        ensures
            b == turn_fits(self.holdings(business_id), self.production_flows(business_id)),
    {
        let ghost flows = self.production_flows(business_id);
        let ghost h = self.holdings(business_id);
        proof {
            lemma_ordinal_bijection();
        }
        let mut i: usize = 0;
        while i < RESOURCE_COUNT
            invariant
                i <= RESOURCE_COUNT,
                h == self.holdings(business_id),
                flows == self.production_flows(business_id),
                fits_i32(flows),
                report@ == stock_report(h, flows),
                forall|r: Resource|
                    ordinal(r) < i ==> i32::MIN <= #[trigger] held(h, r) + gross_in(flows, r)
                        - gross_out(flows, r) <= i32::MAX,
            decreases RESOURCE_COUNT - i,
        {
            let resource = Resource::from_ordinal(i);
            proof {
                lemma_gross_nonneg(flows, resource);
                assert(gross_in(flows, resource) <= i32::MAX);
                assert(gross_out(flows, resource) <= i32::MAX);
            }
            let in_range = match report.get(&resource) {
                Some(info) => {
                    let after: i64 = info.quantity as i64 + info.gross_in as i64
                        - info.gross_out as i64;
                    i32::MIN as i64 <= after && after <= i32::MAX as i64
                },
                None => {
                    proof {
                        lemma_untouched(flows, resource);
                    }
                    true
                },
            };
            let ghost v = held(h, resource) + gross_in(flows, resource) - gross_out(flows, resource);
            assert(in_range == (i32::MIN <= v <= i32::MAX));
            if !in_range {
                proof {
                    if turn_fits(h, flows) {
                        assert(i32::MIN <= v <= i32::MAX);
                    }
                }
                return false;
            }
            i = i + 1;
        }
        proof {
            lemma_ordinal_bijection();
        }
        true
    }

    /// Adds each line's net flow of `report` to the stock of business
    /// `business_id`.
    fn commit_turn(&mut self, business_id: usize, report: &ResourceMap<QuantityInfo>)
        requires
            business_id < old(self).businesses.len(),
            fits_i32(old(self).production_flows(business_id)),
            turn_fits(old(self).holdings(business_id), old(self).production_flows(business_id)),
            report@ == stock_report(
                old(self).holdings(business_id),
                old(self).production_flows(business_id),
            ),
        ensures
            final(self).tiles == old(self).tiles,
            final(self).businesses.len() == old(self).businesses.len(),
            forall|i: int|
                0 <= i < old(self).businesses.len() && i != business_id ==> final(self).businesses[i]
                    == old(self).businesses[i],
            final(self).holdings(business_id) == next_holdings(
                old(self).holdings(business_id),
                old(self).production_flows(business_id),
            ),
    {
        let ghost flows = self.production_flows(business_id);
        let ghost h = self.holdings(business_id);
        let mut holdings = self.businesses[business_id].resources;
        proof {
            lemma_ordinal_bijection();
        }
        let mut i: usize = 0;
        while i < RESOURCE_COUNT
            invariant
                i <= RESOURCE_COUNT,
                fits_i32(flows),
                turn_fits(h, flows),
                report@ == stock_report(h, flows),
                holdings@ == Map::new(
                    |r: Resource| h.contains_key(r) || (ordinal(r) < i && touches(flows, r)),
                    |r: Resource|
                        if ordinal(r) < i {
                            (held(h, r) + gross_in(flows, r) - gross_out(flows, r)) as i32
                        } else {
                            h[r]
                        },
                ),
            decreases RESOURCE_COUNT - i,
        {
            let resource = Resource::from_ordinal(i);
            if let Some(info) = report.get(&resource) {
                proof {
                    lemma_gross_nonneg(flows, resource);
                    assert(gross_in(flows, resource) <= i32::MAX);
                    assert(gross_out(flows, resource) <= i32::MAX);
                    assert(i32::MIN <= held(h, resource) + gross_in(flows, resource) - gross_out(
                        flows,
                        resource,
                    ) <= i32::MAX);
                }
                let delta = info.gross_in - info.gross_out;
                match holdings.get(&resource) {
                    Some(quantity) => holdings.insert(resource, quantity + delta),
                    None => holdings.insert(resource, delta),
                }
            }
            i = i + 1;
            proof {
                assert(holdings@ =~= Map::new(
                    |r: Resource| h.contains_key(r) || (ordinal(r) < i && touches(flows, r)),
                    |r: Resource|
                        if ordinal(r) < i {
                            (held(h, r) + gross_in(flows, r) - gross_out(flows, r)) as i32
                        } else {
                            h[r]
                        },
                ));
            }
        }
        assert(holdings@ =~= next_holdings(h, flows));
        self.businesses.set(business_id, Business { resources: holdings });
    }

    /// Commits one turn of business `business_id`'s production to its stock:
    /// each resource that it holds or that its production moves changes by
    /// its net flow. Every call commits one more turn.
    pub fn update_business_resources(&mut self, business_id: usize)
        requires
            business_id < old(self).businesses.len(),
            fits_i32(old(self).production_flows(business_id)),
            turn_fits(old(self).holdings(business_id), old(self).production_flows(business_id)),
        ensures
            final(self).tiles == old(self).tiles,
            final(self).businesses.len() == old(self).businesses.len(),
            forall|i: int|
                0 <= i < old(self).businesses.len() && i != business_id ==> final(self).businesses[i]
                    == old(self).businesses[i],
            final(self).holdings(business_id) == next_holdings(
                old(self).holdings(business_id),
                old(self).production_flows(business_id),
            ),
    {
        let report = self.get_resource_stock(business_id);
        self.commit_turn(business_id, &report);
    }

    /// Commits one turn as `update_business_resources` does where every gross
    /// sum and every resulting stock stays in the `i32` range, and reports
    /// whether it did; otherwise changes nothing.
    pub fn try_update_business_resources(&mut self, business_id: usize) -> (ok: bool)
        requires
            business_id < old(self).businesses.len(),
        ensures
            ok == (fits_i32(old(self).production_flows(business_id)) && turn_fits(
                old(self).holdings(business_id),
                old(self).production_flows(business_id),
            )),
            !ok ==> *final(self) == *old(self),
            final(self).tiles == old(self).tiles,
            final(self).businesses.len() == old(self).businesses.len(),
            forall|i: int|
                0 <= i < old(self).businesses.len() && i != business_id ==> final(self).businesses[i]
                    == old(self).businesses[i],
            ok ==> final(self).holdings(business_id) == next_holdings(
                old(self).holdings(business_id),
                old(self).production_flows(business_id),
            ),
    {
        let report = match self.try_get_resource_stock(business_id) {
            Some(report) => report,
            None => {
                return false;
            },
        };
        if !self.turn_stays_in_range(business_id, &report) {
            return false;
        }
        self.commit_turn(business_id, &report);
        true
    }
}

} // verus!
