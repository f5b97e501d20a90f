//! Claiming tiles and putting up buildings: the purchases a business makes
//! between turns, and the order of turns.
use vstd::prelude::*;

use crate::building::{
    construction_cost_of, idle_recipe, supported_building_types_of, valid_recipes_of, Building,
    BuildingType, Tile, TILE_ACQUISITION_COST,
};
use crate::flow::fits_i32;
use crate::ledger::{held, stock_report, GameData};
use crate::recipe::ValidRecipe;
use crate::resource::Resource;
use crate::screening::affords;

verus! {

/// The stock after paying `cost` in money.
pub open spec fn paid(holdings: Map<Resource, i32>, cost: int) -> Map<Resource, i32> {
    holdings.insert(Resource::Money, (held(holdings, Resource::Money) - cost) as i32)
}

/// A tile as claimed by `owner`.
pub open spec fn claimed(t: Tile, owner: usize) -> Tile {
    Tile { terrain_type: t.terrain_type, owner_id: Some(owner), building: t.building }
}

impl GameData {
    /// The business whose turn follows that of `current`, in order, the
    /// first after the last.
    pub fn next_business_id(&self, current: usize) -> (next: usize)
        requires
            current < self.businesses.len(),
        ensures
            next == if current + 1 == self.businesses.len() {
                0
            } else {
                current + 1
            },
    {
        let next = current + 1;
        if next == self.businesses.len() {
            0
        } else {
            next
        }
    }

    /// Whether business `buyer` can pay `cost` now: its ledger is in range
    /// and its money line covers `cost` with the turn's net flow set aside.
    pub open spec fn can_pay(&self, buyer: usize, cost: int) -> bool {
        let report = stock_report(self.holdings(buyer), self.production_flows(buyer));
        &&& fits_i32(self.production_flows(buyer))
        &&& report.contains_key(Resource::Money)
        &&& affords(report[Resource::Money], cost)
    }

    /// Takes `cost` from the money of business `buyer` where it can pay it,
    /// and reports whether it did; otherwise changes nothing.
    fn pay(&mut self, buyer: usize, cost: i32) -> (ok: bool)
        requires
            buyer < old(self).businesses.len(),
            0 < cost,
        ensures
            ok == old(self).can_pay(buyer, cost as int),
            !ok ==> *final(self) == *old(self),
            final(self).tiles == old(self).tiles,
            final(self).businesses.len() == old(self).businesses.len(),
            forall|i: int|
                0 <= i < old(self).businesses.len() && i != buyer ==> final(self).businesses[i]
                    == old(self).businesses[i],
            ok ==> final(self).holdings(buyer) == paid(old(self).holdings(buyer), cost as int),
    {
        let report = match self.try_get_resource_stock(buyer) {
            Some(report) => report,
            None => {
                return false;
            },
        };
        let money = match report.get(&Resource::Money) {
            Some(money) => money,
            None => {
                return false;
            },
        };
        if !money.can_afford(cost) {
            return false;
        }
        let remaining = money.quantity - cost;
        self.businesses[buyer].resources.insert(Resource::Money, remaining);
        true
    }

    /// Claims the unclaimed tile at (`x`, `y`) for business `buyer` where it
    /// can pay the tile's price, and reports whether it did; otherwise
    /// changes nothing.
    pub fn buy_tile(&mut self, x: usize, y: usize, buyer: usize) -> (ok: bool)
        requires
            x < old(self).tiles.len(),
            y < old(self).tiles[x as int].len(),
            buyer < old(self).businesses.len(),
        ensures
            ok == (old(self).tiles[x as int][y as int].owner_id is None && old(self).can_pay(
                buyer,
                TILE_ACQUISITION_COST as int,
            )),
            !ok ==> *final(self) == *old(self),
            ok ==> final(self).tiles.len() == old(self).tiles.len(),
            ok ==> forall|i: int|
                0 <= i < old(self).tiles.len() && i != x ==> final(self).tiles[i] == old(
                    self,
                ).tiles[i],
            ok ==> final(self).tiles[x as int]@ == old(self).tiles[x as int]@.update(
                y as int,
                claimed(old(self).tiles[x as int][y as int], buyer),
            ),
            final(self).businesses.len() == old(self).businesses.len(),
            forall|i: int|
                0 <= i < old(self).businesses.len() && i != buyer ==> final(self).businesses[i]
                    == old(self).businesses[i],
            ok ==> final(self).holdings(buyer) == paid(
                old(self).holdings(buyer),
                TILE_ACQUISITION_COST as int,
            ),
    {
        if self.tiles[x][y].owner_id.is_some() {
            return false;
        }
        let cost = self.tiles[x][y].get_acquisition_cost();
        if !self.pay(buyer, cost) {
            return false;
        }
        self.tiles[x][y].owner_id = Some(buyer);
        true
    }

    /// Puts up a building of kind `building_type` on the empty tile at
    /// (`x`, `y`) of business `builder` where the terrain carries that kind
    /// and the builder can pay its price, and reports whether it did;
    /// otherwise changes nothing.
    pub fn construct_building(
        &mut self,
        x: usize,
        y: usize,
        builder: usize,
        building_type: BuildingType,
    ) -> (ok: bool)
        requires
            x < old(self).tiles.len(),
            y < old(self).tiles[x as int].len(),
            builder < old(self).businesses.len(),
        ensures
            ok == ({
                let t = old(self).tiles[x as int][y as int];
                &&& t.owner_id == Some(builder)
                &&& t.building is None
                &&& supported_building_types_of(t.terrain_type).contains(building_type)
                &&& old(self).can_pay(builder, construction_cost_of(building_type) as int)
            }),
            !ok ==> *final(self) == *old(self),
            ok ==> final(self).tiles.len() == old(self).tiles.len(),
            ok ==> forall|i: int|
                0 <= i < old(self).tiles.len() && i != x ==> final(self).tiles[i] == old(
                    self,
                ).tiles[i],
            ok ==> final(self).tiles[x as int]@.len() == old(self).tiles[x as int]@.len(),
            ok ==> forall|j: int|
                0 <= j < old(self).tiles[x as int]@.len() && j != y ==> final(self).tiles[x as int]@[j]
                    == old(self).tiles[x as int]@[j],
            ok ==> {
                let t = final(self).tiles[x as int][y as int];
                &&& t.terrain_type == old(self).tiles[x as int][y as int].terrain_type
                &&& t.owner_id == Some(builder)
                &&& t.building matches Some(b) && b.building_type == building_type
                    && b.production_scale@ == valid_recipes_of(building_type).map_values(
                    |v: ValidRecipe| idle_recipe(v),
                )
            },
            final(self).businesses.len() == old(self).businesses.len(),
            forall|i: int|
                0 <= i < old(self).businesses.len() && i != builder ==> final(self).businesses[i]
                    == old(self).businesses[i],
            ok ==> final(self).holdings(builder) == paid(
                old(self).holdings(builder),
                construction_cost_of(building_type) as int,
            ),
    {
        let owned = match self.tiles[x][y].owner_id {
            Some(id) => id == builder,
            None => false,
        };
        if !owned || self.tiles[x][y].building.is_some() {
            return false;
        }
        let supported = self.tiles[x][y].terrain_type.supported_building_types();
        let mut found = false;
        let mut k: usize = 0;
        while k < supported.len()
            invariant
                k <= supported.len(),
                found == supported@.take(k as int).contains(building_type),
            decreases supported.len() - k,
        {
            proof {
                let pre = supported@.take(k as int);
                let post = supported@.take(k + 1);
                assert(post =~= pre.push(supported@[k as int]));
                if pre.contains(building_type) {
                    let j = choose|j: int| 0 <= j < pre.len() && pre[j] == building_type;
                    assert(post[j] == building_type);
                }
                if post.contains(building_type) && supported@[k as int] != building_type {
                    let j = choose|j: int| 0 <= j < post.len() && post[j] == building_type;
                    assert(pre[j] == building_type);
                }
                if supported@[k as int] == building_type {
                    assert(post[k as int] == building_type);
                }
            }
            if supported[k] == building_type {
                found = true;
            }
            k = k + 1;
        }
        assert(supported@.take(k as int) =~= supported@);
        if !found {
            return false;
        }
        let cost = building_type.get_construction_cost();
        if !self.pay(builder, cost) {
            return false;
        }
        self.tiles[x][y].building = Some(Building::new(building_type));
        true
    }
}

} // verus!
