//! Advisory checks that the player's controls run before they change a
//! scale or spend money. The ledger itself enforces none of them.
use vstd::prelude::*;

use crate::ledger::QuantityInfo;
use crate::recipe::{recipe_deltas, ScaledValidRecipe};
use crate::resource::Resource;
use crate::resource_map::ResourceMap;

verus! {

/// The scale change that a click asks for: up by one unless already at the
/// maximum, down by one unless already at zero, otherwise none.
pub open spec fn requested_increment_of(
    sr: ScaledValidRecipe,
    click: bool,
    click_up: bool,
    click_down: bool,
) -> i32 {
    if click && click_up && !click_down && sr.scale != sr.max_scale {
        1
    } else if click && !click_up && click_down && sr.scale != 0 {
        -1i32
    } else {
        0
    }
}

/// Whether changing one delta's scale by `increment` keeps the projected
/// stock of its resource non-negative: the change produces, or the stock
/// after the turn's flows and the change stays at zero or above.
pub open spec fn delta_affordable(
    delta: (Resource, i32),
    increment: int,
    stock: Map<Resource, QuantityInfo>,
) -> bool {
    let change = increment * delta.1;
    change > 0 || if stock.contains_key(delta.0) {
        let info = stock[delta.0];
        info.quantity + change + info.gross_in - info.gross_out >= 0
    } else {
        change >= 0
    }
}

/// Whether a scale change is asked for and every delta of the recipe can
/// afford it.
pub open spec fn increment_affordable(
    sr: ScaledValidRecipe,
    increment: int,
    stock: Map<Resource, QuantityInfo>,
) -> bool {
    &&& increment != 0
    &&& forall|i: int|
        0 <= i < recipe_deltas(sr.valid_recipe).len() ==> delta_affordable(
            #[trigger] recipe_deltas(sr.valid_recipe)[i],
            increment,
            stock,
        )
}

/// Whether a purchase at `cost` is affordable: the stock, less the size of
/// the turn's net flow, covers it.
pub open spec fn affords(info: QuantityInfo, cost: int) -> bool {
    let net = info.gross_out - info.gross_in;
    info.quantity - (if net < 0 {
        -net
    } else {
        net
    }) >= cost
}

impl ScaledValidRecipe {
    /// The scale change that a click on the up or down control asks for.
    pub fn requested_increment(&self, click: bool, click_up: bool, click_down: bool) -> (i: i32)
        ensures
            i == requested_increment_of(*self, click, click_up, click_down),
    {
        if click && click_up && !click_down && self.scale != self.max_scale {
            1
        } else if click && !click_up && click_down && self.scale != 0 {
            -1
        } else {
            0
        }
    }

    /// Whether the ledger `stock` can afford changing the scale by
    /// `increment`.
    pub fn can_apply_increment(&self, increment: i32, stock: &ResourceMap<QuantityInfo>) -> (b:
        bool)
        ensures
            b == increment_affordable(*self, increment as int, stock@),
    {
        if increment == 0 {
            return false;
        }
        let recipe = self.valid_recipe.get_recipe();
        let mut i: usize = 0;
        while i < recipe.resources.len()
            invariant
                i <= recipe.resources.len(),
                increment != 0,
                recipe.resources@ == recipe_deltas(self.valid_recipe),
                forall|j: int|
                    0 <= j < i ==> delta_affordable(
                        #[trigger] recipe_deltas(self.valid_recipe)[j],
                        increment as int,
                        stock@,
                    ),
            decreases recipe.resources.len() - i,
        {
            let (resource, quantity) = recipe.resources[i];
            assert(-0x4000_0000_0000_0000 <= (increment as int) * (quantity as int)
                <= 0x4000_0000_0000_0000) by (nonlinear_arith)
                requires
                    i32::MIN <= increment <= i32::MAX,
                    i32::MIN <= quantity <= i32::MAX,
            ;
            let change: i64 = (increment as i64) * (quantity as i64);
            let ok = change > 0 || match stock.get(&resource) {
                Some(info) => {
                    info.quantity as i64 + change + info.gross_in as i64 - info.gross_out as i64
                        >= 0
                },
                None => change >= 0,
            };
            if !ok {
                return false;
            }
            i = i + 1;
        }
        true
    }

    /// Applies a click on the up or down control: the scale changes by the
    /// increment the click asks for when `stock` can afford it. Returns
    /// whether it changed.
    pub fn apply_click(
        &mut self,
        click: bool,
        click_up: bool,
        click_down: bool,
        stock: &ResourceMap<QuantityInfo>,
    ) -> (changed: bool)
        requires
            0 <= old(self).scale <= old(self).max_scale,
        ensures
            changed == increment_affordable(
                *old(self),
                requested_increment_of(*old(self), click, click_up, click_down) as int,
                stock@,
            ),
            final(self).valid_recipe == old(self).valid_recipe,
            final(self).max_scale == old(self).max_scale,
            final(self).scale == old(self).scale + if changed {
                requested_increment_of(*old(self), click, click_up, click_down) as int
            } else {
                0
            },
    {
        let increment = self.requested_increment(click, click_up, click_down);
        let changed = self.can_apply_increment(increment, stock);
        if changed {
            self.scale = self.scale + increment;
        }
        changed
    }
}

impl QuantityInfo {
    /// Whether this ledger line can pay `cost`, the turn's net flow set
    /// aside.
    pub fn can_afford(&self, cost: i32) -> (b: bool)
        ensures
            b == affords(*self, cost as int),
    {
        let net: i64 = self.gross_out as i64 - self.gross_in as i64;
        let magnitude: i64 = if net < 0 {
            -net
        } else {
            net
        };
        self.quantity as i64 - magnitude >= cost as i64
    }
}

} // verus!
