//! Properties of the ledger that hold across calls and inputs.
use vstd::prelude::*;

use crate::building::Tile;
use crate::flow::{
    flat, gross_in, gross_out, lemma_gross_concat, lemma_gross_push, lemma_untouched, net_flow, touches, Flow,
};
use crate::ledger::{
    held, next_holdings, recipe_flows, row_flows_for, stock_report, tile_flows, tile_flows_for,
    turn_fits, GameData, QuantityInfo,
};
use crate::recipe::{recipe_deltas, scaled_flows, ScaledValidRecipe};
use crate::resource::{ordinal, Resource, RESOURCE_COUNT};
use crate::resource_map::{entries_of, lemma_entries_below};

verus! {

/// Whether `owner` owns tile `t` and a building stands on it.
pub open spec fn owns_site(t: Tile, owner: usize) -> bool {
    t.owner_id == Some(owner) && t.building is Some
}

/// The ledger lines of a stock alone: each held resource, nothing moving.
pub open spec fn idle_report(holdings: Map<Resource, i32>) -> Map<Resource, QuantityInfo> {
    holdings.map_values(|q: i32| QuantityInfo { quantity: q, gross_in: 0, gross_out: 0 })
}

/// Tiles that contribute nothing to `owner` leave the world without flows.
proof fn lemma_world_flows_empty(tiles: Seq<Vec<Tile>>, owner: usize)
    requires
        forall|i: int, j: int|
            0 <= i < tiles.len() && 0 <= j < tiles[i]@.len() ==> #[trigger] tile_flows(
                tiles[i]@[j],
                owner,
            ) == Seq::<Flow>::empty(),
    ensures
        flat(tiles, row_flows_for(owner)) == Seq::<Flow>::empty(),
{
    assert forall|i: int| 0 <= i < tiles.len() implies #[trigger] row_flows_for(owner)(tiles[i])
        == Seq::<Flow>::empty() by {
        let row = tiles[i]@;
        assert forall|j: int| 0 <= j < row.len() implies #[trigger] tile_flows_for(owner)(row[j])
            == Seq::<Flow>::empty() by {
            assert(tile_flows(tiles[i]@[j], owner) == Seq::<Flow>::empty());
        }
        crate::flow::lemma_flat_empty(row, tile_flows_for(owner));
    }
    crate::flow::lemma_flat_empty(tiles, row_flows_for(owner));
}

/// Without flows, the ledger of a stock is the stock alone.
proof fn lemma_report_without_flows(holdings: Map<Resource, i32>)
    ensures
        stock_report(holdings, Seq::<Flow>::empty()) == idle_report(holdings),
{
    assert forall|r: Resource| !touches(Seq::<Flow>::empty(), r) by {}
    assert(stock_report(holdings, Seq::<Flow>::empty()) =~= idle_report(holdings));
}

/// A business that owns no site gets as its ledger exactly its stock, each
/// line with nothing coming in and nothing going out.
pub proof fn law_no_sites_report_only_stock(g: GameData, owner: usize)
    requires
        owner < g.businesses.len(),
        forall|i: int, j: int|
            0 <= i < g.tiles@.len() && 0 <= j < g.tiles@[i]@.len() ==> !owns_site(
                #[trigger] g.tiles@[i]@[j],
                owner,
            ),
    ensures
        g.production_flows(owner) == Seq::<Flow>::empty(),
        stock_report(g.holdings(owner), g.production_flows(owner)) == idle_report(
            g.holdings(owner),
        ),
{
    assert forall|i: int, j: int|
        0 <= i < g.tiles@.len() && 0 <= j < g.tiles@[i]@.len() implies #[trigger] tile_flows(
        g.tiles@[i]@[j],
        owner,
    ) == Seq::<Flow>::empty() by {
        assert(!owns_site(g.tiles@[i]@[j], owner));
    }
    lemma_world_flows_empty(g.tiles@, owner);
    lemma_report_without_flows(g.holdings(owner));
}

/// Recipes at scale 0 contribute nothing: a building's flows are those of
/// its recipes with a non-zero scale.
pub proof fn law_idle_recipes_contribute_nothing(recipes: Seq<ScaledValidRecipe>)
    ensures
        flat(recipes, recipe_flows()) == flat(
            recipes.filter(|sr: ScaledValidRecipe| sr.scale != 0),
            recipe_flows(),
        ),
    decreases recipes.len(),
{
    let active = |sr: ScaledValidRecipe| sr.scale != 0;
    if recipes.len() == 0 {
        assert(recipes.filter(active) =~= Seq::<ScaledValidRecipe>::empty());
    } else {
        let prev = recipes.drop_last();
        let last = recipes.last();
        law_idle_recipes_contribute_nothing(prev);
        assert(recipes =~= prev.push(last));
        prev.lemma_filter_push(last, active);
        if last.scale == 0 {
            assert(flat(recipes, recipe_flows()) =~= flat(prev, recipe_flows()));
        } else {
            let kept = prev.filter(active).push(last);
            assert(kept.drop_last() =~= prev.filter(active));
        }
    }
}

/// A business whose sites all stand idle gets as its ledger exactly its
/// stock, each line with nothing coming in and nothing going out.
pub proof fn law_idle_sites_report_only_stock(g: GameData, owner: usize)
    requires
        owner < g.businesses.len(),
        forall|i: int, j: int, k: int|
            0 <= i < g.tiles@.len() && 0 <= j < g.tiles@[i]@.len() && owns_site(
                #[trigger] g.tiles@[i]@[j],
                owner,
            ) && 0 <= k < g.tiles@[i]@[j].building->Some_0.production_scale@.len()
                ==> (#[trigger] g.tiles@[i]@[j].building->Some_0.production_scale@[k]).scale == 0,
    ensures
        g.production_flows(owner) == Seq::<Flow>::empty(),
        stock_report(g.holdings(owner), g.production_flows(owner)) == idle_report(
            g.holdings(owner),
        ),
{
    assert forall|i: int, j: int|
        0 <= i < g.tiles@.len() && 0 <= j < g.tiles@[i]@.len() implies #[trigger] tile_flows(
        g.tiles@[i]@[j],
        owner,
    ) == Seq::<Flow>::empty() by {
        let t = g.tiles@[i]@[j];
        if owns_site(t, owner) {
            let recipes = t.building->Some_0.production_scale@;
            assert forall|k: int| 0 <= k < recipes.len() implies #[trigger] recipe_flows()(
                recipes[k],
            ) == Seq::<Flow>::empty() by {
                assert(g.tiles@[i]@[j].building->Some_0.production_scale@[k].scale == 0);
            }
            crate::flow::lemma_flat_empty(recipes, recipe_flows());
        }
    }
    lemma_world_flows_empty(g.tiles@, owner);
    lemma_report_without_flows(g.holdings(owner));
}

/// Reading the ledger changes nothing: two reports of one state are the same
/// map, listed in the same order.
pub proof fn law_report_is_repeatable(g: GameData, owner: usize, first: Map<Resource, QuantityInfo>, second: Map<Resource, QuantityInfo>)
    requires
        first == stock_report(g.holdings(owner), g.production_flows(owner)),
        second == stock_report(g.holdings(owner), g.production_flows(owner)),
    ensures
        first == second,
        entries_of(first) == entries_of(second),
{
}

/// Committing a turn twice commits its flows twice: after two turns over
/// the same tiles, every stock has moved by twice the net flow of one turn.
pub proof fn law_two_turns_commit_flows_twice(g0: GameData, g1: GameData, g2: GameData, owner: usize)
    requires
        turn_fits(g0.holdings(owner), g0.production_flows(owner)),
        turn_fits(g1.holdings(owner), g1.production_flows(owner)),
        g1.tiles == g0.tiles,
        g1.holdings(owner) == next_holdings(g0.holdings(owner), g0.production_flows(owner)),
        g2.tiles == g1.tiles,
        g2.holdings(owner) == next_holdings(g1.holdings(owner), g1.production_flows(owner)),
    ensures
        forall|r: Resource|
            #[trigger] g2.holdings(owner).contains_key(r) == (g0.holdings(owner).contains_key(r)
                || touches(g0.production_flows(owner), r)),
        forall|r: Resource|
            #[trigger] held(g2.holdings(owner), r) == held(g0.holdings(owner), r) + 2 * net_flow(
                g0.production_flows(owner),
                r,
            ),
{
    let flows = g0.production_flows(owner);
    let h0 = g0.holdings(owner);
    let h1 = g1.holdings(owner);
    assert(g1.production_flows(owner) == flows);
    assert forall|r: Resource| #[trigger]
        held(g2.holdings(owner), r) == held(h0, r) + 2 * net_flow(flows, r) by {
        assert(i32::MIN <= held(h0, r) + gross_in(flows, r) - gross_out(flows, r) <= i32::MAX);
        assert(i32::MIN <= held(h1, r) + gross_in(flows, r) - gross_out(flows, r) <= i32::MAX);
        if !h0.contains_key(r) && !touches(flows, r) {
            lemma_untouched(flows, r);
        }
    }
}

/// A conversion of one `a` into one `b`, run at scale `s` among flows that
/// move neither, lowers the stock of `a` by exactly `s` and raises that of
/// `b` by exactly `s`, whatever the stocks were before.
pub proof fn law_conversion_moves_scale(
    holdings: Map<Resource, i32>,
    before: Seq<Flow>,
    sr: ScaledValidRecipe,
    after: Seq<Flow>,
    a: Resource,
    b: Resource,
)
    requires
        a != b,
        recipe_deltas(sr.valid_recipe) == seq![(a, -1i32), (b, 1i32)],
        0 <= sr.scale,
        !touches(before, a),
        !touches(before, b),
        !touches(after, a),
        !touches(after, b),
        turn_fits(holdings, before + scaled_flows(sr) + after),
    ensures
        held(next_holdings(holdings, before + scaled_flows(sr) + after), a) == held(holdings, a)
            - sr.scale,
        held(next_holdings(holdings, before + scaled_flows(sr) + after), b) == held(holdings, b)
            + sr.scale,
{
    let mid = scaled_flows(sr);
    let flows = before + mid + after;
    let s = sr.scale as int;
    lemma_gross_concat(before + mid, after, a);
    lemma_gross_concat(before, mid, a);
    lemma_gross_concat(before + mid, after, b);
    lemma_gross_concat(before, mid, b);
    lemma_untouched(before, a);
    lemma_untouched(before, b);
    lemma_untouched(after, a);
    lemma_untouched(after, b);
    assert(i32::MIN <= held(holdings, a) + gross_in(flows, a) - gross_out(flows, a) <= i32::MAX);
    assert(i32::MIN <= held(holdings, b) + gross_in(flows, b) - gross_out(flows, b) <= i32::MAX);
    if s == 0 {
        assert(mid =~= Seq::<Flow>::empty());
    } else {
        let first: Seq<Flow> = seq![(a, -s)];
        assert(mid =~= first.push((b, s)));
        assert(first =~= Seq::<Flow>::empty().push((a, -s)));
        lemma_gross_push(Seq::<Flow>::empty(), (a, -s), a);
        lemma_gross_push(Seq::<Flow>::empty(), (a, -s), b);
        lemma_gross_push(first, (b, s), a);
        lemma_gross_push(first, (b, s), b);
        assert(gross_in(mid, a) == 0 && gross_out(mid, a) == s);
        assert(gross_in(mid, b) == s && gross_out(mid, b) == 0);
        assert(touches(mid, a)) by {
            assert(mid[0].0 == a);
        }
        assert(touches(mid, b)) by {
            assert(mid[1].0 == b);
        }
    }
}

/// A turn commits the ledger: the resources after the turn are those of the
/// ledger, each at its line's quantity plus what comes in less what goes out.
pub proof fn law_turn_commits_report(holdings: Map<Resource, i32>, flows: Seq<Flow>)
    requires
        crate::flow::fits_i32(flows),
        turn_fits(holdings, flows),
    ensures
        next_holdings(holdings, flows).dom() == stock_report(holdings, flows).dom(),
        forall|r: Resource|
            #[trigger] stock_report(holdings, flows).contains_key(r) ==> next_holdings(
                holdings,
                flows,
            )[r] == stock_report(holdings, flows)[r].quantity + stock_report(holdings, flows)[r].gross_in
                - stock_report(holdings, flows)[r].gross_out,
{
    assert(next_holdings(holdings, flows).dom() =~= stock_report(holdings, flows).dom());
    assert forall|r: Resource| #[trigger]
        stock_report(holdings, flows).contains_key(r) implies next_holdings(holdings, flows)[r]
        == stock_report(holdings, flows)[r].quantity + stock_report(holdings, flows)[r].gross_in
        - stock_report(holdings, flows)[r].gross_out by {
        crate::flow::lemma_gross_nonneg(flows, r);
        assert(gross_in(flows, r) <= i32::MAX);
        assert(gross_out(flows, r) <= i32::MAX);
        assert(i32::MIN <= held(holdings, r) + gross_in(flows, r) - gross_out(flows, r) <= i32::MAX);
    }
}

/// A ledger, listed, comes in the resource order: strictly increasing
/// ordinals, each entry a line of the map, each line of the map listed.
pub proof fn law_listing_in_resource_order<V>(m: Map<Resource, V>)
    ensures
        forall|i: int, j: int|
            0 <= i < j < entries_of(m).len() ==> ordinal(#[trigger] entries_of(m)[i].0) < ordinal(
                #[trigger] entries_of(m)[j].0,
            ),
        forall|i: int|
            0 <= i < entries_of(m).len() ==> m.contains_key((#[trigger] entries_of(m)[i]).0)
                && m[entries_of(m)[i].0] == entries_of(m)[i].1,
        forall|r: Resource|
            m.contains_key(r) ==> exists|i: int|
                0 <= i < entries_of(m).len() && (#[trigger] entries_of(m)[i]).0 == r,
{
    crate::resource::lemma_ordinal_bijection();
    lemma_entries_below(m, RESOURCE_COUNT as int);
    assert forall|r: Resource| m.contains_key(r) implies exists|i: int|
        0 <= i < entries_of(m).len() && (#[trigger] entries_of(m)[i]).0 == r by {
        let es = crate::resource_map::entries_below(m, RESOURCE_COUNT as int);
        assert(ordinal(r) < RESOURCE_COUNT);
        let i = choose|i: int| 0 <= i < es.len() && (#[trigger] es[i]).0 == r;
        assert(entries_of(m)[i].0 == r);
    }
}

} // verus!
