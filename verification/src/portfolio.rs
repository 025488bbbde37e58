//! The portfolio data model: a tree of asset groups and stock holdings,
//! together with the bounds under which the report's arithmetic stays in
//! machine range.

use vstd::prelude::*;
use crate::decimal::{round_half_away, trunc_div, Decimal, UNIT, UNITS_LIMIT};

verus! {

/// A leaf position held as a discrete share count.
pub struct StockHolding {
    pub current_shares: Decimal,
    pub target_shares: Decimal,
}

/// What an allocation node holds: a stock position, or a group of child
/// allocations.
pub enum Holding {
    Stock(StockHolding),
    Group(Vec<AssetAllocation>),
}

/// One node of the asset tree.
pub struct AssetAllocation {
    pub full_name: String,
    pub expected_weight: Decimal,
    pub current_value: Decimal,
    pub target_value: Decimal,
    pub buy_blocked: bool,
    pub sell_blocked: bool,
    pub holding: Holding,
}

/// The root of the report: top-level assets plus portfolio-wide amounts.
pub struct Portfolio {
    pub currency: String,
    pub assets: Vec<AssetAllocation>,
    pub total_value: Decimal,
    pub free_assets: Decimal,
    pub min_free_assets: Decimal,
}

/// The expected value of a node, in units: the parent's expected value
/// multiplied by the node's expected weight.
pub open spec fn expected_value_of(denom: int, a: AssetAllocation) -> int {
    round_half_away(denom * a.expected_weight@, UNIT as int)
}

/// A stock node's share counts, and their difference, fit the integer type
/// they are displayed through. A group node puts no such bound.
pub open spec fn stock_in_range(a: AssetAllocation) -> bool {
    match a.holding {
        Holding::Stock(h) => {
            &&& h.current_shares.wf()
            &&& h.target_shares.wf()
            &&& -2_147_483_648 <= trunc_div(h.current_shares@, UNIT as int) <= 2_147_483_647
            &&& -2_147_483_648 <= trunc_div(h.target_shares@, UNIT as int) <= 2_147_483_647
            &&& -2_147_483_648 <= trunc_div(h.target_shares@, UNIT as int) - trunc_div(
                h.current_shares@,
                UNIT as int,
            ) <= 2_147_483_647
        },
        Holding::Group(_) => true,
    }
}

/// Every amount read while rendering the node against the denominator
/// `denom` stays in machine range, down through the whole subtree.
pub open spec fn renderable_node(a: AssetAllocation, denom: int) -> bool
    decreases a,
{
    &&& a.expected_weight.wf()
    &&& a.current_value.wf()
    &&& a.target_value.wf()
    &&& -(UNITS_LIMIT as int) * (UNIT as int) <= denom * a.expected_weight@ <= (UNITS_LIMIT
        as int) * (UNIT as int)
    &&& -(UNITS_LIMIT as int) <= a.target_value@ - a.current_value@ <= UNITS_LIMIT as int
    &&& stock_in_range(a)
    &&& match a.holding {
        Holding::Stock(_) => true,
        Holding::Group(children) => renderable_nodes(children@, expected_value_of(denom, a)),
    }
}

/// [`renderable_node`], for every node of a sequence of siblings.
pub open spec fn renderable_nodes(s: Seq<AssetAllocation>, denom: int) -> bool
    decreases s,
{
    forall|i: int| 0 <= i < s.len() ==> renderable_node(#[trigger] s[i], denom)
}

/// The height of a node: one for a stock, one more than the tallest child
/// for a group.
pub open spec fn node_height(a: AssetAllocation) -> nat
    decreases a,
{
    match a.holding {
        Holding::Stock(_) => 1,
        Holding::Group(children) => 1 + nodes_height(children@),
    }
}

/// The height of the tallest node in a sequence of siblings.
pub open spec fn nodes_height(s: Seq<AssetAllocation>) -> nat
    decreases s,
{
    if s.len() == 0 {
        0
    } else if node_height(s[0]) >= nodes_height(s.drop_first()) {
        node_height(s[0])
    } else {
        nodes_height(s.drop_first())
    }
}

/// No sibling is taller than the sequence's height.
pub proof fn lemma_nodes_height_ge(s: Seq<AssetAllocation>, i: int)
    requires
        0 <= i < s.len(),
    ensures
        node_height(s[i]) <= nodes_height(s),
    decreases s.len(),
{
    if i > 0 {
        lemma_nodes_height_ge(s.drop_first(), i - 1);
        assert(s.drop_first()[i - 1] == s[i]);
    }
}

/// Every amount read while rendering the whole portfolio stays in machine
/// range, and the tree is shallow enough for its indentation to be computed.
pub open spec fn renderable_portfolio(p: Portfolio) -> bool {
    &&& p.total_value.wf()
    &&& p.free_assets.wf()
    &&& p.min_free_assets.wf()
    &&& -(UNITS_LIMIT as int) <= p.total_value@ - p.min_free_assets@ <= UNITS_LIMIT as int
    &&& renderable_nodes(p.assets@, p.total_value@ - p.min_free_assets@)
    &&& 2 * nodes_height(p.assets@) + 2 <= usize::MAX
}

} // verus!
