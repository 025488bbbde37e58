//! The allocation renderer: weight computation and the formatting rules that
//! turn numeric state into report text.

use vstd::prelude::*;
use crate::decimal::{abs_int, round_half_away, trunc_div, Decimal, UNIT, UNITS_LIMIT};
use crate::decimal::{lemma_round_half_away_bound, round_div};
use crate::text::{dec_digits, digit_lit, sep_str, signed_str, spaces};
use crate::text::{push_digits, push_signed, push_spaces, separated_i64};
use crate::style::{blue_spec, bold_spec, green_spec, red_spec};
use crate::style::{paint_blue, paint_bold, paint_green, paint_red};
use crate::portfolio::{expected_value_of, renderable_node, renderable_nodes};
use crate::portfolio::{node_height, lemma_nodes_height_ge};
use crate::portfolio::{AssetAllocation, Holding, Portfolio};

verus! {

/// A node's weight relative to a denominator: the exact ratio of the two
/// amounts, or the sentinel used when the denominator is zero.
#[derive(Clone, Copy, Debug, PartialEq, Eq, Structural)]
pub enum Weight {
    Infinite,
    Ratio { num: i128, den: i128 },
}

impl Weight {
    /// The ratio's parts stay in machine range, with a positive denominator.
    pub open spec fn wf(&self) -> bool {
        match *self {
            Weight::Infinite => true,
            Weight::Ratio { num, den } => {
                &&& 0 < den <= UNITS_LIMIT
                &&& -(UNITS_LIMIT as int) <= num <= UNITS_LIMIT as int
            },
        }
    }

    /// The weight standing for the plain decimal fraction `w`, as used for a
    /// node's expected weight.
    pub fn of_decimal(w: &Decimal) -> (r: Weight)
        requires
            w.wf(),
        ensures
            r == fraction_weight(w@),
            r.wf(),
    {
        Weight::Ratio { num: w.units, den: UNIT }
    }
}

/// The weight of value `v` against denominator `d`: infinite when `d` is
/// zero, otherwise the exact ratio `v / d` with a positive denominator.
pub open spec fn weight_of(v: int, d: int) -> Weight {
    if d == 0 {
        Weight::Infinite
    } else if d > 0 {
        Weight::Ratio { num: v as i128, den: d as i128 }
    } else {
        Weight::Ratio { num: (-v) as i128, den: (-d) as i128 }
    }
}

/// The weight standing for the plain decimal fraction `w`.
pub open spec fn fraction_weight(w: int) -> Weight {
    Weight::Ratio { num: w as i128, den: UNIT as i128 }
}

/// The relative weight of an asset value against the expected total value at
/// its level: the sentinel infinite weight when the denominator is exactly
/// zero, otherwise the exact ratio of the two.
pub fn get_weight(asset_value: &Decimal, expected_total_value: &Decimal) -> (r: Weight)
    requires
        asset_value.wf(),
        expected_total_value.wf(),
    ensures
        r == weight_of(asset_value@, expected_total_value@),
        r.wf(),
{
    if expected_total_value.is_zero() {
        Weight::Infinite
    } else if expected_total_value.units > 0 {
        Weight::Ratio { num: asset_value.units, den: expected_total_value.units }
    } else {
        Weight::Ratio { num: -asset_value.units, den: -expected_total_value.units }
    }
}

/// A permille count `p` rendered as a percentage with one decimal place, as
/// in `947` read as `"94.7%"`.
pub open spec fn permille_str(p: int) -> Seq<char> {
    (if p < 0 {
        "-"@
    } else {
        Seq::<char>::empty()
    }) + dec_digits((abs_int(p) / 10) as nat) + "."@ + digit_lit(abs_int(p) % 10) + "%"@
}

/// What [`format_weight`] produces: the infinity sign for the sentinel,
/// otherwise the ratio times one hundred, rounded to one decimal place
/// (halves away from zero) and suffixed with a percent sign.
pub open spec fn format_weight_spec(w: Weight) -> Seq<char> {
    match w {
        Weight::Infinite => "\u{221e}"@,
        Weight::Ratio { num, den } => permille_str(round_half_away(1000 * num, den as int)),
    }
}

/// Renders a weight as a percentage with one decimal place, or as the
/// infinity sign for the sentinel infinite weight.
pub fn format_weight(w: &Weight) -> (r: String)
    requires
        w.wf(),
    ensures
        r@ == format_weight_spec(*w),
{
    match w {
        Weight::Infinite => String::from_str("\u{221e}"),
        Weight::Ratio { num, den } => {
            let p: i128 = round_div(1000 * *num, *den);
            proof {
                assert(-(UNITS_LIMIT as int) * (UNIT as int) <= 1000 * (*num as int) <= (
                UNITS_LIMIT as int) * (UNIT as int)) by (nonlinear_arith)
                    requires
                        -(UNITS_LIMIT as int) <= *num as int <= UNITS_LIMIT as int,
                        UNIT == 1_000_000_000i128,
                        UNITS_LIMIT == 1_000_000_000_000_000_000_000_000_000i128,
                ;
                assert(-(1000 * (UNITS_LIMIT as int)) * (*den as int) <= 1000 * (*num as int) <= (
                1000 * (UNITS_LIMIT as int)) * (*den as int)) by (nonlinear_arith)
                    requires
                        -(UNITS_LIMIT as int) <= *num as int <= UNITS_LIMIT as int,
                        0 < *den as int,
                ;
                lemma_round_half_away_bound(
                    1000 * (*num as int),
                    *den as int,
                    1000 * (UNITS_LIMIT as int),
                );
            }
            let mut out = String::new();
            let mag: u128 = if p < 0 {
                out.append("-");
                (-p) as u128
            } else {
                p as u128
            };
            push_digits(&mut out, mag / 10);
            out.append(".");
            push_digits(&mut out, mag % 10);
            out.append("%");
            proof {
                assert(out@ =~= format_weight_spec(*w));
            }
            out
        },
    }
}

/// What [`format_cash`] produces: the amount rounded to the nearest whole
/// (halves away from zero) with thousands separators, prefixed with a dollar
/// sign for USD, suffixed with the ruble sign for RUB, and suffixed with a
/// space and the raw code for any other currency.
pub open spec fn cash_spec(currency: Seq<char>, amount: int) -> Seq<char> {
    let whole = round_half_away(amount, UNIT as int);
    if currency == "USD"@ {
        "$"@ + sep_str(whole)
    } else if currency == "RUB"@ {
        sep_str(whole) + "\u{20bd}"@
    } else {
        sep_str(whole) + " "@ + currency
    }
}

/// Renders a cash amount in the given currency.
pub fn format_cash(currency: &str, amount: &Decimal) -> (r: String)
    requires
        amount.wf(),
    ensures
        r@ == cash_spec(currency@, amount@),
{
    let whole: i64 = amount.round_units();
    let sep = separated_i64(whole);
    let cur = String::from_str(currency);
    let usd = String::from_str("USD");
    let rub = String::from_str("RUB");
    let mut out = String::new();
    if cur == usd {
        out.append("$");
        out.append(sep.as_str());
    } else if cur == rub {
        out.append(sep.as_str());
        out.append("\u{20bd}");
    } else {
        out.append(sep.as_str());
        out.append(" ");
        out.append(currency);
    }
    proof {
        assert(out@ =~= cash_spec(currency@, amount@));
    }
    out
}

/// What [`format_shares`] produces: the share count suffixed with the share
/// unit symbol, negatives with a leading minus, and a plus sign forced onto
/// non-negative counts when `with_sign` is set.
pub open spec fn shares_str(n: int, with_sign: bool) -> Seq<char> {
    signed_str(n, with_sign) + "s"@
}

/// Renders an integer share count.
pub fn format_shares(shares: i32, with_sign: bool) -> (r: String)
    ensures
        r@ == shares_str(shares as int, with_sign),
{
    let mut out = String::new();
    push_signed(&mut out, shares as i64, with_sign);
    out.append("s");
    out
}

/// The opening of a node's line: the bullet right-aligned in a field of
/// width `2 · depth + 1`, the bold name, any restriction markers, the
/// literal separator, and for a stock the current share count.
pub open spec fn bullet_seg(a: AssetAllocation, depth: nat) -> Seq<char> {
    spaces(2 * depth) + "\u{2022}"@ + " "@ + bold_spec(a.full_name@) + (if a.buy_blocked {
        " "@ + blue_spec("[buy blocked]"@)
    } else {
        Seq::<char>::empty()
    }) + (if a.sell_blocked {
        " "@ + blue_spec("[sell blocked]"@)
    } else {
        Seq::<char>::empty()
    }) + " -"@ + (match a.holding {
        Holding::Stock(h) => " "@ + shares_str(trunc_div(h.current_shares@, UNIT as int), false),
        Holding::Group(_) => Seq::<char>::empty(),
    })
}

/// The current state of a node: its current weight and current value.
pub open spec fn current_seg(a: AssetAllocation, denom: int, currency: Seq<char>) -> Seq<char> {
    " "@ + format_weight_spec(weight_of(a.current_value@, denom)) + " ("@ + cash_spec(
        currency,
        a.current_value@,
    ) + ")"@
}

/// The planned trade of a stock node whose target value differs from its
/// current value: the signed share change and the absolute value change,
/// green for a buy and red otherwise. A group node never shows this segment.
pub open spec fn change_seg(a: AssetAllocation, currency: Seq<char>) -> Seq<char> {
    if a.target_value@ == a.current_value@ {
        Seq::<char>::empty()
    } else {
        match a.holding {
            Holding::Stock(h) => {
                let text = shares_str(
                    trunc_div(h.target_shares@, UNIT as int) - trunc_div(
                        h.current_shares@,
                        UNIT as int,
                    ),
                    true,
                ) + " ("@ + cash_spec(currency, abs_int(a.target_value@ - a.current_value@))
                    + ")"@;
                " "@ + (if h.target_shares@ > h.current_shares@ {
                    green_spec(text)
                } else {
                    red_spec(text)
                })
            },
            Holding::Group(_) => Seq::<char>::empty(),
        }
    }
}

/// The arrow toward a node's target state, shown only when the target value
/// differs from the current value.
pub open spec fn arrow_seg(a: AssetAllocation, denom: int, currency: Seq<char>) -> Seq<char> {
    if a.target_value@ == a.current_value@ {
        Seq::<char>::empty()
    } else {
        " \u{2192} "@ + format_weight_spec(weight_of(a.target_value@, denom)) + " ("@ + cash_spec(
            currency,
            a.target_value@,
        ) + ")"@
    }
}

/// The expected state of a node: its expected weight, taken from the node
/// itself, and the expected value computed against the denominator.
pub open spec fn expected_seg(a: AssetAllocation, denom: int, currency: Seq<char>) -> Seq<char> {
    " / "@ + format_weight_spec(fraction_weight(a.expected_weight@)) + " ("@ + cash_spec(
        currency,
        expected_value_of(denom, a),
    ) + ")"@
}

/// The trailing colon announcing a group's children.
pub open spec fn tail_seg(a: AssetAllocation) -> Seq<char> {
    match a.holding {
        Holding::Stock(_) => Seq::<char>::empty(),
        Holding::Group(_) => ":"@,
    }
}

/// One node's full report line.
pub open spec fn line_spec(a: AssetAllocation, denom: int, currency: Seq<char>, depth: nat)
    -> Seq<char> {
    bullet_seg(a, depth) + current_seg(a, denom, currency) + change_seg(a, currency) + arrow_seg(
        a,
        denom,
        currency,
    ) + expected_seg(a, denom, currency) + tail_seg(a)
}

/// The report lines of one node and, beneath a group, of all of its
/// descendants, in display order.
pub open spec fn node_lines_spec(a: AssetAllocation, denom: int, currency: Seq<char>, depth: nat)
    -> Seq<Seq<char>>
    decreases a,
{
    match a.holding {
        Holding::Group(children) => seq![line_spec(a, denom, currency, depth)] + nodes_lines_spec(
            children@,
            expected_value_of(denom, a),
            currency,
            depth + 1,
        ),
        Holding::Stock(_) => seq![line_spec(a, denom, currency, depth)],
    }
}

/// The report lines of a sequence of sibling nodes, in order.
pub open spec fn nodes_lines_spec(
    s: Seq<AssetAllocation>,
    denom: int,
    currency: Seq<char>,
    depth: nat,
) -> Seq<Seq<char>>
    decreases s,
{
    if s.len() == 0 {
        Seq::<Seq<char>>::empty()
    } else {
        node_lines_spec(s[0], denom, currency, depth) + nodes_lines_spec(
            s.drop_first(),
            denom,
            currency,
            depth,
        )
    }
}

/// Extending a rendered prefix of siblings by one node appends exactly that
/// node's lines.
pub proof fn lemma_nodes_lines_take(
    s: Seq<AssetAllocation>,
    denom: int,
    currency: Seq<char>,
    depth: nat,
    i: int,
)
    requires
        0 <= i < s.len(),
    ensures
        nodes_lines_spec(s.take(i + 1), denom, currency, depth) == nodes_lines_spec(
            s.take(i),
            denom,
            currency,
            depth,
        ) + node_lines_spec(s[i], denom, currency, depth),
    decreases i,
{
    if i == 0 {
        assert(s.take(0) =~= Seq::<AssetAllocation>::empty());
        assert(s.take(1)[0] == s[0]);
        assert(s.take(1).drop_first() =~= Seq::<AssetAllocation>::empty());
        assert(nodes_lines_spec(s.take(1), denom, currency, depth) =~= nodes_lines_spec(
            s.take(0),
            denom,
            currency,
            depth,
        ) + node_lines_spec(s[0], denom, currency, depth));
    } else {
        let t = s.drop_first();
        lemma_nodes_lines_take(t, denom, currency, depth, i - 1);
        assert(s.take(i + 1)[0] == s[0]);
        assert(s.take(i + 1).drop_first() =~= t.take(i));
        assert(s.take(i)[0] == s[0]);
        assert(s.take(i).drop_first() =~= t.take(i - 1));
        assert(t[i - 1] == s[i]);
        assert(nodes_lines_spec(s.take(i + 1), denom, currency, depth) =~= nodes_lines_spec(
            s.take(i),
            denom,
            currency,
            depth,
        ) + node_lines_spec(s[i], denom, currency, depth));
    }
}

/// Appends the opening of a node's line: indentation, bullet, bold name,
/// restriction markers, separator, and a stock's current share count.
fn push_bullet(line: &mut String, asset: &AssetAllocation, depth: usize)
    requires
        crate::portfolio::stock_in_range(*asset),
    ensures
        final(line)@ == old(line)@ + bullet_seg(*asset, depth as nat),
{
    push_spaces(line, 2 * (depth as u128));
    line.append("\u{2022}");
    line.append(" ");
    let name = paint_bold(asset.full_name.as_str());
    line.append(name.as_str());
    if asset.buy_blocked {
        line.append(" ");
        let marker = paint_blue("[buy blocked]");
        line.append(marker.as_str());
    }
    if asset.sell_blocked {
        line.append(" ");
        let marker = paint_blue("[sell blocked]");
        line.append(marker.as_str());
    }
    line.append(" -");
    if let Holding::Stock(h) = &asset.holding {
        line.append(" ");
        let count = format_shares(h.current_shares.to_i32(), false);
        line.append(count.as_str());
    }
    proof {
        assert(line@ =~= old(line)@ + bullet_seg(*asset, depth as nat));
    }
}

/// Appends a node's current weight and current value.
fn push_current(
    line: &mut String,
    asset: &AssetAllocation,
    expected_total_value: &Decimal,
    currency: &str,
)
    requires
        asset.current_value.wf(),
        expected_total_value.wf(),
    ensures
        final(line)@ == old(line)@ + current_seg(*asset, expected_total_value@, currency@),
{
    line.append(" ");
    let weight = format_weight(&get_weight(&asset.current_value, expected_total_value));
    line.append(weight.as_str());
    line.append(" (");
    let cash = format_cash(currency, &asset.current_value);
    line.append(cash.as_str());
    line.append(")");
    proof {
        assert(line@ =~= old(line)@ + current_seg(*asset, expected_total_value@, currency@));
    }
}

/// Appends a stock node's colored share and value change, when its target
/// value differs from its current value.
fn push_changes(line: &mut String, asset: &AssetAllocation, currency: &str)
    requires
        crate::portfolio::stock_in_range(*asset),
        asset.current_value.wf(),
        asset.target_value.wf(),
        -(UNITS_LIMIT as int) <= asset.target_value@ - asset.current_value@ <= UNITS_LIMIT as int,
    ensures
        final(line)@ == old(line)@ + change_seg(*asset, currency@),
{
    if !(asset.target_value == asset.current_value) {
        if let Holding::Stock(h) = &asset.holding {
            let shares_change: i32 = h.target_shares.to_i32() - h.current_shares.to_i32();
            let mut changes = format_shares(shares_change, true);
            changes.append(" (");
            let value_change = asset.target_value.minus(&asset.current_value);
            let change_cash = format_cash(currency, &value_change.abs());
            changes.append(change_cash.as_str());
            changes.append(")");
            line.append(" ");
            let painted = if h.target_shares.gt(&h.current_shares) {
                paint_green(changes.as_str())
            } else {
                paint_red(changes.as_str())
            };
            line.append(painted.as_str());
        }
    }
    proof {
        assert(line@ =~= old(line)@ + change_seg(*asset, currency@));
    }
}

/// Appends the arrow toward a node's target weight and value, when its
/// target value differs from its current value.
fn push_arrow(
    line: &mut String,
    asset: &AssetAllocation,
    expected_total_value: &Decimal,
    currency: &str,
)
    requires
        asset.target_value.wf(),
        expected_total_value.wf(),
    ensures
        final(line)@ == old(line)@ + arrow_seg(*asset, expected_total_value@, currency@),
{
    if !(asset.target_value == asset.current_value) {
        line.append(" \u{2192} ");
        let weight = format_weight(&get_weight(&asset.target_value, expected_total_value));
        line.append(weight.as_str());
        line.append(" (");
        let cash = format_cash(currency, &asset.target_value);
        line.append(cash.as_str());
        line.append(")");
    }
    proof {
        assert(line@ =~= old(line)@ + arrow_seg(*asset, expected_total_value@, currency@));
    }
}

/// Appends a node's expected weight and expected value, and a group's
/// trailing colon.
fn push_expected(
    line: &mut String,
    asset: &AssetAllocation,
    expected_total_value: &Decimal,
    expected_value: &Decimal,
    currency: &str,
)
    requires
        asset.expected_weight.wf(),
        expected_value.wf(),
        expected_value@ == expected_value_of(expected_total_value@, *asset),
    ensures
        final(line)@ == old(line)@ + expected_seg(*asset, expected_total_value@, currency@)
            + tail_seg(*asset),
{
    line.append(" / ");
    let weight = format_weight(&Weight::of_decimal(&asset.expected_weight));
    line.append(weight.as_str());
    line.append(" (");
    let cash = format_cash(currency, expected_value);
    line.append(cash.as_str());
    line.append(")");
    if let Holding::Group(_) = &asset.holding {
        line.append(":");
    }
    proof {
        assert(line@ =~= old(line)@ + expected_seg(*asset, expected_total_value@, currency@)
            + tail_seg(*asset));
    }
}

/// Builds one node's full report line.
fn render_line(
    asset: &AssetAllocation,
    expected_total_value: &Decimal,
    expected_value: &Decimal,
    currency: &str,
    depth: usize,
) -> (line: String)
    requires
        expected_total_value.wf(),
        renderable_node(*asset, expected_total_value@),
        expected_value.wf(),
        expected_value@ == expected_value_of(expected_total_value@, *asset),
    ensures
        line@ == line_spec(*asset, expected_total_value@, currency@, depth as nat),
{
    let mut line = String::new();
    push_bullet(&mut line, asset, depth);
    push_current(&mut line, asset, expected_total_value, currency);
    push_changes(&mut line, asset, currency);
    push_arrow(&mut line, asset, expected_total_value, currency);
    push_expected(&mut line, asset, expected_total_value, expected_value, currency);
    proof {
        assert(line@ =~= line_spec(*asset, expected_total_value@, currency@, depth as nat));
    }
    line
}

/// Renders one node and, in display order beneath it, every node of its
/// subtree, appending one report line per node.
pub fn render_asset(
    asset: &AssetAllocation,
    expected_total_value: &Decimal,
    currency: &str,
    depth: usize,
    lines: &mut Vec<String>,
)
    requires
        expected_total_value.wf(),
        renderable_node(*asset, expected_total_value@),
        2 * depth + 2 * node_height(*asset) <= usize::MAX,
    ensures
        final(lines).deep_view() == old(lines).deep_view() + node_lines_spec(
            *asset,
            expected_total_value@,
            currency@,
            depth as nat,
        ),
    decreases *asset,
{
    let expected_value = expected_total_value.times(&asset.expected_weight);
    let line = render_line(asset, expected_total_value, &expected_value, currency, depth);
    lines.push(line);
    proof {
        assert(lines.deep_view() =~= old(lines).deep_view() + seq![
            line_spec(*asset, expected_total_value@, currency@, depth as nat),
        ]);
    }
    if let Holding::Group(children) = &asset.holding {
        let mut idx: usize = 0;
        while idx < children.len()
            invariant
                idx <= children.len(),
                expected_total_value.wf(),
                renderable_node(*asset, expected_total_value@),
                2 * depth + 2 * node_height(*asset) <= usize::MAX,
                asset.holding == Holding::Group(*children),
                expected_value.wf(),
                expected_value@ == expected_value_of(expected_total_value@, *asset),
                lines.deep_view() == old(lines).deep_view() + seq![
                    line_spec(*asset, expected_total_value@, currency@, depth as nat),
                ] + nodes_lines_spec(
                    children@.take(idx as int),
                    expected_value@,
                    currency@,
                    (depth + 1) as nat,
                ),
            decreases children.len() - idx,
        {
            proof {
                assert(renderable_nodes(children@, expected_value@));
                assert(renderable_node(children@[idx as int], expected_value@));
                lemma_nodes_height_ge(children@, idx as int);
                assert(decreases_to!(*asset => asset.holding));
                assert(decreases_to!(asset.holding => *children));
                assert(decreases_to!(*children => children@));
                assert(decreases_to!(children@ => children@[idx as int]));
            }
            render_asset(&children[idx], &expected_value, currency, depth + 1, lines);
            proof {
                lemma_nodes_lines_take(
                    children@,
                    expected_value@,
                    currency@,
                    (depth + 1) as nat,
                    idx as int,
                );
            }
            idx = idx + 1;
        }
        proof {
            assert(children@.take(children@.len() as int) =~= children@);
            assert(lines.deep_view() =~= old(lines).deep_view() + node_lines_spec(
                *asset,
                expected_total_value@,
                currency@,
                depth as nat,
            ));
        }
    }
}

/// For every value, a zero denominator yields the sentinel infinite weight,
/// never a computed ratio, and the sentinel renders as exactly the infinity
/// sign.
pub proof fn lemma_zero_denominator(v: int)
    ensures
        weight_of(v, 0) == Weight::Infinite,
        format_weight_spec(weight_of(v, 0)) == "\u{221e}"@,
{
}

/// The ratio `v / d` (with `d` nonzero) in permille, rounded to the nearest,
/// halves away from zero.
pub open spec fn ratio_permille(v: int, d: int) -> int {
    if d > 0 {
        round_half_away(1000 * v, d)
    } else {
        round_half_away(1000 * (-v), -d)
    }
}

/// For every nonzero denominator, the computed weight renders as the exact
/// ratio of the two amounts in percent, rounded to one decimal place and
/// suffixed with a percent sign.
pub proof fn lemma_nonzero_weight_formats(v: Decimal, d: Decimal)
    requires
        v.wf(),
        d.wf(),
        d@ != 0,
    ensures
        format_weight_spec(weight_of(v@, d@)) == permille_str(ratio_permille(v@, d@)),
{
}

/// A group node never shows a share or value change, even when its target
/// value differs from its current value.
pub proof fn lemma_group_no_change_segment(a: AssetAllocation, currency: Seq<char>)
    requires
        a.holding is Group,
    ensures
        change_seg(a, currency) == Seq::<char>::empty(),
{
}

/// The arrow toward the target state is shown exactly when the target value
/// differs from the current value.
pub proof fn lemma_arrow_iff_target_differs(a: AssetAllocation, denom: int, currency: Seq<char>)
    ensures
        a.target_value@ == a.current_value@ ==> arrow_seg(a, denom, currency) == Seq::<
            char,
        >::empty(),
        a.target_value@ != a.current_value@ ==> arrow_seg(a, denom, currency) != Seq::<
            char,
        >::empty(),
{
    if a.target_value@ != a.current_value@ {
        reveal_strlit(" \u{2192} ");
        assert(arrow_seg(a, denom, currency).len() >= 3);
    }
}

/// A node at tree depth `d` opens its line with its bullet right-aligned in
/// a field of exactly `2·d + 1` characters: `2·d` spaces, then the bullet.
pub proof fn lemma_indentation(a: AssetAllocation, denom: int, currency: Seq<char>, depth: nat)
    ensures
        node_lines_spec(a, denom, currency, depth).len() >= 1,
        node_lines_spec(a, denom, currency, depth)[0] == line_spec(a, denom, currency, depth),
        line_spec(a, denom, currency, depth).take(2 * depth + 1 as int) == spaces(2 * depth).push(
            '\u{2022}',
        ),
{
    crate::text::lemma_spaces_len(2 * depth);
    reveal_strlit("\u{2022}");
    assert(("\u{2022}"@).len() == 1);
    assert(line_spec(a, denom, currency, depth).take(2 * depth + 1 as int) =~= spaces(2 * depth).push(
        '\u{2022}',
    ));
}

/// A summary line: a bold label, a colon, and a cash amount.
pub open spec fn summary_line(label: Seq<char>, currency: Seq<char>, amount: int) -> Seq<char> {
    bold_spec(label) + ": "@ + cash_spec(currency, amount)
}

/// The whole report: every asset rendered against the portfolio's expected
/// assets value, then a blank line and the total-value and free-assets
/// summary.
pub open spec fn portfolio_lines_spec(p: Portfolio) -> Seq<Seq<char>> {
    let denom = p.total_value@ - p.min_free_assets@;
    nodes_lines_spec(p.assets@, denom, p.currency@, 0) + seq![
        Seq::<char>::empty(),
        summary_line("Total value"@, p.currency@, p.total_value@),
        summary_line("Free assets"@, p.currency@, p.free_assets@),
    ]
}

/// Renders the whole portfolio report, one entry per emitted line.
pub fn render_portfolio(portfolio: &Portfolio) -> (lines: Vec<String>)
    requires
        crate::portfolio::renderable_portfolio(*portfolio),
    ensures
        lines.deep_view() == portfolio_lines_spec(*portfolio),
{
    let expected_assets_value = portfolio.total_value.minus(&portfolio.min_free_assets);
    let mut lines: Vec<String> = Vec::new();
    proof {
        assert(lines.deep_view() =~= nodes_lines_spec(
            portfolio.assets@.take(0),
            expected_assets_value@,
            portfolio.currency@,
            0,
        ));
    }
    let mut i: usize = 0;
    while i < portfolio.assets.len()
        invariant
            i <= portfolio.assets.len(),
            crate::portfolio::renderable_portfolio(*portfolio),
            expected_assets_value.wf(),
            expected_assets_value@ == portfolio.total_value@ - portfolio.min_free_assets@,
            lines.deep_view() == nodes_lines_spec(
                portfolio.assets@.take(i as int),
                expected_assets_value@,
                portfolio.currency@,
                0,
            ),
        decreases portfolio.assets.len() - i,
    {
        proof {
            assert(renderable_nodes(portfolio.assets@, expected_assets_value@));
            assert(renderable_node(portfolio.assets@[i as int], expected_assets_value@));
            lemma_nodes_height_ge(portfolio.assets@, i as int);
        }
        render_asset(
            &portfolio.assets[i],
            &expected_assets_value,
            portfolio.currency.as_str(),
            0,
            &mut lines,
        );
        proof {
            lemma_nodes_lines_take(
                portfolio.assets@,
                expected_assets_value@,
                portfolio.currency@,
                0,
                i as int,
            );
        }
        i = i + 1;
    }
    proof {
        assert(portfolio.assets@.take(portfolio.assets@.len() as int) =~= portfolio.assets@);
    }
    lines.push(String::new());
    let mut total_line = paint_bold("Total value");
    total_line.append(": ");
    let total_cash = format_cash(portfolio.currency.as_str(), &portfolio.total_value);
    total_line.append(total_cash.as_str());
    lines.push(total_line);
    let mut free_line = paint_bold("Free assets");
    free_line.append(": ");
    let free_cash = format_cash(portfolio.currency.as_str(), &portfolio.free_assets);
    free_line.append(free_cash.as_str());
    lines.push(free_line);
    proof {
        assert(lines.deep_view() =~= portfolio_lines_spec(*portfolio));
    }
    lines
}

} // verus!
