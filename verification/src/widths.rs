use vstd::prelude::*;

verus! {

/// The bounds of a column whose width can shrink to fit the terminal.
#[derive(Clone, Copy, Debug)]
pub struct VariableColumnWidths {
    /// The smallest width the column may be given (its header's width).
    pub min: usize,
    /// The width that shows every cell of the column in full.
    pub desired: usize,
}

/// The maximal text widths of the `command` and `path` columns.
/// `None` means that the column is not truncated.
#[derive(Clone, Copy, Debug)]
pub struct TruncationWidths {
    pub command: Option<usize>,
    pub path: Option<usize>,
}

impl TruncationWidths {
    /// No truncation of any column.
    pub fn none() -> (r: Self)
        ensures
            r.command is None,
            r.path is None,
    {
        TruncationWidths { command: None, path: None }
    }
}

/// The truncation widths `w` are the (command, path) widths `spec`.
pub open spec fn widths_match(w: TruncationWidths, spec: (Option<int>, Option<int>)) -> bool {
    &&& (w.command matches Some(x) ==> spec.0 == Some(x as int))
    &&& (w.command is None ==> spec.0 is None)
    &&& (w.path matches Some(x) ==> spec.1 == Some(x as int))
    &&& (w.path is None ==> spec.1 is None)
}

/// `a - b`, but never below zero.
pub open spec fn saturating_diff(a: int, b: int) -> int {
    if a >= b {
        a - b
    } else {
        0
    }
}

/// The width of a single variable column that is alone: as much of the
/// available space as it wants, but never less than its minimum
/// nor more than its desired width.
pub open spec fn single_width(available: int, c: VariableColumnWidths) -> int {
    let grown = if available >= c.min { available } else { c.min as int };
    if grown <= c.desired {
        grown
    } else {
        c.desired as int
    }
}

/// The extra space (above its minimum) that the command column receives when both
/// variable columns are shown, the available space lies strictly between the sum of
/// the minima and the sum of the desired widths, and some column wants more space:
/// the extra space is shared in proportion to how much each column wants,
/// rounding the command column's share down.
pub open spec fn command_share(available: int, c: VariableColumnWidths, p: VariableColumnWidths) -> int {
    let extra = available - (c.min + p.min);
    let command_demand = saturating_diff(c.desired as int, c.min as int);
    let path_demand = saturating_diff(p.desired as int, p.min as int);
    extra * command_demand / (command_demand + path_demand)
}

/// The widths that `allocate_variable_widths` hands out, as a pair of (command, path).
pub open spec fn allocation(
    available: int,
    command: Option<VariableColumnWidths>,
    path: Option<VariableColumnWidths>,
) -> (Option<int>, Option<int>) {
    match (command, path) {
        (Some(c), Some(p)) => {
            let command_demand = saturating_diff(c.desired as int, c.min as int);
            let path_demand = saturating_diff(p.desired as int, p.min as int);
            if available <= c.min + p.min {
                (Some(c.min as int), Some(p.min as int))
            } else if available >= c.desired + p.desired {
                (Some(c.desired as int), Some(p.desired as int))
            } else if command_demand + path_demand == 0 {
                (Some(c.min as int), Some(p.min as int))
            } else {
                let share = command_share(available, c, p);
                (Some(c.min + share), Some(p.min + (available - (c.min + p.min) - share)))
            }
        },
        (Some(c), None) => (Some(single_width(available, c)), None),
        (None, Some(p)) => (None, Some(single_width(available, p))),
        (None, None) => (None, None),
    }
}

/// The arithmetic of `allocate_variable_widths` stays within `usize`.
pub open spec fn allocation_fits(
    available: int,
    command: Option<VariableColumnWidths>,
    path: Option<VariableColumnWidths>,
) -> bool {
    match (command, path) {
        (Some(c), Some(p)) => {
            let command_demand = saturating_diff(c.desired as int, c.min as int);
            let path_demand = saturating_diff(p.desired as int, p.min as int);
            &&& c.min + p.min <= usize::MAX
            &&& available > c.min + p.min ==> c.desired + p.desired <= usize::MAX
            &&& c.min + p.min < available < c.desired + p.desired ==> (available - (c.min
                + p.min)) * command_demand <= usize::MAX
        },
        _ => true,
    }
}

proof fn lemma_share_bounds(extra: int, command_demand: int, path_demand: int)
    requires
        extra >= 0,
        command_demand >= 0,
        path_demand >= 0,
        command_demand + path_demand > 0,
    ensures
        0 <= extra * command_demand / (command_demand + path_demand) <= extra,
{
    let total = command_demand + path_demand;
    assert(extra * command_demand >= 0) by (nonlinear_arith)
        requires
            extra >= 0,
            command_demand >= 0,
    ;
    assert(extra * command_demand <= extra * total) by (nonlinear_arith)
        requires
            extra >= 0,
            command_demand <= total,
    ;
    assert(extra * total / total == extra) by (nonlinear_arith)
        requires
            total > 0,
    ;
    assert(extra * command_demand / total <= extra * total / total) by (nonlinear_arith)
        requires
            extra * command_demand <= extra * total,
            total > 0,
    ;
    assert(extra * command_demand / total >= 0) by (nonlinear_arith)
        requires
            extra * command_demand >= 0,
            total > 0,
    ;
}

/// Distributes the `available` terminal width among the `command` and `path` columns.
///
/// A column that is not shown gets no width. A column that is shown alone gets the
/// available space, clamped between its minimum and its desired width. When both are
/// shown, both get their minimum if the space does not exceed the sum of the minima,
/// both get their desired width if the space covers the sum of those, both keep their
/// minimum if neither wants more than it, and otherwise the space above the minima is
/// shared in proportion to how far each column's desired width exceeds its minimum.
pub fn allocate_variable_widths(
    available: usize,
    command: Option<VariableColumnWidths>,
    path: Option<VariableColumnWidths>,
) -> (widths: TruncationWidths)
    requires
        allocation_fits(available as int, command, path),
    ensures
        widths_match(widths, allocation(available as int, command, path)),
{
    let mut widths = TruncationWidths::none();

    match (command, path) {
        (Some(command), Some(path)) => {
            let min_total = command.min + path.min;
            if available <= min_total {
                widths.command = Some(command.min);
                widths.path = Some(path.min);
                return widths;
            }
            let desired_total = command.desired + path.desired;
            if available >= desired_total {
                widths.command = Some(command.desired);
                widths.path = Some(path.desired);
                return widths;
            }
            let extra_available = available - min_total;
            let command_demand = command.desired.saturating_sub(command.min);
            let path_demand = path.desired.saturating_sub(path.min);
            let total_demand = command_demand + path_demand;

            if total_demand == 0 {
                widths.command = Some(command.min);
                widths.path = Some(path.min);
                return widths;
            }
            proof {
                lemma_share_bounds(extra_available as int, command_demand as int, path_demand as int);
            }
            let command_extra = extra_available * command_demand / total_demand;
            let path_extra = extra_available - command_extra;

            widths.command = Some(command.min + command_extra);
            widths.path = Some(path.min + path_extra);
        },
        (Some(command), None) => {
            let grown = if available >= command.min { available } else { command.min };
            widths.command = Some(if grown <= command.desired { grown } else { command.desired });
        },
        (None, Some(path)) => {
            let grown = if available >= path.min { available } else { path.min };
            widths.path = Some(if grown <= path.desired { grown } else { path.desired });
        },
        (None, None) => {},
    }

    widths
}

/// Law: when both variable columns are shown and neither minimum exceeds its desired
/// width, each column gets at least its minimum and at most its desired width.
pub proof fn lemma_both_widths_within_bounds(
    available: int,
    c: VariableColumnWidths,
    p: VariableColumnWidths,
)
    requires
        available >= 0,
        c.min <= c.desired,
        p.min <= p.desired,
    ensures
        ({
            let (cw, pw) = allocation(available, Some(c), Some(p));
            &&& c.min <= cw->0 <= c.desired
            &&& p.min <= pw->0 <= p.desired
        }),
{
    let cd = saturating_diff(c.desired as int, c.min as int);
    let pd = saturating_diff(p.desired as int, p.min as int);
    if c.min + p.min < available < c.desired + p.desired && cd + pd != 0 {
        let extra = available - (c.min + p.min);
        lemma_share_bounds(extra, cd, pd);
        let share = command_share(available, c, p);
        assert(share <= cd) by {
            assert(extra * cd <= (cd + pd) * cd) by (nonlinear_arith)
                requires
                    extra <= cd + pd,
                    cd >= 0,
            ;
            assert((cd + pd) * cd / (cd + pd) == cd) by (nonlinear_arith)
                requires
                    cd + pd > 0,
            ;
            assert(extra * cd / (cd + pd) <= (cd + pd) * cd / (cd + pd)) by (nonlinear_arith)
                requires
                    extra * cd <= (cd + pd) * cd,
                    cd + pd > 0,
            ;
        }
        assert(extra - share <= pd) by {
            assert(extra * cd / (cd + pd) * (cd + pd) > extra * cd - (cd + pd)) by (
            nonlinear_arith)
                requires
                    cd + pd > 0,
            ;
            assert((extra - cd) * (cd + pd) <= pd * (cd + pd)) by (nonlinear_arith)
                requires
                    extra - cd <= pd,
                    cd + pd > 0,
            ;
            assert((extra - share) * (cd + pd) < pd * (cd + pd) + (cd + pd)) by (nonlinear_arith)
                requires
                    share * (cd + pd) > extra * cd - (cd + pd),
                    extra <= cd + pd,
                    cd + pd > 0,
                    pd >= 0,
                    cd >= 0,
            ;
            assert(pd * (cd + pd) + (cd + pd) == (pd + 1) * (cd + pd)) by (nonlinear_arith);
            assert(extra - share < pd + 1) by (nonlinear_arith)
                requires
                    (extra - share) * (cd + pd) < (pd + 1) * (cd + pd),
                    cd + pd > 0,
            ;
        }
    }
}

/// Law: when both variable columns are shown and the available space lies strictly
/// between the sum of their minima and the sum of their desired widths, the two
/// widths together use exactly the available space.
pub proof fn lemma_both_widths_fill_available(
    available: int,
    c: VariableColumnWidths,
    p: VariableColumnWidths,
)
    requires
        c.min + p.min < available < c.desired + p.desired,
    ensures
        ({
            let (cw, pw) = allocation(available, Some(c), Some(p));
            cw->0 + pw->0 == available
        }),
{
}

/// Law: when both variable columns are shown and the space is shared, the command
/// column never receives more extra space than a path column that wants at least as
/// much: rounding always favours the path column.
pub proof fn lemma_share_favours_larger_demand(
    available: int,
    c: VariableColumnWidths,
    p: VariableColumnWidths,
)
    requires
        c.min + p.min < available < c.desired + p.desired,
        saturating_diff(c.desired as int, c.min as int) <= saturating_diff(
            p.desired as int,
            p.min as int,
        ),
    ensures
        ({
            let (cw, pw) = allocation(available, Some(c), Some(p));
            cw->0 - c.min <= pw->0 - p.min
        }),
{
    let cd = saturating_diff(c.desired as int, c.min as int);
    let pd = saturating_diff(p.desired as int, p.min as int);
    let extra = available - (c.min + p.min);
    let share = command_share(available, c, p);
    assert(2 * share <= extra) by {
        assert(2 * (extra * cd) <= extra * (cd + pd)) by (nonlinear_arith)
            requires
                extra >= 0,
                cd <= pd,
        ;
        assert(2 * (extra * cd / (cd + pd)) * (cd + pd) <= 2 * (extra * cd)) by (nonlinear_arith)
            requires
                cd + pd > 0,
                extra * cd >= 0,
        ;
        assert(2 * (extra * cd / (cd + pd)) <= extra) by (nonlinear_arith)
            requires
                2 * (extra * cd / (cd + pd)) * (cd + pd) <= extra * (cd + pd),
                cd + pd > 0,
        ;
        assert(extra * cd >= 0) by (nonlinear_arith)
            requires
                extra >= 0,
                cd >= 0,
        ;
    }
}

/// Law: a variable column shown alone gets at least its minimum and at most its
/// desired width, when the minimum does not exceed the desired width.
pub proof fn lemma_single_width_within_bounds(available: int, c: VariableColumnWidths)
    requires
        c.min <= c.desired,
    ensures
        c.min <= single_width(available, c) <= c.desired,
        allocation(available, Some(c), None).0 == Some(single_width(available, c)),
        allocation(available, None, Some(c)).1 == Some(single_width(available, c)),
{
}

/// Law: the truncatable columns never take more of the terminal than is available to
/// them, unless their minimum widths alone exceed it.
pub proof fn lemma_allocation_within_available(
    available: int,
    command: Option<VariableColumnWidths>,
    path: Option<VariableColumnWidths>,
)
    requires
        available >= 0,
        command matches Some(c) ==> c.min <= c.desired,
        path matches Some(p) ==> p.min <= p.desired,
    ensures
        ({
            let (cw, pw) = allocation(available, command, path);
            let used = (if cw is Some {
                cw->0
            } else {
                0
            }) + (if pw is Some {
                pw->0
            } else {
                0
            });
            let minimum = (if command is Some {
                command->0.min as int
            } else {
                0
            }) + (if path is Some {
                path->0.min as int
            } else {
                0
            });
            used <= (if available >= minimum {
                available
            } else {
                minimum
            })
        }),
{
    match (command, path) {
        (Some(c), Some(p)) => {
            if c.min + p.min < available < c.desired + p.desired {
                lemma_both_widths_fill_available(available, c, p);
            }
        },
        _ => {},
    }
}

/// The width a column is given, or nothing for a column that is not shown.
pub open spec fn given_width(w: Option<int>) -> int {
    match w {
        Some(x) => x,
        None => 0,
    }
}

/// The shares `e * cd / t` of two amounts `e1 <= e2` grow with the amount, and never by
/// more than the amount does.
proof fn lemma_share_steps(e1: int, e2: int, cd: int, t: int)
    requires
        0 <= e1 <= e2,
        0 <= cd <= t,
        0 < t,
    ensures
        e1 * cd / t <= e2 * cd / t,
        e2 * cd / t <= e1 * cd / t + (e2 - e1),
{
    assert(e1 * cd <= e2 * cd) by (nonlinear_arith)
        requires
            e1 <= e2,
            0 <= cd,
    ;
    vstd::arithmetic::div_mod::lemma_div_is_ordered(e1 * cd, e2 * cd, t);
    assert(e2 * cd <= e1 * cd + (e2 - e1) * t) by (nonlinear_arith)
        requires
            e1 <= e2,
            cd <= t,
    ;
    vstd::arithmetic::div_mod::lemma_div_is_ordered(e2 * cd, e1 * cd + (e2 - e1) * t, t);
    vstd::arithmetic::div_mod::lemma_hoist_over_denominator(e1 * cd, e2 - e1, t as nat);
}

/// Below the sum of the desired widths, neither share of the extra space exceeds what
/// its column wants.
proof fn lemma_shares_within_demand(e: int, cd: int, pd: int)
    requires
        0 <= e <= cd + pd,
        0 <= cd,
        0 <= pd,
        0 < cd + pd,
    ensures
        e * cd / (cd + pd) <= cd,
        e - e * cd / (cd + pd) <= pd,
{
    let t = cd + pd;
    assert(e * cd <= cd * t) by (nonlinear_arith)
        requires
            e <= t,
            0 <= cd,
    ;
    vstd::arithmetic::div_mod::lemma_div_is_ordered(e * cd, cd * t, t);
    vstd::arithmetic::div_mod::lemma_div_multiples_vanish(cd, t);
    assert(t * (e - pd) <= e * cd) by (nonlinear_arith)
        requires
            e <= t,
            t == cd + pd,
            0 <= pd,
    ;
    vstd::arithmetic::div_mod::lemma_div_is_ordered(t * (e - pd), e * cd, t);
    vstd::arithmetic::div_mod::lemma_div_multiples_vanish(e - pd, t);
}

/// A lone variable column's width grows with the available space.
proof fn lemma_single_width_monotone(a1: int, a2: int, c: VariableColumnWidths)
    requires
        a1 <= a2,
    ensures
        single_width(a1, c) <= single_width(a2, c),
{
}

/// Law: more available space never narrows the command or the path column, as long as
/// no shown column's minimum exceeds its desired width.
pub proof fn lemma_allocation_monotone(
    a1: int,
    a2: int,
    command: Option<VariableColumnWidths>,
    path: Option<VariableColumnWidths>,
)
    requires
        a1 <= a2,
        command matches Some(c) ==> c.min <= c.desired,
        path matches Some(p) ==> p.min <= p.desired,
    ensures
        given_width(allocation(a1, command, path).0) <= given_width(allocation(a2, command, path).0),
        given_width(allocation(a1, command, path).1) <= given_width(allocation(a2, command, path).1),
{
    match (command, path) {
        (Some(c), Some(p)) => {
            let m = c.min + p.min;
            let cd = c.desired - c.min;
            let pd = p.desired - p.min;
            let t = cd + pd;
            let d = c.desired + p.desired;
            if m < a1 < d {
                lemma_shares_within_demand(a1 - m, cd, pd);
                lemma_share_bounds(a1 - m, cd, pd);
            }
            if m < a2 < d {
                lemma_shares_within_demand(a2 - m, cd, pd);
                lemma_share_bounds(a2 - m, cd, pd);
            }
            if m < a1 && a2 < d {
                lemma_share_steps(a1 - m, a2 - m, cd, t);
            }
        },
        (Some(c), None) => lemma_single_width_monotone(a1, a2, c),
        (None, Some(p)) => lemma_single_width_monotone(a1, a2, p),
        (None, None) => {},
    }
}

/// Law: what the command and path columns are given, for every available width.
///
/// A hidden column gets no width, a shown one some width. A column shown alone gets the
/// available space, but at least its minimum and then at most its desired width. When
/// both are shown, both get their minimum if the space does not exceed the sum of the
/// minima, both get their desired width if the space covers the sum of those, and in
/// between the command column gets its minimum plus its share of the space above the
/// minima, in proportion to how far its desired width exceeds its minimum (rounded
/// down), and the path column the rest of the space; when neither wants more than its
/// minimum, both keep it.
pub proof fn lemma_allocation_exact(
    available: int,
    command: Option<VariableColumnWidths>,
    path: Option<VariableColumnWidths>,
)
    ensures
        allocation(available, command, path).0 is Some <==> command is Some,
        allocation(available, command, path).1 is Some <==> path is Some,
        command is Some && path is None ==> ({
            let c = command->0;
            let at_least_min = if available >= c.min { available } else { c.min as int };
            allocation(available, command, path).0 == Some(
                if at_least_min <= c.desired { at_least_min } else { c.desired as int },
            )
        }),
        path is Some && command is None ==> ({
            let p = path->0;
            let at_least_min = if available >= p.min { available } else { p.min as int };
            allocation(available, command, path).1 == Some(
                if at_least_min <= p.desired { at_least_min } else { p.desired as int },
            )
        }),
        command is Some && path is Some ==> ({
            let c = command->0;
            let p = path->0;
            let (cw, pw) = allocation(available, command, path);
            let mins = c.min + p.min;
            let wanted = c.desired + p.desired;
            let cd = if c.desired >= c.min { c.desired - c.min } else { 0 };
            let pd = if p.desired >= p.min { p.desired - p.min } else { 0 };
            &&& available <= mins ==> cw == Some(c.min as int) && pw == Some(p.min as int)
            &&& mins < available && wanted <= available ==> cw == Some(c.desired as int) && pw
                == Some(p.desired as int)
            &&& mins < available < wanted && cd + pd == 0 ==> cw == Some(c.min as int) && pw
                == Some(p.min as int)
            &&& mins < available < wanted && cd + pd > 0 ==> cw == Some(
                c.min + (available - mins) * cd / (cd + pd),
            ) && pw == Some(available - (c.min + (available - mins) * cd / (cd + pd)))
        }),
{
}

} // verus!
