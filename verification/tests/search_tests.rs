use kelly::Frac;
use kelly::GRID;
use kelly::find_optimal_stake;
use kelly::optimal_fraction;
use kelly::search;
use kelly::search_steps;
use kelly::slope;

const G: i128 = 4294967296;

#[test]
fn slope_exact_values() {
    // p = 3/4, k = 1: edge h = -1/2, slope positive at the left edge.
    let p = Frac::new(3, 4);
    let k = Frac::new(1, 1);
    assert_eq!(slope(p, k, 0), 2 * G * G);
    assert_eq!(slope(p, k, GRID), -4 * G * G);

    // p = 1/2, k = 2: favourable double-or-nothing, h = 1.
    let p = Frac::new(1, 2);
    let k = Frac::new(2, 1);
    assert_eq!(slope(p, k, 0), G * G);

    // p = 1/4, k = 1: losing proposition, slope negative already at zero.
    let p = Frac::new(1, 4);
    let k = Frac::new(1, 1);
    assert_eq!(slope(p, k, 0), -2 * G * G);
}

#[test]
fn fair_odds_simplification() {
    // p = 1/2, k = 1 is the fair-odds point: h = 0, and the slope at
    // x = i/GRID reduces to ((k-1) - 2k*i/GRID) * 1, which in the scaled
    // integer form is -2i * h_den * GRID = -4*i*G. Sampled across the grid.
    let p = Frac::new(1, 2);
    let k = Frac::new(1, 1);
    for i in [0u64, 1, 2, 1000, 2147483648, 4294967295, 4294967296] {
        assert_eq!(slope(p, k, i), -4 * (i as i128) * G);
    }
}

#[test]
fn left_boundary_shortcut() {
    // Negative edge: the slope is already non-positive at zero, so the
    // search must answer the left edge of any bracket at once.
    let p = Frac::new(1, 4);
    let k = Frac::new(1, 1);
    assert!(slope(p, k, 0) <= 0);
    assert_eq!(search(0, GRID, k, p), 0);
    let (x, steps) = search_steps(0, GRID, k, p);
    assert_eq!(x, 0);
    assert_eq!(steps, 0);
}

#[test]
fn right_boundary_shortcut() {
    // A bracket that ends below the zero crossing: the slope is still
    // positive at its right edge, so the search must answer that edge.
    let p = Frac::new(3, 4);
    let k = Frac::new(1, 1);
    let r = GRID / 8;
    assert!(slope(p, k, r) >= 0);
    assert_eq!(search(0, r, k, p), r);
}

#[test]
fn right_boundary_shortcut_unvalidated_probability() {
    // p = 2 lies outside (0,1); nothing rejects it, and the formula keeps
    // the slope positive across the whole bracket, so the answer is the
    // right edge itself.
    let p = Frac::new(2, 1);
    let k = Frac::new(1, 1);
    assert!(slope(p, k, 0) > 0);
    assert!(slope(p, k, GRID) >= 0);
    assert_eq!(search(0, GRID, k, p), GRID);
}

#[test]
fn end_to_end_interior_stake() {
    // p = 0.75, k = 1, bound 1: positive edge, slope positive at 0 and
    // negative at the bound, so the chosen stake is strictly interior and
    // brackets the zero crossing within one grid cell.
    let p = Frac::new(3, 4);
    let k = Frac::new(1, 1);
    assert!(slope(p, k, 0) > 0);
    assert!(slope(p, k, GRID) < 0);
    let x = optimal_fraction(p, k);
    assert!(0 < x && x < GRID);
    assert!(slope(p, k, x) > 0);
    assert!(slope(p, k, x + 1) < 0);
    // The true maximizer is (2 - sqrt(3)) of the bound; the one grid index
    // with a positive slope and a negative slope one cell later.
    assert_eq!(x, 1150833018);
}

#[test]
fn no_edge_stakes_nothing() {
    // p = 0.5, k = 1: zero edge. The slope at zero is exactly zero, the
    // left-boundary shortcut fires, and the optimal stake is zero.
    let p = Frac::new(1, 2);
    let k = Frac::new(1, 1);
    assert_eq!(slope(p, k, 0), 0);
    assert_eq!(optimal_fraction(p, k), 0);
    let s = find_optimal_stake(p, k, Frac::new(1, 1));
    assert_eq!(s.num, 0);
    assert_eq!(s.den, 4294967296);
}

#[test]
fn bracket_invariant_interior() {
    // A bracket straddling the crossing: the answer stays inside it and
    // still pins the sign change to one cell.
    let p = Frac::new(3, 4);
    let k = Frac::new(1, 1);
    let (l, r) = (GRID / 8, GRID / 2);
    let x = search(l, r, k, p);
    assert!(l <= x && x <= r);
    assert!(slope(p, k, x) > 0);
    assert!(slope(p, k, x + 1) < 0);
    assert_eq!(x, 1150833018);
}

#[test]
fn degenerate_bracket() {
    // A single-point bracket can only answer that point.
    let p = Frac::new(3, 4);
    let k = Frac::new(1, 1);
    assert_eq!(search(12345, 12345, k, p), 12345);
}

#[test]
fn convergence_within_grid_log_steps() {
    // Bisection over the full bracket never halves more than 32 times.
    let k = Frac::new(1, 1);
    let (x, steps) = search_steps(0, GRID, k, Frac::new(3, 4));
    assert_eq!(x, 1150833018);
    assert!(steps <= 32);
    // A narrower bracket cannot take more steps than the full one.
    let (_, steps) = search_steps(GRID / 8, GRID / 2, k, Frac::new(3, 4));
    assert!(steps <= 32);
}

#[test]
fn monotone_sign_consistency() {
    // Direct evaluation: for p = 3/4, k = 1 the slope changes sign exactly
    // once across the grid, and the search lands within one cell of it.
    let p = Frac::new(3, 4);
    let k = Frac::new(1, 1);
    let samples = [0u64, GRID / 8, GRID / 4, GRID / 2, GRID];
    let mut changes = 0;
    for w in samples.windows(2) {
        let a = slope(p, k, w[0]) > 0;
        let b = slope(p, k, w[1]) > 0;
        if a != b {
            changes += 1;
        }
    }
    assert_eq!(changes, 1);
    let x = optimal_fraction(p, k);
    assert!(GRID / 4 <= x && x <= GRID / 2);
    assert!(slope(p, k, x) > 0 && slope(p, k, x + 1) < 0);
}

#[test]
fn stake_scales_by_bound() {
    // Doubling the bound doubles the stake's numerator, cell for cell.
    let p = Frac::new(3, 4);
    let k = Frac::new(1, 1);
    let s1 = find_optimal_stake(p, k, Frac::new(1, 1));
    let s2 = find_optimal_stake(p, k, Frac::new(2, 1));
    assert_eq!(s1.num, 1150833018);
    assert_eq!(s2.num, 2 * 1150833018);
    assert_eq!(s1.den, 4294967296);
    assert_eq!(s2.den, 4294967296);
}
