use yapb::prefix::{binary_prefix, si_prefix, sigfig_notation, Notation};

/// `floor(log2(x))` for `x >= 1`; smaller values have no binary prefix.
fn order2(x: f64) -> i64 {
    if !(x >= 1.0) {
        return i64::MIN;
    }
    let order = x.log2().floor() as i64;
    if order < 1024 && 2f64.powi(order as i32) > x {
        order - 1
    } else {
        order
    }
}

/// `floor(log10(|x|))`, or `None` for zero.
fn order10(x: f64) -> Option<i64> {
    let a = x.abs();
    if a == 0.0 {
        return None;
    }
    let order = a.log10().floor() as i64;
    if (0..=22).contains(&order) && 10f64.powi(order as i32) > a {
        Some(order - 1)
    } else {
        Some(order)
    }
}

fn binary(x: f64) -> (f64, Option<&'static str>) {
    let (power, symbol) = binary_prefix(order2(x));
    (x / 1024f64.powi(power as i32), symbol)
}

fn si(x: f64) -> (f64, Option<&'static str>) {
    let (power, symbol) = si_prefix(order10(x).unwrap_or(i64::MIN));
    (x / 1000f64.powi(power as i32), symbol)
}

fn sigfigs(value: f64, figures: usize) -> String {
    match sigfig_notation(order10(value), figures) {
        Notation::Fixed(digits) => format!("{:.*}", digits, if value == 0.0 { 0.0 } else { value }),
        Notation::Exponential(digits) => format!("{:.*e}", digits, value),
    }
}

fn binary_text(x: f64) -> String {
    if x < 1.0 && x >= 1e-2 {
        return format!("{:.2} ", x);
    }
    let (value, prefix) = binary(x);
    let figures = if value >= 1000.0 { 4 } else { 3 };
    format!("{} {}", sigfigs(value, figures), prefix.unwrap_or(""))
}

fn scientific_text(x: f64) -> String {
    let (value, prefix) = si(x);
    format!("{} {}", sigfigs(value, 3), prefix.unwrap_or(""))
}

#[test]
fn binary_prefixes() {
    assert_eq!(binary(2.0 * 1024.0), (2.0, Some("Ki")));
    assert_eq!(binary(2.0 * 1024.0 * 1024.0), (2.0, Some("Mi")));
}

#[test]
fn binary_below_first_prefix() {
    assert_eq!(binary(1023.0), (1023.0, None));
    assert_eq!(binary(-5000.0), (-5000.0, None));
    assert_eq!(binary(1024.0), (1.0, Some("Ki")));
}

#[test]
fn binary_prefix_ranks() {
    assert_eq!(binary_prefix(i64::MIN), (0, None));
    assert_eq!(binary_prefix(9), (0, None));
    assert_eq!(binary_prefix(10), (1, Some("Ki")));
    assert_eq!(binary_prefix(19), (1, Some("Ki")));
    assert_eq!(binary_prefix(20), (2, Some("Mi")));
    assert_eq!(binary_prefix(79), (7, Some("Zi")));
    assert_eq!(binary_prefix(80), (8, Some("Yi")));
    assert_eq!(binary_prefix(i64::MAX), (8, Some("Yi")));
}

#[test]
fn si_prefixes() {
    assert_eq!(si(2e3), (2.0, Some("k")));
    assert_eq!(si(2e6), (2.0, Some("M")));
}

#[test]
fn si_prefix_ranks() {
    assert_eq!(si_prefix(0), (0, None));
    assert_eq!(si_prefix(2), (0, None));
    assert_eq!(si_prefix(3), (1, Some("k")));
    assert_eq!(si_prefix(26), (8, Some("Y")));
    assert_eq!(si_prefix(300), (8, Some("Y")));
    assert_eq!(si_prefix(-1), (-1, Some("m")));
    assert_eq!(si_prefix(-3), (-1, Some("m")));
    assert_eq!(si_prefix(-4), (-2, Some("µ")));
    assert_eq!(si_prefix(-24), (-8, Some("y")));
    assert_eq!(si_prefix(i64::MIN), (-8, Some("y")));
}

#[test]
fn si_sign_does_not_choose() {
    assert_eq!(si(-2e3), (-2.0, Some("k")));
    assert_eq!(si(-5.0), (-5.0, None));
}

#[test]
fn sigfig_sanity() {
    assert_eq!(sigfigs(1.0, 1), "1");
    assert_eq!(sigfigs(1.0, 2), "1.0");
    assert_eq!(sigfigs(0.1, 1), "1e-1");
    assert_eq!(sigfigs(0.1, 2), "1.0e-1");
    assert_eq!(sigfigs(10.0, 1), "1e1");
    assert_eq!(sigfigs(10.0, 2), "10");
}

#[test]
fn sigfig_notation_choices() {
    assert_eq!(sigfig_notation(None, 3), Notation::Fixed(2));
    assert_eq!(sigfig_notation(None, 0), Notation::Fixed(0));
    assert_eq!(sigfig_notation(Some(0), 1), Notation::Fixed(0));
    assert_eq!(sigfig_notation(Some(0), 2), Notation::Fixed(1));
    assert_eq!(sigfig_notation(Some(-1), 1), Notation::Exponential(0));
    assert_eq!(sigfig_notation(Some(1), 1), Notation::Exponential(0));
    assert_eq!(sigfig_notation(Some(1), 2), Notation::Fixed(0));
    assert_eq!(sigfig_notation(Some(3), 4), Notation::Fixed(0));
    assert_eq!(sigfig_notation(Some(4), 4), Notation::Exponential(3));
}

#[test]
fn binary_fmt() {
    assert_eq!(binary_text(0.0), "0.00 ");
    assert_eq!(binary_text(0.001), "1.00e-3 ");
    assert_eq!(binary_text(0.01), "0.01 ");
    assert_eq!(binary_text(1023.0), "1023 ");
    assert_eq!(binary_text(2.0 * 1024.0), "2.00 Ki");
    assert_eq!(binary_text(1023.0 * 1024.0), "1023 Ki");
}

#[test]
fn scientific_fmt() {
    assert_eq!(scientific_text(0.001), "1.00 m");
    assert_eq!(scientific_text(0.01), "10.0 m");
    assert_eq!(scientific_text(2.0 * 1000.0), "2.00 k");
    assert_eq!(scientific_text(999.0 * 1000.0), "999 k");
}
