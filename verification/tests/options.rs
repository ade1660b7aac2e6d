use powell_options::options::{Options, PyOptions};

#[test]
fn round_trip_all_set() {
    let e = PyOptions {
        maxiter: Some(250),
        ftol: Some((1e-6f64).to_bits()),
        gtol: Some((1e-4f64).to_bits()),
        eps: Some((1e-7f64).to_bits()),
        finite_diff_rel_step: Some((1e-3f64).to_bits()),
        disp: true,
        return_all: true,
    };
    let i = Options::from(e);
    let back = PyOptions::from(i);
    assert_eq!(back, e);
}

#[test]
fn round_trip_all_absent() {
    let e = PyOptions {
        maxiter: None,
        ftol: None,
        gtol: None,
        eps: None,
        finite_diff_rel_step: None,
        disp: false,
        return_all: false,
    };
    let i = Options::from(e);
    let back = PyOptions::from(i);
    assert_eq!(back, e);
}

#[test]
fn default_delegates_to_engine() {
    let d = PyOptions::default();
    let engine = scirs2_optimize::unconstrained::Options::default();
    let i = Options::from(d);
    assert_eq!(i.maxiter, Some(engine.max_iter));
    assert_eq!(i.ftol, Some(engine.ftol.to_bits()));
    assert_eq!(i.gtol, Some(engine.gtol.to_bits()));
    assert_eq!(i.eps, Some(engine.eps.to_bits()));
    assert_eq!(i.finite_diff_rel_step, None);
    assert!(!i.disp);
    assert!(!i.return_all);
}

#[test]
fn default_exact_values() {
    let d = PyOptions::default();
    assert_eq!(d.maxiter, Some(1000));
    assert_eq!(d.ftol, Some((1e-8f64).to_bits()));
    assert_eq!(d.ftol, Some(0x3E45798EE2308C3A));
    assert_eq!(d.gtol, Some((1e-5f64).to_bits()));
    assert_eq!(d.gtol, Some(0x3EE4F8B588E368F1));
    assert_eq!(d.eps, Some((1.4901161193847656e-8f64).to_bits()));
    assert_eq!(d.eps, Some(0x3E50000000000000));
    assert_eq!(d.finite_diff_rel_step, None);
    assert!(!d.disp);
    assert!(!d.return_all);
}

#[test]
fn quick_constructor_scoping() {
    let e = PyOptions::new(Some(100), Some((1e-6f64).to_bits()), Some(true));
    let i = Options::from(e);
    assert_eq!(i.maxiter, Some(100));
    assert_eq!(i.ftol, Some((1e-6f64).to_bits()));
    assert!(i.disp);
    assert_eq!(i.gtol, None);
    assert_eq!(i.eps, None);
    assert_eq!(i.finite_diff_rel_step, None);
    assert!(!i.return_all);
}

#[test]
fn omission_passthrough() {
    let e = PyOptions::new(None, None, None);
    let i = Options::from(e);
    assert_eq!(i.maxiter, None);
    assert_eq!(i.ftol, None);
    assert!(!i.disp);
    assert_eq!(i.gtol, None);
    assert_eq!(i.eps, None);
    assert_eq!(i.finite_diff_rel_step, None);
    assert!(!i.return_all);
}

#[test]
fn mutation_independence() {
    let mut e = PyOptions::new(Some(100), Some((1e-6f64).to_bits()), Some(true));
    e.return_all = true;
    e.gtol = Some((1e-3f64).to_bits());
    let i = Options::from(e);
    assert!(i.return_all);
    assert_eq!(i.gtol, Some((1e-3f64).to_bits()));
    assert_eq!(i.maxiter, Some(100));
    assert_eq!(i.ftol, Some((1e-6f64).to_bits()));
    assert!(i.disp);
    assert_eq!(i.eps, None);
    assert_eq!(i.finite_diff_rel_step, None);
}

#[test]
fn extreme_values_never_fail() {
    let e = PyOptions {
        maxiter: Some(usize::MAX),
        ftol: Some(f64::NAN.to_bits()),
        gtol: Some(f64::NEG_INFINITY.to_bits()),
        eps: Some((-0.0f64).to_bits()),
        finite_diff_rel_step: Some(f64::MAX.to_bits()),
        disp: true,
        return_all: false,
    };
    let i = Options::from(e);
    let back = PyOptions::from(i);
    assert_eq!(back, e);
    let zero = PyOptions::new(Some(0), Some((-1.0f64).to_bits()), Some(false));
    let zi = Options::from(zero);
    assert_eq!(zi.maxiter, Some(0));
    assert_eq!(zi.ftol, Some((-1.0f64).to_bits()));
}
