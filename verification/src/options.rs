//! Tuning options for the Powell optimizer and their translation to the
//! engine's internal configuration.
//!
//! Real-valued tolerances are carried as IEEE-754 `f64` bit patterns
//! (`u64`), so that this layer stays pure integer data; the binding layer
//! around the crate converts between numbers and bit patterns at the
//! boundary. Every operation here is total: no field is validated,
//! clamped or derived, so no construction or conversion can fail.

use vstd::prelude::*;
use vstd::std_specs::convert::FromSpecImpl;

verus! {

/// Caller-facing options for the Powell optimizer.
///
/// Every numeric field is independently optional; an absent field tells the
/// engine to apply its own internal default for that quantity. The two
/// boolean switches default to `false`. The `ftol`, `gtol`, `eps` and
/// `finite_diff_rel_step` fields hold `f64` bit patterns.
#[derive(Clone, Copy, PartialEq, Debug)]
pub struct PyOptions {
    /// Hard cap on optimizer iterations.
    pub maxiter: Option<usize>,
    /// Relative tolerance on function-value change for convergence.
    pub ftol: Option<u64>,
    /// Tolerance on the gradient-norm-like convergence quantity.
    pub gtol: Option<u64>,
    /// Step size used for numerical differencing.
    pub eps: Option<u64>,
    /// Relative step size for finite-difference gradient estimation.
    pub finite_diff_rel_step: Option<u64>,
    /// Whether the optimizer should emit progress information.
    pub disp: bool,
    /// Whether the optimizer should retain all intermediate iterates.
    pub return_all: bool,
}

/// Internal configuration consumed by the optimization engine, mirroring
/// the engine's own options record field for field. Numeric fields stay
/// optional here too: absence means "use the engine's internal default".
#[derive(Clone, Copy, PartialEq, Debug)]
pub struct Options {
    /// Hard cap on optimizer iterations.
    pub maxiter: Option<usize>,
    /// Relative tolerance on function-value change for convergence.
    pub ftol: Option<u64>,
    /// Tolerance on the gradient-norm-like convergence quantity.
    pub gtol: Option<u64>,
    /// Step size used for numerical differencing.
    pub eps: Option<u64>,
    /// Relative step size for finite-difference gradient estimation.
    pub finite_diff_rel_step: Option<u64>,
    /// Whether the optimizer should emit progress information.
    pub disp: bool,
    /// Whether the optimizer should retain all intermediate iterates.
    pub return_all: bool,
}

impl PyOptions {
    /// Quick constructor covering the three options set most often. All
    /// other fields start absent (`None`) or off (`false`) and can be set
    /// by plain field mutation afterwards.
    pub fn new(maxiter: Option<usize>, ftol: Option<u64>, disp: Option<bool>) -> (r: PyOptions)
        ensures
            r.maxiter == maxiter,
            r.ftol == ftol,
            r.disp == disp.unwrap_or(false),
            r.gtol is None,
            r.eps is None,
            r.finite_diff_rel_step is None,
            !r.return_all,
    {
        PyOptions {
            maxiter,
            ftol,
            disp: disp.unwrap_or(false),
            gtol: None,
            eps: None,
            finite_diff_rel_step: None,
            return_all: false,
        }
    }
}

/// The inward mapping, stated once: each of the seven fields of the
/// internal configuration is the corresponding caller-facing field,
/// copied unchanged.
pub open spec fn spec_to_internal(e: PyOptions) -> Options {
    Options {
        maxiter: e.maxiter,
        ftol: e.ftol,
        gtol: e.gtol,
        eps: e.eps,
        finite_diff_rel_step: e.finite_diff_rel_step,
        disp: e.disp,
        return_all: e.return_all,
    }
}

/// The outward mapping, the exact inverse of `spec_to_internal`.
pub open spec fn spec_to_external(i: Options) -> PyOptions {
    PyOptions {
        maxiter: i.maxiter,
        ftol: i.ftol,
        gtol: i.gtol,
        eps: i.eps,
        finite_diff_rel_step: i.finite_diff_rel_step,
        disp: i.disp,
        return_all: i.return_all,
    }
}

impl core::convert::From<PyOptions> for Options {
    /// Inward conversion: a pure field-for-field copy; never fails.
    fn from(options: PyOptions) -> (r: Options) {
        Options {
            maxiter: options.maxiter,
            ftol: options.ftol,
            gtol: options.gtol,
            eps: options.eps,
            finite_diff_rel_step: options.finite_diff_rel_step,
            disp: options.disp,
            return_all: options.return_all,
        }
    }
}

impl FromSpecImpl<PyOptions> for Options {
    open spec fn obeys_from_spec() -> bool {
        true
    }

    open spec fn from_spec(options: PyOptions) -> Options {
        spec_to_internal(options)
    }
}

impl core::convert::From<Options> for PyOptions {
    /// Outward conversion: the exact inverse field-for-field copy; never
    /// fails.
    fn from(options: Options) -> (r: PyOptions) {
        PyOptions {
            maxiter: options.maxiter,
            ftol: options.ftol,
            gtol: options.gtol,
            eps: options.eps,
            finite_diff_rel_step: options.finite_diff_rel_step,
            disp: options.disp,
            return_all: options.return_all,
        }
    }
}

impl FromSpecImpl<Options> for PyOptions {
    open spec fn obeys_from_spec() -> bool {
        true
    }

    open spec fn from_spec(options: Options) -> PyOptions {
        spec_to_external(options)
    }
}

/// The engine's built-in defaults for the four quantities its
/// configuration record defaults eagerly: the iteration cap 1000 and the
/// tolerances `ftol` (1e-8), `gtol` (1e-5) and `eps` (2^-26), the
/// tolerances as `f64` bit patterns.
pub open spec fn spec_engine_default_raw() -> (usize, u64, u64, u64) {
    (1000usize, 0x3E45798EE2308C3Au64, 0x3EE4F8B588E368F1u64, 0x3E50000000000000u64)
}

/// Relies on `scirs2_optimize::unconstrained::Options::default`: the
/// engine's built-in configuration sets `max_iter` to 1000, `ftol` to
/// 1e-8, `gtol` to 1e-5 and `eps` to 2^-26, whose `f64` bit patterns are
/// the values of `spec_engine_default_raw`.
#[verifier::external_body]
fn engine_default_raw() -> (r: (usize, u64, u64, u64))
    ensures
        r == spec_engine_default_raw(),
{
    let o = scirs2_optimize::unconstrained::Options::default();
    (o.max_iter, o.ftol.to_bits(), o.gtol.to_bits(), o.eps.to_bits())
}

/// The engine's canonical default configuration, carried into this
/// crate's internal form: the four quantities the engine defaults eagerly
/// take the engine's values, and every option the engine's record does
/// not carry (the relative differencing step and the two switches) stays
/// at its absent or off state.
pub open spec fn spec_engine_defaults() -> Options {
    Options {
        maxiter: Some(spec_engine_default_raw().0),
        ftol: Some(spec_engine_default_raw().1),
        gtol: Some(spec_engine_default_raw().2),
        eps: Some(spec_engine_default_raw().3),
        finite_diff_rel_step: None,
        disp: false,
        return_all: false,
    }
}

impl core::default::Default for PyOptions {
    /// Default construction delegates to the engine: it asks the engine
    /// for its own default configuration and converts it outward, so
    /// default values are never invented at this layer.
    fn default() -> (r: PyOptions)
        ensures
            r == spec_to_external(spec_engine_defaults()),
    {
        let (max_iter, ftol, gtol, eps) = engine_default_raw();
        let internal = Options {
            maxiter: Some(max_iter),
            ftol: Some(ftol),
            gtol: Some(gtol),
            eps: Some(eps),
            finite_diff_rel_step: None,
            disp: false,
            return_all: false,
        };
        PyOptions::from(internal)
    }
}

/// Default delegation: the default caller-facing configuration, converted
/// to internal form, is field-for-field the engine's own default internal
/// configuration.
pub proof fn lemma_default_delegation()
    ensures
        spec_to_internal(spec_to_external(spec_engine_defaults())) == spec_engine_defaults(),
{
}

/// Round-trip identity: converting any caller-facing configuration inward
/// and back outward yields the original value on every field, including
/// fully absent ones.
pub proof fn lemma_round_trip(e: PyOptions)
    ensures
        spec_to_external(spec_to_internal(e)) == e,
{
}

/// The reverse round trip: converting any internal configuration outward
/// and back inward yields the original value on every field.
pub proof fn lemma_round_trip_inward(i: Options)
    ensures
        spec_to_internal(spec_to_external(i)) == i,
{
}

/// Mutation independence for the field outside the quick constructor's
/// reach: overwriting `return_all` on a caller-facing configuration
/// changes exactly that field of the inward conversion and no other.
pub proof fn lemma_mutation_return_all(e: PyOptions, b: bool)
    ensures
        spec_to_internal(PyOptions { return_all: b, ..e }) == (Options {
            return_all: b,
            ..spec_to_internal(e)
        }),
{
}

} // verus!
