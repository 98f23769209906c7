//! Declarations for the rule-evaluation engine of the `regorus` crate.
//!
//! The engine's answers depend on the rules it has loaded, so nothing is
//! promised about them here: the verified code around the engine is correct
//! for every answer it may give. What is stated is which rule modules an
//! engine holds.
use vstd::prelude::*;

verus! {

/// The rule engine `regorus::Engine`, carried as an opaque value.
#[verifier::external_type_specification]
#[verifier::external_body]
pub struct ExEngine(regorus::Engine);

/// `anyhow::Error`, the error type of the engine's methods, carried as an
/// opaque value.
#[verifier::external_type_specification]
#[verifier::external_body]
pub struct ExAnyhowError(anyhow::Error);

/// The rule modules that an engine holds, in the order they were added: each
/// as the path it was added under and its text.
pub uninterp spec fn modules_of(e: regorus::Engine) -> Seq<(Seq<char>, Seq<char>)>;

/// Relies on `regorus::Engine::new`: an engine with no rules loaded.
pub assume_specification[ regorus::Engine::new ]() -> (r: regorus::Engine)
    ensures
        modules_of(r) == Seq::<(Seq<char>, Seq<char>)>::empty(),
;

/// Relies on `regorus::Engine::set_rego_v0`: selects the rule language's v0
/// syntax, in which the agent's policies are written. The modules stay.
pub assume_specification[ regorus::Engine::set_rego_v0 ](engine: &mut regorus::Engine, rego_v0: bool)
    ensures
        modules_of(*final(engine)) == modules_of(*old(engine)),
;

/// Relies on `regorus::Engine::set_strict_builtin_errors`: sets an option of
/// the interpreter; the modules stay.
pub assume_specification[ regorus::Engine::set_strict_builtin_errors ](
    engine: &mut regorus::Engine,
    b: bool,
)
    ensures
        modules_of(*final(engine)) == modules_of(*old(engine)),
;

/// Relies on `regorus::Engine::set_gather_prints`: sets an option of the
/// interpreter; the modules stay.
pub assume_specification[ regorus::Engine::set_gather_prints ](
    engine: &mut regorus::Engine,
    b: bool,
)
    ensures
        modules_of(*final(engine)) == modules_of(*old(engine)),
;

/// Relies on `regorus::Engine::add_policy`: parses one rule module and, when
/// it parses, appends it to the engine's modules. The package name is read
/// after the module was appended, so an error may come with or without it.
pub assume_specification[ regorus::Engine::add_policy ](
    engine: &mut regorus::Engine,
    path: String,
    rego: String,
) -> (r: anyhow::Result<String>)
    ensures
        r is Ok ==> modules_of(*final(engine)) == modules_of(*old(engine)).push((path@, rego@)),
        r is Err ==> modules_of(*final(engine)) == modules_of(*old(engine))
            || modules_of(*final(engine)) == modules_of(*old(engine)).push((path@, rego@)),
;

/// Relies on `regorus::Engine::set_input_json`: parses the input document;
/// the modules stay.
pub assume_specification[ regorus::Engine::set_input_json ](
    engine: &mut regorus::Engine,
    input_json: &str,
) -> (r: anyhow::Result<()>)
    ensures
        modules_of(*final(engine)) == modules_of(*old(engine)),
;

/// Relies on `regorus::Engine::eval_bool_query`: evaluates a query to a
/// boolean; only `add_policy` changes the modules.
pub assume_specification[ regorus::Engine::eval_bool_query ](
    engine: &mut regorus::Engine,
    query: String,
    enable_tracing: bool,
) -> (r: anyhow::Result<bool>)
    ensures
        modules_of(*final(engine)) == modules_of(*old(engine)),
;

/// Relies on `regorus::Engine::take_prints`: the gathered print output; the
/// modules stay.
pub assume_specification[ regorus::Engine::take_prints ](
    engine: &mut regorus::Engine,
) -> (r: anyhow::Result<Vec<String>>)
    ensures
        modules_of(*final(engine)) == modules_of(*old(engine)),
;

/// Relies on the `Display` impl of `anyhow::Error`, to describe an engine failure.
#[verifier::external_body]
pub(crate) fn describe_error(e: &anyhow::Error) -> String {
    e.to_string()
}

} // verus!
