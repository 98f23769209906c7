//! The policy evaluation core and the enforcement entry points.
//!
//! One [`AgentPolicy`] owns the rule engine. Callers serialise every check and
//! every replacement through it (they hold it behind a lock), so each decision
//! sees exactly one loaded rule set.
use crate::binding::{check_policy_hash, policy_accepted, BindingError};
use crate::engine::{describe_error, modules_of};
use crate::text::{push_str, same_str};
use vstd::prelude::*;
use vstd::string::StringSliceAdditionalSpecFns;

verus! {

/// The query that decides endpoint `ep`: its rule in the agent's package.
pub open spec fn query_of(ep: Seq<char>) -> Seq<char> {
    "data.agent_policy."@ + ep
}

/// Endpoints whose inputs are never written to the diagnostic log: two that
/// are called very often, and the policy replacement, whose input is large.
pub open spec fn is_log_suppressed(ep: Seq<char>) -> bool {
    ep == "StatsContainerRequest"@ || ep == "ReadStreamRequest"@ || ep == "SetPolicyRequest"@
}

/// One record of the diagnostic log: the endpoint and its input document.
pub open spec fn log_record(ep: Seq<char>, input: Seq<char>) -> Seq<char> {
    "[\"ep\":\""@ + ep + "\","@ + input + "],\n\n"@
}

/// What an evaluation comes to once the fail-open flag has been applied.
#[derive(Debug, Clone, Copy, PartialEq, Eq, Structural)]
pub struct Verdict {
    pub allowed: bool,
    /// A denial or an engine failure was turned into an allow; a warning is due.
    pub overridden: bool,
}

/// The fail-open rule: with `allow_failures` set, a denial or an engine error
/// becomes an allow; without it, the engine's answer stands.
pub open spec fn fail_open(outcome: Result<bool, String>, allow_failures: bool) -> Result<
    Verdict,
    String,
> {
    match outcome {
        Ok(true) => Ok(Verdict { allowed: true, overridden: false }),
        Ok(false) => Ok(Verdict { allowed: allow_failures, overridden: allow_failures }),
        Err(e) => if allow_failures {
            Ok(Verdict { allowed: true, overridden: true })
        } else {
            Err(e)
        },
    }
}

/// The engine's print output of one evaluation.
#[derive(Debug)]
pub enum Diagnostics {
    /// The lines printed, in evaluation order.
    Prints(Vec<String>),
    /// The prints could not be retrieved; why.
    Unavailable(String),
}

/// The decision on one call.
#[derive(Debug)]
pub struct Decision {
    pub allowed: bool,
    pub overridden: bool,
    pub diagnostics: Diagnostics,
}

/// Why a call or a policy replacement did not go through.
#[derive(Debug)]
pub enum PolicyError {
    /// The policy denied the call at endpoint `ep`.
    Denied { ep: String, diagnostics: Diagnostics },
    /// The engine failed while deciding the call at endpoint `ep`.
    Internal { ep: String, cause: String },
    /// The new policy does not match the launch measurement.
    Untrusted(BindingError),
    /// The engine refused the new policy text.
    Rejected { cause: String },
}

/// The query that decides endpoint `ep`.
pub fn query_for(ep: &str) -> (r: String)
    ensures
        r@ == query_of(ep@),
{
    let mut q = "data.agent_policy.".to_owned();
    push_str(&mut q, ep);
    q
}

/// Whether the inputs of endpoint `ep` are kept out of the diagnostic log.
pub fn log_suppressed(ep: &str) -> (r: bool)
    ensures
        r == is_log_suppressed(ep@),
{
    same_str(ep, "StatsContainerRequest") || same_str(ep, "ReadStreamRequest") || same_str(
        ep,
        "SetPolicyRequest",
    )
}

/// Applies the fail-open flag to what the engine answered.
pub fn resolve_outcome(outcome: Result<bool, String>, allow_failures: bool) -> (r: Result<
    Verdict,
    String,
>)
    ensures
        r == fail_open(outcome, allow_failures),
{
    match outcome {
        Ok(true) => Ok(Verdict { allowed: true, overridden: false }),
        Ok(false) => Ok(Verdict { allowed: allow_failures, overridden: allow_failures }),
        Err(e) => if allow_failures {
            Ok(Verdict { allowed: true, overridden: true })
        } else {
            Err(e)
        },
    }
}

/// With the fail-open flag set every evaluation is allowed, whatever the
/// engine answered; with it clear, denials and errors pass through unchanged.
pub proof fn lemma_fail_open(outcome: Result<bool, String>)
    ensures
        fail_open(outcome, true) is Ok && fail_open(outcome, true)->Ok_0.allowed,
        outcome != Ok::<bool, String>(true) ==> fail_open(outcome, true)->Ok_0.overridden,
        match outcome {
            Ok(b) => fail_open(outcome, false) == Ok::<Verdict, String>(Verdict { allowed: b, overridden: false }),
            Err(e) => fail_open(outcome, false) == Err::<Verdict, String>(e),
        },
{
}

/// The new value of the fail-open flag, from the answer to the
/// `AllowRequestsFailingPolicy` query: set only when the query succeeded and
/// allowed; an engine failure leaves it clear.
pub fn allows_failing_requests(res: &Result<Decision, String>) -> (r: bool)
    ensures
        r == (res is Ok && res->Ok_0.allowed),
{
    match res {
        Ok(d) => d.allowed,
        Err(_) => false,
    }
}

/// Turns the decision on a call at endpoint `ep` into the call's result.
pub fn to_call_result(ep: &str, res: Result<Decision, String>) -> (r: Result<(), PolicyError>)
    ensures
        match res {
            Ok(d) => if d.allowed {
                r is Ok
            } else {
                r matches Err(PolicyError::Denied { ep: e, diagnostics })
                    && e@ == ep@ && diagnostics == d.diagnostics
            },
            Err(c) => r matches Err(PolicyError::Internal { ep: e, cause })
                && e@ == ep@ && cause == c,
        },
{
    match res {
        Ok(d) => if d.allowed {
            Ok(())
        } else {
            Err(PolicyError::Denied { ep: ep.to_owned(), diagnostics: d.diagnostics })
        },
        Err(cause) => Err(PolicyError::Internal { ep: ep.to_owned(), cause }),
    }
}

/// A fresh engine for rules in the v0 syntax, that tolerates failing
/// builtins and gathers print output.
fn new_engine() -> (r: regorus::Engine)
    ensures
        modules_of(r) == Seq::<(Seq<char>, Seq<char>)>::empty(),
{
    let mut engine = regorus::Engine::new();
    engine.set_rego_v0(true);
    engine.set_strict_builtin_errors(false);
    engine.set_gather_prints(true);
    engine
}

/// The policy engine of the agent, with its fail-open flag.
pub struct AgentPolicy {
    /// When set, denials and engine errors are turned into allows (debug only).
    allow_failures: bool,
    /// Whether evaluation inputs are written to the diagnostic log.
    log_enabled: bool,
    engine: regorus::Engine,
}

impl AgentPolicy {
    /// Whether denials and engine errors are currently turned into allows.
    pub closed spec fn spec_allow_failures(&self) -> bool {
        self.allow_failures
    }

    /// Whether evaluation inputs are written to the diagnostic log.
    pub closed spec fn spec_log_enabled(&self) -> bool {
        self.log_enabled
    }

    /// The rule modules loaded, as (path, text) pairs.
    pub closed spec fn spec_modules(&self) -> Seq<(Seq<char>, Seq<char>)> {
        modules_of(self.engine)
    }

    /// A policy with an empty rule set, fail-open clear and no log.
    pub fn new() -> (r: Self)
        ensures
            !r.spec_allow_failures(),
            !r.spec_log_enabled(),
            r.spec_modules() == Seq::<(Seq<char>, Seq<char>)>::empty(),
    {
        AgentPolicy { allow_failures: false, log_enabled: false, engine: new_engine() }
    }

    pub fn allow_failures(&self) -> (r: bool)
        ensures
            r == self.spec_allow_failures(),
    {
        self.allow_failures
    }

    pub fn log_enabled(&self) -> (r: bool)
        ensures
            r == self.spec_log_enabled(),
    {
        self.log_enabled
    }

    /// Loads the initial policy, `text`, read from the file `path`, and sets
    /// the fail-open flag from it. `log_enabled` turns the diagnostic log on.
    /// On failure nothing changes.
    pub fn initialize(&mut self, path: &str, text: &str, log_enabled: bool) -> (r: Result<
        (),
        PolicyError,
    >)
        ensures
            r is Ok ==> final(self).spec_log_enabled() == log_enabled,
            r is Ok ==> final(self).spec_modules() == seq![(path@, text@)],
            r is Err ==> r->Err_0 is Rejected && *final(self) == *old(self),
    {
        let r = self.load(path, text);
        if r.is_ok() {
            self.log_enabled = log_enabled;
        }
        r
    }

    /// Replaces the rule set by the module `text`, named `path`, then sets the
    /// fail-open flag from the new rules. On failure nothing changes.
    fn load(&mut self, path: &str, text: &str) -> (r: Result<(), PolicyError>)
        ensures
            final(self).log_enabled == old(self).log_enabled,
            r is Ok ==> modules_of(final(self).engine) == seq![(path@, text@)],
            r is Err ==> r->Err_0 is Rejected && *final(self) == *old(self),
    {
        let mut engine = new_engine();
        match engine.add_policy(path.to_owned(), text.to_owned()) {
            Ok(_) => {
                assert(modules_of(engine) =~= seq![(path@, text@)]);
            },
            Err(e) => {
                return Err(PolicyError::Rejected { cause: describe_error(&e) });
            },
        }
        self.engine = engine;
        let _ = self.update_allow_failures_flag();
        Ok(())
    }

    /// Asks the engine whether the call at endpoint `ep`, with input document
    /// `ep_input` (JSON), is allowed. The fail-open flag is applied to the
    /// engine's answer, and to a failure to parse the input or to evaluate.
    pub fn allow_request(&mut self, ep: &str, ep_input: &str) -> (r: Result<Decision, String>)
        ensures
            final(self).spec_allow_failures() == old(self).spec_allow_failures(),
            final(self).spec_log_enabled() == old(self).spec_log_enabled(),
            final(self).spec_modules() == old(self).spec_modules(),
            old(self).spec_allow_failures() ==> r is Ok && r->Ok_0.allowed,
            r is Ok ==> (r->Ok_0.overridden ==> old(self).spec_allow_failures()
                && r->Ok_0.allowed),
    {
        let query = query_for(ep);
        let outcome = match self.engine.set_input_json(ep_input) {
            Ok(()) => match self.engine.eval_bool_query(query, false) {
                Ok(a) => Ok(a),
                Err(e) => Err(describe_error(&e)),
            },
            Err(e) => Err(describe_error(&e)),
        };
        let verdict = match resolve_outcome(outcome, self.allow_failures) {
            Ok(v) => v,
            Err(e) => {
                return Err(e);
            },
        };
        let diagnostics = match self.engine.take_prints() {
            Ok(p) => Diagnostics::Prints(p),
            Err(e) => Diagnostics::Unavailable(describe_error(&e)),
        };
        Ok(Decision { allowed: verdict.allowed, overridden: verdict.overridden, diagnostics })
    }

    /// Sets the fail-open flag from the rules' own `AllowRequestsFailingPolicy`
    /// query, evaluated on an empty input with the flag clear. Returns the
    /// query's decision, on which the flag was set.
    fn update_allow_failures_flag(&mut self) -> (res: Result<Decision, String>)
        ensures
            final(self).log_enabled == old(self).log_enabled,
            modules_of(final(self).engine) == modules_of(old(self).engine),
            final(self).allow_failures == (res is Ok && res->Ok_0.allowed),
            res is Ok ==> !res->Ok_0.overridden,
    {
        self.allow_failures = false;
        let res = self.allow_request("AllowRequestsFailingPolicy", "{}");
        self.allow_failures = allows_failing_requests(&res);
        res
    }

    /// The diagnostic-log record for a call at endpoint `ep` with input
    /// `input`: one record when the log is on and the endpoint is not
    /// suppressed, none otherwise.
    pub fn log_entry(&self, ep: &str, input: &str) -> (r: Option<String>)
        ensures
            r is Some <==> (self.spec_log_enabled() && !is_log_suppressed(ep@)),
            r is Some ==> r->Some_0@ == log_record(ep@, input@),
    {
        if !self.log_enabled || log_suppressed(ep) {
            return None;
        }
        let mut s = "[\"ep\":\"".to_owned();
        push_str(&mut s, ep);
        push_str(&mut s, "\",");
        push_str(&mut s, input);
        push_str(&mut s, "],\n\n");
        Some(s)
    }

    /// Replaces the rule set by `policy`, once its digest has been checked
    /// against `host_data`, the measurement from the firmware's report. On any
    /// failure the previous rules and fail-open flag stay in force.
    pub fn set_policy(&mut self, policy: &str, host_data: &[u8]) -> (r: Result<(), PolicyError>)
        ensures
            !policy_accepted(policy.spec_bytes(), host_data@) ==> r is Err && r->Err_0 is Untrusted,
            policy_accepted(policy.spec_bytes(), host_data@) ==> r is Ok || r->Err_0 is Rejected,
            r is Ok ==> final(self).spec_modules() == seq![("agent_policy"@, policy@)],
            r is Err ==> *final(self) == *old(self),
            final(self).spec_log_enabled() == old(self).spec_log_enabled(),
    {
        match check_policy_hash(policy, host_data) {
            Ok(()) => {},
            Err(e) => {
                return Err(PolicyError::Untrusted(e));
            },
        }
        self.load("agent_policy", policy)
    }
}

/// Checks a call at endpoint `ep` whose request serialises to `request`.
/// With the fail-open flag set the call is never denied.
pub fn is_allowed(policy: &mut AgentPolicy, ep: &str, request: &str) -> (r: Result<
    (),
    PolicyError,
>)
    ensures
        final(policy).spec_allow_failures() == old(policy).spec_allow_failures(),
        final(policy).spec_log_enabled() == old(policy).spec_log_enabled(),
        r is Err ==> (r->Err_0 is Denied || r->Err_0 is Internal),
        r matches Err(PolicyError::Denied { ep: e, .. }) ==> e@ == ep@
            && !old(policy).spec_allow_failures(),
        r matches Err(PolicyError::Internal { ep: e, .. }) ==> e@ == ep@,
        old(policy).spec_allow_failures() ==> r is Ok,
        final(policy).spec_modules() == old(policy).spec_modules(),
{
    let res = policy.allow_request(ep, request);
    to_call_result(ep, res)
}

/// Checks a file copy, given the serialised form of its sanitised request.
pub fn is_allowed_copy_file(policy: &mut AgentPolicy, sanitized: &str) -> (r: Result<
    (),
    PolicyError,
>)
    ensures
        final(policy).spec_allow_failures() == old(policy).spec_allow_failures(),
        final(policy).spec_log_enabled() == old(policy).spec_log_enabled(),
        r is Err ==> (r->Err_0 is Denied || r->Err_0 is Internal),
        r matches Err(PolicyError::Denied { ep: e, .. }) ==> e@ == "CopyFileRequest"@
            && !old(policy).spec_allow_failures(),
        r matches Err(PolicyError::Internal { ep: e, .. }) ==> e@ == "CopyFileRequest"@,
        old(policy).spec_allow_failures() ==> r is Ok,
        final(policy).spec_modules() == old(policy).spec_modules(),
{
    is_allowed(policy, "CopyFileRequest", sanitized)
}

/// Replaces the active policy with `new_policy`, if the current policy allows
/// the replacement (whose request serialises to `request`) and the new text
/// matches the launch measurement `host_data`. Otherwise nothing changes.
pub fn do_set_policy(
    policy: &mut AgentPolicy,
    request: &str,
    new_policy: &str,
    host_data: &[u8],
) -> (r: Result<(), PolicyError>)
    ensures
        r is Ok ==> policy_accepted(new_policy.spec_bytes(), host_data@),
        r matches Err(PolicyError::Denied { ep: e, .. }) ==> e@ == "SetPolicyRequest"@,
        r matches Err(PolicyError::Untrusted(_)) ==> !policy_accepted(
            new_policy.spec_bytes(),
            host_data@,
        ),
        r matches Err(PolicyError::Internal { ep: e, .. }) ==> e@ == "SetPolicyRequest"@,
        r is Err ==> final(policy).spec_allow_failures() == old(policy).spec_allow_failures()
            && final(policy).spec_modules() == old(policy).spec_modules(),
        r is Ok ==> final(policy).spec_modules() == seq![("agent_policy"@, new_policy@)],
        final(policy).spec_log_enabled() == old(policy).spec_log_enabled(),
{
    match is_allowed(policy, "SetPolicyRequest", request) {
        Ok(()) => {},
        Err(e) => {
            return Err(e);
        },
    }
    policy.set_policy(new_policy, host_data)
}

} // verus!
