//! Planning the execution of a query across subgraph services: request and
//! error types.

use vstd::prelude::*;
use vstd::string::StringExecFns;

use crate::decode::spec_code;
use crate::decode::spec_display;
use crate::decode::delivered_errors_view;
use crate::decode::DeliveredError;
use crate::decode::SpecGraphQlError;
use crate::session::BridgeFault;
use crate::session::BridgeOutcome;
use crate::session::SpecBridgeOutcome;

verus! {

/// Options for the query planner.
pub struct QueryPlanOptions {
    /// Whether the planner is permitted to rewrite selections into reusable
    /// fragments.
    pub auto_fragmentization: bool,
}

impl View for QueryPlanOptions {
    type V = bool;

    open spec fn view(&self) -> bool {
        self.auto_fragmentization
    }
}

impl Default for QueryPlanOptions {
    /// The default options: automatic fragmentization is off.
    fn default() -> (r: QueryPlanOptions)
        ensures
            r.auto_fragmentization == false,
    {
        QueryPlanOptions { auto_fragmentization: false }
    }
}

/// The planning input: a composed schema plus a query document.
pub struct OperationalContext {
    /// The composed GraphQL schema the query is planned against.
    pub schema: String,
    /// The query document.
    pub query: String,
    /// The operation to plan; empty means the default operation in the
    /// document.
    pub operation: String,
}

/// The mathematical model of an [`OperationalContext`]: its three fields as
/// character sequences.
pub struct SpecOperationalContext {
    pub schema: Seq<char>,
    pub query: Seq<char>,
    pub operation: Seq<char>,
}

impl View for OperationalContext {
    type V = SpecOperationalContext;

    open spec fn view(&self) -> SpecOperationalContext {
        SpecOperationalContext {
            schema: self.schema@,
            query: self.query@,
            operation: self.operation@,
        }
    }
}

/// The `extensions` property of an error reported by the embedded planning
/// module, carrying its error code.
#[derive(Debug)]
pub struct PlanningErrorExtensions {
    /// The planner's error code.
    pub code: String,
}

/// An error reported by the embedded module while planning.  A failing call
/// surfaces a non-empty ordered list of these.
#[derive(Debug)]
pub struct PlanningError {
    /// A human-readable description of the error that prevented planning.
    pub message: Option<String>,
    /// The error's extensions, carrying its code, when the embedded module
    /// supplied one.
    pub extensions: Option<PlanningErrorExtensions>,
}

impl View for PlanningError {
    type V = SpecGraphQlError;

    open spec fn view(&self) -> SpecGraphQlError {
        SpecGraphQlError {
            message: match self.message {
                Some(m) => Some(m@),
                None => None,
            },
            code: match self.extensions {
                Some(e) => Some(e.code@),
                None => None,
            },
        }
    }
}

impl PlanningError {
    /// Retrieve the error code from an error received during planning:
    /// the `extensions` code if present, else the sentinel.
    pub fn code(&self) -> (r: &str)
        ensures
            r@ == spec_code(self@),
    {
        match &self.extensions {
            Some(ext) => ext.code.as_str(),
            None => "UNKNOWN",
        }
    }

    /// The human-readable rendering of the error: its code, followed by its
    /// message when it has one.
    pub fn display_string(&self) -> (r: String)
        ensures
            r@ == spec_display(self@),
    {
        let mut s = String::new();
        s.append(self.code());
        if let Some(m) = &self.message {
            s.append(": ");
            s.append(m.as_str());
        }
        s
    }
}

impl PartialEq for PlanningErrorExtensions {
    fn eq(&self, other: &Self) -> (r: bool) {
        self.code == other.code
    }
}

impl vstd::std_specs::cmp::PartialEqSpecImpl for PlanningErrorExtensions {
    open spec fn obeys_eq_spec() -> bool {
        true
    }

    open spec fn eq_spec(&self, other: &Self) -> bool {
        self.code@ == other.code@
    }
}

impl PartialEq for PlanningError {
    fn eq(&self, other: &Self) -> (r: bool) {
        let message_eq = match (&self.message, &other.message) {
            (Some(a), Some(b)) => *a == *b,
            (None, None) => true,
            _ => false,
        };
        message_eq && match (&self.extensions, &other.extensions) {
            (Some(a), Some(b)) => a.code == b.code,
            (None, None) => true,
            _ => false,
        }
    }
}

impl vstd::std_specs::cmp::PartialEqSpecImpl for PlanningError {
    open spec fn obeys_eq_spec() -> bool {
        true
    }

    open spec fn eq_spec(&self, other: &Self) -> bool {
        self@ == other@
    }
}

/// The models of a sequence of planning errors, in order.
pub open spec fn planning_errors_view(l: Seq<PlanningError>) -> Seq<SpecGraphQlError> {
    l.map_values(|e: PlanningError| e@)
}

/// Adapt the errors delivered by the embedded module to planning errors,
/// keeping their order, messages and codes.
pub fn into_planning_errors(l: &Vec<DeliveredError>) -> (r: Vec<PlanningError>)
    ensures
        planning_errors_view(r@) == delivered_errors_view(l@),
        r@.len() == l@.len(),
{
    let mut out: Vec<PlanningError> = Vec::new();
    let mut i: usize = 0;
    while i < l.len()
        invariant
            i <= l@.len(),
            out@.len() == i,
            forall|k: int| 0 <= k < i ==> out@[k]@ == l@[k]@,
        decreases l@.len() - i,
    {
        let e = &l[i];
        let message = match &e.message {
            Some(m) => Some(m.clone()),
            None => None,
        };
        let extensions = match &e.code {
            Some(c) => Some(PlanningErrorExtensions { code: c.clone() }),
            None => None,
        };
        let adapted = PlanningError { message, extensions };
        proof {
            assert(adapted@ == e@);
        }
        out.push(adapted);
        i += 1;
    }
    proof {
        assert forall|k: int| 0 <= k < out@.len() implies planning_errors_view(out@)[k] == delivered_errors_view(
            l@,
        )[k] by {
            assert(out@[k]@ == l@[k]@);
        }
        assert(planning_errors_view(out@) =~= delivered_errors_view(l@));
    }
    out
}

/// Complete the planner call-shape: a session outcome becomes either the
/// serialized query plan, the non-empty list of planning errors, or — kept
/// apart from both — the bridge's own fault.
pub fn planning_result(outcome: BridgeOutcome) -> (r: Result<
    Result<String, Vec<PlanningError>>,
    BridgeFault,
>)
    ensures
        match outcome@ {
            SpecBridgeOutcome::Success(s) => r matches Ok(Ok(t)) && t@ == s,
            SpecBridgeOutcome::Errors(l) => r matches Ok(Err(v)) && planning_errors_view(v@) == l,
            SpecBridgeOutcome::Fault(f) => r matches Err(g) && g == f,
        },
{
    match outcome {
        BridgeOutcome::Success(s) => Ok(Ok(s)),
        BridgeOutcome::Errors(l) => Ok(Err(into_planning_errors(&l))),
        BridgeOutcome::Fault(f) => Err(f),
    }
}

} // verus!
