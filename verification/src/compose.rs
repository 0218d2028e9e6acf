//! Composing subgraph schemas into a supergraph: request and error types.

use vstd::prelude::*;
use vstd::string::StringExecFns;

use crate::decode::spec_code;
use crate::decode::spec_display;
use crate::decode::delivered_errors_view;
use crate::decode::DeliveredError;
use crate::decode::SpecGraphQlError;
use crate::session::BridgeFault;
use crate::session::BridgeOutcome;
use crate::session::SpecBridgeOutcome;

verus! {

/// Everything the bridge needs to know about one service (subgraph) for its
/// GraphQL runtime responsibilities.
pub struct ServiceDefinition {
    /// The name of the service (subgraph), used in the composed schema and
    /// in the human-readable query plan.
    pub name: String,
    /// The routing/runtime URL where the subgraph can be found; it may be a
    /// placeholder sentinel.
    pub url: String,
    /// The schema definition language (SDL) text of the subgraph.
    pub type_defs: String,
}

/// The mathematical model of a [`ServiceDefinition`]: its three fields as
/// character sequences.
pub struct SpecServiceDefinition {
    pub name: Seq<char>,
    pub url: Seq<char>,
    pub type_defs: Seq<char>,
}

impl View for ServiceDefinition {
    type V = SpecServiceDefinition;

    open spec fn view(&self) -> SpecServiceDefinition {
        SpecServiceDefinition { name: self.name@, url: self.url@, type_defs: self.type_defs@ }
    }
}

impl ServiceDefinition {
    /// Create a new [`ServiceDefinition`] from the service's name, routing
    /// URL and schema text.
    pub fn new(name: &str, url: &str, type_defs: &str) -> (r: ServiceDefinition)
        ensures
            r@ == (SpecServiceDefinition { name: name@, url: url@, type_defs: type_defs@ }),
    {
        ServiceDefinition {
            name: name.to_owned(),
            url: url.to_owned(),
            type_defs: type_defs.to_owned(),
        }
    }
}

/// An ordered stack of the services (subgraphs) that, when composed in
/// order, will represent the supergraph.  The order is significant: it
/// decides merge precedence, and the marshaler preserves it end to end.
pub type ServiceList = Vec<ServiceDefinition>;

/// The `extensions` property of an error reported by the embedded
/// composition module, carrying its error code.
#[derive(Debug)]
pub struct CompositionErrorExtensions {
    /// A composition error code, such as a key or type mismatch reported by
    /// the embedded module.
    pub code: String,
}

/// An error reported by the embedded module while composing.  A failing
/// call surfaces a non-empty ordered list of these.
#[derive(Debug)]
pub struct CompositionError {
    /// A human-readable description of the error that prevented
    /// composition.
    pub message: Option<String>,
    /// The error's extensions, carrying its code, when the embedded module
    /// supplied one.
    pub extensions: Option<CompositionErrorExtensions>,
}

impl View for CompositionError {
    type V = SpecGraphQlError;

    open spec fn view(&self) -> SpecGraphQlError {
        SpecGraphQlError {
            message: match self.message {
                Some(m) => Some(m@),
                None => None,
            },
            code: match self.extensions {
                Some(e) => Some(e.code@),
                None => None,
            },
        }
    }
}

impl CompositionError {
    /// Retrieve the error code from an error received during composition:
    /// the `extensions` code if present, else the sentinel.
    pub fn code(&self) -> (r: &str)
        ensures
            r@ == spec_code(self@),
    {
        match &self.extensions {
            Some(ext) => ext.code.as_str(),
            None => "UNKNOWN",
        }
    }

    /// The human-readable rendering of the error: its code, followed by its
    /// message when it has one.
    pub fn display_string(&self) -> (r: String)
        ensures
            r@ == spec_display(self@),
    {
        let mut s = String::new();
        s.append(self.code());
        if let Some(m) = &self.message {
            s.append(": ");
            s.append(m.as_str());
        }
        s
    }
}

impl PartialEq for CompositionErrorExtensions {
    fn eq(&self, other: &Self) -> (r: bool) {
        self.code == other.code
    }
}

impl vstd::std_specs::cmp::PartialEqSpecImpl for CompositionErrorExtensions {
    open spec fn obeys_eq_spec() -> bool {
        true
    }

    open spec fn eq_spec(&self, other: &Self) -> bool {
        self.code@ == other.code@
    }
}

impl PartialEq for CompositionError {
    fn eq(&self, other: &Self) -> (r: bool) {
        let message_eq = match (&self.message, &other.message) {
            (Some(a), Some(b)) => *a == *b,
            (None, None) => true,
            _ => false,
        };
        message_eq && match (&self.extensions, &other.extensions) {
            (Some(a), Some(b)) => a.code == b.code,
            (None, None) => true,
            _ => false,
        }
    }
}

impl vstd::std_specs::cmp::PartialEqSpecImpl for CompositionError {
    open spec fn obeys_eq_spec() -> bool {
        true
    }

    open spec fn eq_spec(&self, other: &Self) -> bool {
        self@ == other@
    }
}

/// The models of a sequence of composition errors, in order.
pub open spec fn composition_errors_view(l: Seq<CompositionError>) -> Seq<SpecGraphQlError> {
    l.map_values(|e: CompositionError| e@)
}

/// Adapt the errors delivered by the embedded module to composition errors,
/// keeping their order, messages and codes.
pub fn into_composition_errors(l: &Vec<DeliveredError>) -> (r: Vec<CompositionError>)
    ensures
        composition_errors_view(r@) == delivered_errors_view(l@),
        r@.len() == l@.len(),
{
    let mut out: Vec<CompositionError> = Vec::new();
    let mut i: usize = 0;
    while i < l.len()
        invariant
            i <= l@.len(),
            out@.len() == i,
            forall|k: int| 0 <= k < i ==> out@[k]@ == l@[k]@,
        decreases l@.len() - i,
    {
        let e = &l[i];
        let message = match &e.message {
            Some(m) => Some(m.clone()),
            None => None,
        };
        let extensions = match &e.code {
            Some(c) => Some(CompositionErrorExtensions { code: c.clone() }),
            None => None,
        };
        let adapted = CompositionError { message, extensions };
        proof {
            assert(adapted@ == e@);
        }
        out.push(adapted);
        i += 1;
    }
    proof {
        assert forall|k: int| 0 <= k < out@.len() implies composition_errors_view(out@)[k] == delivered_errors_view(
            l@,
        )[k] by {
            assert(out@[k]@ == l@[k]@);
        }
        assert(composition_errors_view(out@) =~= delivered_errors_view(l@));
    }
    out
}

/// Complete the composer call-shape: a session outcome becomes either the
/// supergraph SDL, the non-empty list of composition errors, or — kept
/// apart from both — the bridge's own fault.
pub fn composition_result(outcome: BridgeOutcome) -> (r: Result<
    Result<String, Vec<CompositionError>>,
    BridgeFault,
>)
    ensures
        match outcome@ {
            SpecBridgeOutcome::Success(s) => r matches Ok(Ok(t)) && t@ == s,
            SpecBridgeOutcome::Errors(l) => r matches Ok(Err(v)) && composition_errors_view(v@)
                == l,
            SpecBridgeOutcome::Fault(f) => r matches Err(g) && g == f,
        },
{
    match outcome {
        BridgeOutcome::Success(s) => Ok(Ok(s)),
        BridgeOutcome::Errors(l) => Ok(Err(into_composition_errors(&l))),
        BridgeOutcome::Fault(f) => Err(f),
    }
}

} // verus!
