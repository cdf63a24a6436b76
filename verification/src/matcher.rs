//! The call-site matcher: decides for one call expression whether it targets a
//! listed intrinsic, and builds the diagnostic for it.
//!
//! Only a callee that was resolved to a path is looked at. A call through a
//! function value, a closure or a name that could not be resolved is passed
//! over in silence, whatever its source text looks like.

use crate::table::{lookup, replacement_table};
use crate::text::str_eq;
use vstd::prelude::*;
use vstd::string::StringExecFns;

verus! {

/// First segment of every path that the matcher flags.
pub const NAMESPACE: &'static str = "intrinsics";

/// Category under which every diagnostic is reported: a suggestion on style,
/// not an error.
pub const SEVERITY: &'static str = "style";

/// A source location, as a half-open range of byte offsets.
#[derive(Clone, Copy, Debug, PartialEq, Eq, Structural)]
pub struct Span {
    pub lo: u32,
    pub hi: u32,
}

/// The resolved, fully qualified path of a callee, segment by segment.
#[derive(Clone, Debug, PartialEq, Eq)]
pub struct CallTarget {
    pub segments: Vec<String>,
}

/// A call expression: where it stands, and what its callee resolved to.
/// `callee` is `None` where the callee is not a resolved path.
#[derive(Clone, Debug, PartialEq, Eq)]
pub struct CallExpression {
    pub span: Span,
    pub callee: Option<CallTarget>,
}

/// One finding, bound to the span of the call expression that caused it.
#[derive(Clone, Debug, PartialEq, Eq)]
pub struct Diagnostic {
    pub span: Span,
    pub severity: &'static str,
    pub message: String,
}

impl View for CallTarget {
    type V = Seq<Seq<char>>;

    open spec fn view(&self) -> Seq<Seq<char>> {
        Seq::new(self.segments@.len(), |i: int| self.segments@[i]@)
    }
}

/// Whether `path` is exactly `intrinsics` followed by a name of the table.
pub open spec fn names_listed_intrinsic(path: Seq<Seq<char>>) -> bool {
    &&& path.len() == 2
    &&& path[0] == NAMESPACE@
    &&& replacement_table().contains_key(path[1])
}

/// The message for intrinsic `name` with replacement `guidance`: both are put
/// into the template as they are.
pub open spec fn message_text(name: Seq<char>, guidance: Seq<char>) -> Seq<char> {
    "`"@ + name + "` is stabilized as "@ + guidance
}

impl CallExpression {
    /// Whether the call is one that the rule reports.
    pub open spec fn is_flagged(&self) -> bool {
        self.callee matches Some(target) && names_listed_intrinsic(target@)
    }

    /// The bare name of the callee, where the call is flagged.
    pub open spec fn intrinsic_name(&self) -> Seq<char>
        recommends
            self.is_flagged(),
    {
        self.callee->0@[1]
    }
}

/// What [`examine`] hands back for `call`: nothing where the call is not
/// flagged; else one diagnostic at the call's own span, whose message names
/// the intrinsic and the guidance that the table holds for it.
pub open spec fn reports(call: &CallExpression, report: Option<Diagnostic>) -> bool {
    match report {
        None => !call.is_flagged(),
        Some(diagnostic) => {
            &&& call.is_flagged()
            &&& diagnostic.span == call.span
            &&& diagnostic.severity@ == SEVERITY@
            &&& diagnostic.message@ == message_text(
                call.intrinsic_name(),
                replacement_table()[call.intrinsic_name()],
            )
        },
    }
}

/// Builds the message "`name` is stabilized as guidance".
pub fn stabilized_message(name: &str, guidance: &str) -> (message: String)
    ensures
        message@ == message_text(name@, guidance@),
{
    let mut message = String::from_str("`");
    message.append(name);
    message.append("` is stabilized as ");
    message.append(guidance);
    message
}

/// Examines one call expression. Returns a diagnostic where the callee
/// resolved to `intrinsics::<name>` with `<name>` in the table, and `None` for
/// every other call.
pub fn examine(call: &CallExpression) -> (report: Option<Diagnostic>)
    ensures
        reports(call, report),
{
    match &call.callee {
        None => None,
        Some(target) => {
            if target.segments.len() != 2 {
                return None;
            }
            if !str_eq(target.segments[0].as_str(), NAMESPACE) {
                return None;
            }
            let name = target.segments[1].as_str();
            match lookup(name) {
                None => None,
                Some(guidance) => Some(
                    Diagnostic {
                        span: call.span,
                        severity: SEVERITY,
                        message: stabilized_message(name, guidance),
                    },
                ),
            }
        },
    }
}

/// A call whose callee resolved to `intrinsics::<name>`, with `<name>` in the
/// table, gets exactly one diagnostic. Its message is the template filled with
/// that name and with the guidance that the table holds for it: the name
/// stands behind the opening backtick, the guidance at the end.
pub proof fn lemma_listed_intrinsic_is_reported(
    call: &CallExpression,
    report: Option<Diagnostic>,
    name: Seq<char>,
)
    requires
        call.callee matches Some(target) && target@ == seq![NAMESPACE@, name],
        replacement_table().contains_key(name),
        reports(call, report),
    ensures
        report matches Some(diagnostic) && {
            let guidance = replacement_table()[name];
            let message = diagnostic.message@;
            &&& diagnostic.span == call.span
            &&& message == message_text(name, guidance)
            &&& message.subrange(1, 1 + name.len() as int) == name
            &&& message.subrange(message.len() - guidance.len(), message.len() as int) == guidance
        },
{
    reveal_strlit("`");
    let guidance = replacement_table()[name];
    let message = message_text(name, guidance);
    assert(message.subrange(1, 1 + name.len() as int) =~= name);
    assert(message.subrange(message.len() - guidance.len(), message.len() as int) =~= guidance);
}

/// A callee path of another shape gets no diagnostic: one that has not exactly
/// two segments, or whose first segment is not `intrinsics`. What its last
/// segment is called does not matter.
pub proof fn lemma_other_shape_is_silent(call: &CallExpression, report: Option<Diagnostic>)
    requires
        call.callee matches Some(target) && (target@.len() != 2 || target@[0] != NAMESPACE@),
        reports(call, report),
    ensures
        report is None,
{
}

/// A call to `not_intrinsics::<name>` gets no diagnostic, though `<name>` is in
/// the table.
pub proof fn lemma_wrong_namespace_is_silent(
    call: &CallExpression,
    report: Option<Diagnostic>,
    name: Seq<char>,
)
    requires
        call.callee matches Some(target) && target@ == seq!["not_intrinsics"@, name],
        replacement_table().contains_key(name),
        reports(call, report),
    ensures
        report is None,
{
    reveal_strlit("not_intrinsics");
    reveal_strlit("intrinsics");
    assert("not_intrinsics"@.len() != "intrinsics"@.len());
}

/// A call to `intrinsics::<name>` gets no diagnostic where `<name>` is not in
/// the table.
pub proof fn lemma_unlisted_name_is_silent(
    call: &CallExpression,
    report: Option<Diagnostic>,
    name: Seq<char>,
)
    requires
        call.callee matches Some(target) && target@ == seq![NAMESPACE@, name],
        !replacement_table().contains_key(name),
        reports(call, report),
    ensures
        report is None,
{
}

/// A call whose callee is not a resolved path gets no diagnostic.
pub proof fn lemma_unresolved_callee_is_silent(call: &CallExpression, report: Option<Diagnostic>)
    requires
        call.callee is None,
        reports(call, report),
    ensures
        report is None,
{
}

/// Examining one call twice gives the same answer twice: either no diagnostic
/// both times, or two diagnostics with the same span, category and message.
pub proof fn lemma_examine_is_repeatable(
    call: &CallExpression,
    first: Option<Diagnostic>,
    second: Option<Diagnostic>,
)
    requires
        reports(call, first),
        reports(call, second),
    ensures
        first is Some <==> second is Some,
        first matches Some(a) ==> second matches Some(b) ==> {
            &&& a.span == b.span
            &&& a.severity@ == b.severity@
            &&& a.message@ == b.message@
        },
{
}

} // verus!
