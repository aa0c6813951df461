use core::cmp::Ordering;
use vstd::prelude::*;

use vstd::std_specs::cmp::{PartialEqSpec, PartialOrdSpec};

use crate::names::{lemma_text_cmp_equal, text_cmp, WorkflowName, WorkflowRunName};

verus! {

/// The fields of a workflow as plain text: what a [`Workflow`] holds, and
/// what a [`crate::WorkflowBuilder`] has staged. `None` is an absent field.
pub struct WorkflowFields {
    pub name: Option<Seq<char>>,
    pub run_name: Option<Seq<char>>,
}

impl WorkflowFields {
    /// Every field absent.
    pub open spec fn empty() -> WorkflowFields {
        WorkflowFields { name: None, run_name: None }
    }

    /// The same fields, with `name` present and set to `name`.
    pub open spec fn with_name(self, name: Seq<char>) -> WorkflowFields {
        WorkflowFields { name: Some(name), ..self }
    }

    /// The same fields, with `run_name` present and set to `run_name`.
    pub open spec fn with_run_name(self, run_name: Seq<char>) -> WorkflowFields {
        WorkflowFields { run_name: Some(run_name), ..self }
    }
}

/// The text of an optional workflow name.
pub open spec fn name_text(name: Option<WorkflowName>) -> Option<Seq<char>> {
    match name {
        Some(n) => Some(n@),
        None => None,
    }
}

/// The text of an optional run-name.
pub open spec fn run_name_text(run_name: Option<WorkflowRunName>) -> Option<Seq<char>> {
    match run_name {
        Some(n) => Some(n@),
        None => None,
    }
}

/// Order on optional texts: an absent text comes first, present ones
/// compare by [`text_cmp`].
pub open spec fn optional_text_cmp(a: Option<Seq<char>>, b: Option<Seq<char>>) -> Ordering {
    match (a, b) {
        (None, None) => Ordering::Equal,
        (None, Some(_)) => Ordering::Less,
        (Some(_), None) => Ordering::Greater,
        (Some(x), Some(y)) => text_cmp(x, y),
    }
}

/// Field-by-field order: by `name` first, then by `run_name`.
pub open spec fn fields_cmp(a: WorkflowFields, b: WorkflowFields) -> Ordering {
    match optional_text_cmp(a.name, b.name) {
        Ordering::Equal => optional_text_cmp(a.run_name, b.run_name),
        o => o,
    }
}

/// Two field sets compare equal exactly when they are the same.
pub proof fn lemma_fields_cmp_equal(a: WorkflowFields, b: WorkflowFields)
    ensures
        (fields_cmp(a, b) == Ordering::Equal) <==> (a == b),
{
    if let (Some(x), Some(y)) = (a.name, b.name) {
        lemma_text_cmp_equal(x, y);
    }
    if let (Some(x), Some(y)) = (a.run_name, b.run_name) {
        lemma_text_cmp_equal(x, y);
    }
}

/// The text shown for a workflow: its name when it has one, otherwise a
/// fixed placeholder. No other field takes part.
pub open spec fn workflow_text(fields: WorkflowFields) -> Seq<char> {
    match fields.name {
        Some(n) => n,
        None => "<unnamed workflow>"@,
    }
}

/// A continuous-integration workflow: an automated process that runs one or
/// more jobs when triggered.
///
/// Every field is optional. A workflow made by [`Default::default`] has none.
#[derive(Clone, Eq, Ord, Hash, Debug)]
pub struct Workflow {
    name: Option<WorkflowName>,
    run_name: Option<WorkflowRunName>,
}

impl View for Workflow {
    type V = WorkflowFields;

    closed spec fn view(&self) -> WorkflowFields {
        WorkflowFields { name: name_text(self.name), run_name: run_name_text(self.run_name) }
    }
}

impl Workflow {
    /// A workflow holding exactly the given fields.
    pub(crate) fn from_parts(name: Option<WorkflowName>, run_name: Option<WorkflowRunName>) -> (r:
        Workflow)
        ensures
            r@ == (WorkflowFields { name: name_text(name), run_name: run_name_text(run_name) }),
    {
        Workflow { name, run_name }
    }

    /// The name of the workflow, if it has one.
    pub fn name(&self) -> (r: &Option<WorkflowName>)
        ensures
            name_text(*r) == self@.name,
    {
        &self.name
    }

    /// Sets the name of the workflow, replacing any earlier one.
    pub fn set_name(&mut self, name: WorkflowName)
        ensures
            final(self)@ == old(self)@.with_name(name@),
    {
        self.name = Some(name);
    }

    /// The run-name of the workflow, if it has one.
    pub fn run_name(&self) -> (r: &Option<WorkflowRunName>)
        ensures
            run_name_text(*r) == self@.run_name,
    {
        &self.run_name
    }

    /// Sets the run-name of the workflow, replacing any earlier one.
    pub fn set_run_name(&mut self, run_name: WorkflowRunName)
        ensures
            final(self)@ == old(self)@.with_run_name(run_name@),
    {
        self.run_name = Some(run_name);
    }

    /// The text shown for this workflow (see [`workflow_text`]).
    pub fn to_string(&self) -> (r: String)
        ensures
            r@ == workflow_text(self@),
    {
        match &self.name {
            Some(name) => name.to_string(),
            None => "<unnamed workflow>".to_owned(),
        }
    }
}

impl Default for Workflow {
    fn default() -> (r: Workflow)
        ensures
            r@ == WorkflowFields::empty(),
    {
        Workflow { name: None, run_name: None }
    }
}

impl PartialEq for Workflow {
    fn eq(&self, other: &Workflow) -> (r: bool) {
        self.name == other.name && self.run_name == other.run_name
    }
}

impl vstd::std_specs::cmp::PartialEqSpecImpl for Workflow {
    open spec fn obeys_eq_spec() -> bool {
        true
    }

    open spec fn eq_spec(&self, other: &Workflow) -> bool {
        self@ == other@
    }
}

impl PartialOrd for Workflow {
    fn partial_cmp(&self, other: &Workflow) -> (r: Option<Ordering>) {
        match self.name.partial_cmp(&other.name) {
            Some(Ordering::Equal) => self.run_name.partial_cmp(&other.run_name),
            by_name => by_name,
        }
    }
}

impl vstd::std_specs::cmp::PartialOrdSpecImpl for Workflow {
    open spec fn obeys_partial_cmp_spec() -> bool {
        true
    }

    open spec fn partial_cmp_spec(&self, other: &Workflow) -> Option<Ordering> {
        Some(fields_cmp(self@, other@))
    }
}

/// Setting the name twice to the same value gives the same fields as setting
/// it once.
pub proof fn lemma_set_name_idempotent(fields: WorkflowFields, name: Seq<char>)
    ensures
        fields.with_name(name).with_name(name) == fields.with_name(name),
{
}

/// Setting the run-name twice to the same value gives the same fields as
/// setting it once.
pub proof fn lemma_set_run_name_idempotent(fields: WorkflowFields, run_name: Seq<char>)
    ensures
        fields.with_run_name(run_name).with_run_name(run_name) == fields.with_run_name(run_name),
{
}

/// Equal workflows compare as `Equal`, and workflows that compare as `Equal`
/// are equal.
pub proof fn lemma_workflow_eq_matches_order(a: Workflow, b: Workflow)
    ensures
        a.eq_spec(&b) <==> a.partial_cmp_spec(&b) == Some(Ordering::Equal),
{
    lemma_fields_cmp_equal(a@, b@);
}

} // verus!
