use core::cmp::Ordering;
use vstd::prelude::*;
use vstd::std_specs::cmp::{PartialEqSpec, PartialOrdSpec};
use vstd::string::*;

use crate::names::{WorkflowName, WorkflowRunName};
use crate::workflow::{
    fields_cmp, lemma_fields_cmp_equal, name_text, run_name_text, Workflow, WorkflowFields,
};

verus! {

/// A field of a workflow, as named in an error.
#[derive(Clone, Copy, Debug, PartialEq, Eq, Structural)]
pub enum WorkflowField {
    Name,
    RunName,
}

/// Why a builder could not be finalized into a [`Workflow`].
#[derive(Clone, Copy, Debug, PartialEq, Eq, Structural)]
pub enum WorkflowError {
    /// A field that the schema makes mandatory was never set.
    MissingMandatoryField(WorkflowField),
    /// A field holds text that a validating layer rejects. This model accepts
    /// any text, so it never reports this itself.
    InvalidFieldValue(WorkflowField),
}

/// The text shown for a builder: `WorkflowBuilder for <name>` once a name is
/// staged, otherwise the bare type name.
pub open spec fn builder_text(fields: WorkflowFields) -> Seq<char> {
    match fields.name {
        Some(n) => "WorkflowBuilder for "@ + n,
        None => "WorkflowBuilder"@,
    }
}

/// Stages the fields of a [`Workflow`] through chained calls, each taking the
/// builder by value and handing back the updated one, and finalizes them
/// with [`WorkflowBuilder::build`].
#[derive(Clone, Eq, Ord, Hash, Debug)]
pub struct WorkflowBuilder {
    name: Option<WorkflowName>,
    run_name: Option<WorkflowRunName>,
}

impl View for WorkflowBuilder {
    type V = WorkflowFields;

    closed spec fn view(&self) -> WorkflowFields {
        WorkflowFields { name: name_text(self.name), run_name: run_name_text(self.run_name) }
    }
}

impl WorkflowBuilder {
    /// A builder with no field staged.
    pub fn new() -> (r: Self)
        ensures
            r@ == WorkflowFields::empty(),
    {
        WorkflowBuilder { name: None, run_name: None }
    }

    /// Stages the name of the workflow, replacing any earlier one.
    pub fn name(self, name: WorkflowName) -> (r: Self)
        ensures
            r@ == self@.with_name(name@),
    {
        WorkflowBuilder { name: Some(name), ..self }
    }

    /// Stages the run-name of the workflow, replacing any earlier one.
    pub fn run_name(self, run_name: WorkflowRunName) -> (r: Self)
        ensures
            r@ == self@.with_run_name(run_name@),
    {
        WorkflowBuilder { run_name: Some(run_name), ..self }
    }

    /// Finalizes the staged fields into a workflow holding exactly them.
    ///
    /// No field is mandatory in this schema, so this always succeeds.
    pub fn build(self) -> (r: Result<Workflow, WorkflowError>)
        ensures
            match r {
                Ok(w) => w@ == self@,
                Err(_) => false,
            },
    {
        Ok(Workflow::from_parts(self.name, self.run_name))
    }

    /// The text shown for this builder (see [`builder_text`]).
    pub fn to_string(&self) -> (r: String)
        ensures
            r@ == builder_text(self@),
    {
        match &self.name {
            Some(name) => {
                let mut text = "WorkflowBuilder for ".to_owned();
                text.append(name.get());
                text
            },
            None => "WorkflowBuilder".to_owned(),
        }
    }
}

impl Default for WorkflowBuilder {
    fn default() -> (r: WorkflowBuilder)
        ensures
            r@ == WorkflowFields::empty(),
    {
        WorkflowBuilder::new()
    }
}

impl PartialEq for WorkflowBuilder {
    fn eq(&self, other: &WorkflowBuilder) -> (r: bool) {
        self.name == other.name && self.run_name == other.run_name
    }
}

impl vstd::std_specs::cmp::PartialEqSpecImpl for WorkflowBuilder {
    open spec fn obeys_eq_spec() -> bool {
        true
    }

    open spec fn eq_spec(&self, other: &WorkflowBuilder) -> bool {
        self@ == other@
    }
}

impl PartialOrd for WorkflowBuilder {
    fn partial_cmp(&self, other: &WorkflowBuilder) -> (r: Option<Ordering>) {
        match self.name.partial_cmp(&other.name) {
            Some(Ordering::Equal) => self.run_name.partial_cmp(&other.run_name),
            by_name => by_name,
        }
    }
}

impl vstd::std_specs::cmp::PartialOrdSpecImpl for WorkflowBuilder {
    open spec fn obeys_partial_cmp_spec() -> bool {
        true
    }

    open spec fn partial_cmp_spec(&self, other: &WorkflowBuilder) -> Option<Ordering> {
        Some(fields_cmp(self@, other@))
    }
}

/// Equal builders compare as `Equal`, and builders that compare as `Equal`
/// are equal.
pub proof fn lemma_builder_eq_matches_order(a: WorkflowBuilder, b: WorkflowBuilder)
    ensures
        a.eq_spec(&b) <==> a.partial_cmp_spec(&b) == Some(Ordering::Equal),
{
    lemma_fields_cmp_equal(a@, b@);
}

} // verus!
