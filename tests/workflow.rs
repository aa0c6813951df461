use gh_workflow::{Workflow, WorkflowBuilder, WorkflowName, WorkflowRunName};

fn assert_send<T: Send>() {}

fn assert_sync<T: Sync>() {}

fn assert_unpin<T: Unpin>() {}

#[test]
fn builder() {
    let _builder = WorkflowBuilder::new()
        .name("workflow".into())
        .run_name("triggered by test".into());
}

#[test]
fn workflow() {
    let _workflow = Workflow::default();
}

#[test]
fn builder_name() {
    let mut builder = WorkflowBuilder::new();

    builder = builder.name(WorkflowName::new("workflow"));

    let workflow = builder.build().unwrap();
    assert_eq!(&Some(WorkflowName::new("workflow")), workflow.name());
}

#[test]
fn builder_run_name() {
    let mut builder = WorkflowBuilder::new();

    builder = builder.run_name(WorkflowRunName::new("workflow"));

    let workflow = builder.build().unwrap();
    assert_eq!(&Some(WorkflowRunName::new("workflow")), workflow.run_name());
}

#[test]
fn builder_trait_display_with_name() {
    let workflow_builder = WorkflowBuilder::new().name("workflow".into());

    assert_eq!("WorkflowBuilder for workflow", workflow_builder.to_string());
}

#[test]
fn builder_trait_display_without_name() {
    let workflow_builder = WorkflowBuilder::new();

    assert_eq!("WorkflowBuilder", workflow_builder.to_string());
}

#[test]
fn builder_trait_send() {
    assert_send::<WorkflowBuilder>();
}

#[test]
fn builder_trait_sync() {
    assert_sync::<WorkflowBuilder>();
}

#[test]
fn builder_trait_unpin() {
    assert_unpin::<WorkflowBuilder>();
}

#[test]
fn mod_name() {
    let workflow = WorkflowBuilder::new().name("workflow".into()).build().unwrap();

    assert_eq!(&Some(WorkflowName::new("workflow")), workflow.name());
}

#[test]
fn set_name() {
    let mut workflow = Workflow::default();

    workflow.set_name(WorkflowName::new("workflow"));

    assert_eq!(&Some(WorkflowName::new("workflow")), workflow.name());
}

#[test]
fn mod_run_name() {
    let workflow = WorkflowBuilder::new()
        .run_name("workflow".into())
        .build()
        .unwrap();

    assert_eq!(&Some(WorkflowRunName::new("workflow")), workflow.run_name());
}

#[test]
fn set_run_name() {
    let mut workflow = Workflow::default();

    workflow.set_run_name(WorkflowRunName::new("workflow"));

    assert_eq!(&Some(WorkflowRunName::new("workflow")), workflow.run_name());
}

#[test]
fn mod_trait_display_with_name() {
    let workflow = WorkflowBuilder::new().name("workflow".into()).build().unwrap();

    assert_eq!("workflow", workflow.to_string());
}

#[test]
fn mod_trait_display_without_name() {
    let workflow = Workflow::default();

    assert_eq!("<unnamed workflow>", workflow.to_string());
}

#[test]
fn mod_trait_send() {
    assert_send::<Workflow>();
}

#[test]
fn mod_trait_sync() {
    assert_sync::<Workflow>();
}

#[test]
fn mod_trait_unpin() {
    assert_unpin::<Workflow>();
}
