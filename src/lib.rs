pub use self::builder::{WorkflowBuilder, WorkflowError, WorkflowField};
pub use self::names::{compare_text, text_cmp, WorkflowName, WorkflowRunName};
pub use self::workflow::{Workflow, WorkflowFields};

mod builder;
mod names;
mod workflow;
