//! Plans for verifying and previewing the infrastructure stacks.

use vstd::prelude::*;
use crate::command_plan::{join_path, path_join, CommandPlan};
use crate::text::concat2;

verus! {

/// A deployment stack of the infrastructure workspace.
#[derive(Copy, Clone, Debug, PartialEq, Eq)]
pub enum InfraStack {
    Dev,
    Stage,
    Prod,
}

/// The script suffix of a stack.
pub open spec fn stack_suffix(stack: InfraStack) -> Seq<char> {
    match stack {
        InfraStack::Dev => "dev"@,
        InfraStack::Stage => "stage"@,
        InfraStack::Prod => "prod"@,
    }
}

impl InfraStack {
    /// The suffix of the stack's npm scripts.
    pub fn script_suffix(self) -> (s: &'static str)
        ensures
            s@ == stack_suffix(self),
    {
        match self {
            InfraStack::Dev => "dev",
            InfraStack::Stage => "stage",
            InfraStack::Prod => "prod",
        }
    }
}

/// The Pulumi workspace under a workspace root.
pub open spec fn pulumi_dir(root: Seq<char>) -> Seq<char> {
    path_join(root, "infrastructure/pulumi"@)
}

/// The Pulumi workspace directory.
pub fn pulumi_workspace_dir(workspace_root: &str) -> (d: String)
    ensures
        d@ == pulumi_dir(workspace_root@),
{
    join_path(workspace_root, "infrastructure/pulumi")
}

/// `npm ci` in the Pulumi workspace.
pub fn npm_ci_plan(workspace_root: &str) -> (p: CommandPlan)
    ensures
        p.program@ == "npm"@,
        p.current_dir@ == pulumi_dir(workspace_root@),
        p.arg_views() == seq!["ci"@],
        p.env@.len() == 0,
{
    let dir = pulumi_workspace_dir(workspace_root);
    CommandPlan::new("npm", dir.as_str()).arg("ci")
}

/// The CI verification plans: `npm ci`, `npm test`, and the live lint.
pub fn verify_plans(workspace_root: &str) -> (plans: Vec<CommandPlan>)
    ensures
        plans.len() == 3,
        forall|i: int| 0 <= i < 3 ==> (#[trigger] plans[i]).program@ == "npm"@
            && plans[i].current_dir@ == pulumi_dir(workspace_root@)
            && plans[i].env@.len() == 0,
        plans[0].arg_views() == seq!["ci"@],
        plans[1].arg_views() == seq!["test"@],
        plans[2].arg_views() == seq!["--workspace"@, "live"@, "run"@, "lint"@],
{
    let dir = pulumi_workspace_dir(workspace_root);
    let mut plans: Vec<CommandPlan> = Vec::new();
    plans.push(npm_ci_plan(workspace_root));
    plans.push(CommandPlan::new("npm", dir.as_str()).arg("test"));
    let lint = CommandPlan::new("npm", dir.as_str()).args(&["--workspace", "live", "run", "lint"]);
    plans.push(lint);
    proof {
        assert(plans[2].arg_views() =~= seq!["--workspace"@, "live"@, "run"@, "lint"@]);
        assert(plans[1].arg_views() =~= seq!["test"@]);
    }
    plans
}

/// `npm --workspace live run preview:<stack>` in the Pulumi workspace.
pub fn preview_plan(workspace_root: &str, stack: InfraStack) -> (p: CommandPlan)
    ensures
        p.program@ == "npm"@,
        p.current_dir@ == pulumi_dir(workspace_root@),
        p.arg_views() == seq!["--workspace"@, "live"@, "run"@, "preview:"@ + stack_suffix(stack)],
        p.env@.len() == 0,
{
    let dir = pulumi_workspace_dir(workspace_root);
    let script = concat2("preview:", stack.script_suffix());
    let p = CommandPlan::new("npm", dir.as_str())
        .args(&["--workspace", "live", "run"])
        .arg(script.as_str());
    assert(p.arg_views() =~= seq!["--workspace"@, "live"@, "run"@, "preview:"@ + stack_suffix(stack)]);
    p
}

} // verus!
