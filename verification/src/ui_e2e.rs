//! Plans for the browser end-to-end suite of the desktop shell.

use vstd::prelude::*;
use crate::command_plan::{env_lookup, join_path, path_join, CommandPlan};

verus! {

/// A scene the end-to-end suite can be focused on.
#[derive(Copy, Clone, Debug, PartialEq, Eq)]
pub enum UiE2eScene {
    ShellDefault,
    SettingsAppearance,
    SettingsAccessibility,
    ShellHighContrast,
    TerminalDefault,
}

/// The identifier of a scene.
pub open spec fn scene_id(scene: UiE2eScene) -> Seq<char> {
    match scene {
        UiE2eScene::ShellDefault => "shell-default"@,
        UiE2eScene::SettingsAppearance => "settings-appearance"@,
        UiE2eScene::SettingsAccessibility => "settings-accessibility"@,
        UiE2eScene::ShellHighContrast => "shell-high-contrast"@,
        UiE2eScene::TerminalDefault => "terminal-default"@,
    }
}

impl UiE2eScene {
    /// The scene's identifier.
    pub fn id(self) -> (s: &'static str)
        ensures
            s@ == scene_id(self),
    {
        match self {
            UiE2eScene::ShellDefault => "shell-default",
            UiE2eScene::SettingsAppearance => "settings-appearance",
            UiE2eScene::SettingsAccessibility => "settings-accessibility",
            UiE2eScene::ShellHighContrast => "shell-high-contrast",
            UiE2eScene::TerminalDefault => "terminal-default",
        }
    }
}

/// The end-to-end workspace under a workspace root.
pub open spec fn e2e_dir(root: Seq<char>) -> Seq<char> {
    path_join(root, "ui/e2e"@)
}

/// The end-to-end workspace directory.
pub fn e2e_workspace_dir(workspace_root: &str) -> (d: String)
    ensures
        d@ == e2e_dir(workspace_root@),
{
    join_path(workspace_root, "ui/e2e")
}

/// `npm ci` in the end-to-end workspace.
pub fn npm_ci_plan(workspace_root: &str) -> (p: CommandPlan)
    ensures
        p.program@ == "npm"@,
        p.current_dir@ == e2e_dir(workspace_root@),
        p.arg_views() == seq!["ci"@],
        p.env@.len() == 0,
{
    let dir = e2e_workspace_dir(workspace_root);
    CommandPlan::new("npm", dir.as_str()).arg("ci")
}

/// `npm exec playwright install [--with-deps] chromium`; CI also installs
/// the system dependencies.
pub fn browser_install_plan(workspace_root: &str, ci: bool) -> (p: CommandPlan)
    ensures
        p.program@ == "npm"@,
        p.current_dir@ == e2e_dir(workspace_root@),
        p.env@.len() == 0,
        ci ==> p.arg_views() == seq!["exec"@, "playwright"@, "install"@, "--with-deps"@, "chromium"@],
        !ci ==> p.arg_views() == seq!["exec"@, "playwright"@, "install"@, "chromium"@],
{
    let dir = e2e_workspace_dir(workspace_root);
    let mut plan = CommandPlan::new("npm", dir.as_str()).args(&["exec", "playwright", "install"]);
    if ci {
        plan.push_arg("--with-deps");
    }
    let p = plan.arg("chromium");
    if ci {
        assert(p.arg_views() =~= seq!["exec"@, "playwright"@, "install"@, "--with-deps"@, "chromium"@]);
    } else {
        assert(p.arg_views() =~= seq!["exec"@, "playwright"@, "install"@, "chromium"@]);
    }
    p
}

/// `npm exec playwright test`, focused on `scene` through the
/// `SHORT_ORIGIN_E2E_SCENE` variable when one is given.
pub fn playwright_test_plan(workspace_root: &str, scene: Option<UiE2eScene>) -> (p: CommandPlan)
    ensures
        p.program@ == "npm"@,
        p.current_dir@ == e2e_dir(workspace_root@),
        p.arg_views() == seq!["exec"@, "playwright"@, "test"@],
        forall|k: Seq<char>| #[trigger] env_lookup(p.env@, k) == match scene {
            Some(s) => if k == "SHORT_ORIGIN_E2E_SCENE"@ { Some(scene_id(s)) } else { None },
            None => None::<Seq<char>>,
        },
{
    let dir = e2e_workspace_dir(workspace_root);
    let mut plan = CommandPlan::new("npm", dir.as_str()).args(&["exec", "playwright", "test"]);
    assert(plan.arg_views() =~= seq!["exec"@, "playwright"@, "test"@]);
    assert(plan.env@ =~= Seq::<(String, String)>::empty());
    if let Some(s) = scene {
        plan.set_env("SHORT_ORIGIN_E2E_SCENE", s.id());
    }
    plan
}

} // verus!
