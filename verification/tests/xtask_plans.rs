use origin_platform::command_plan::{join_path, CommandPlan};
use origin_platform::infra::{self, InfraStack};
use origin_platform::security_book::{self, BookCommand};
use origin_platform::ui_e2e::{self, UiE2eScene};

#[test]
fn verify_plans_cover_ci_commands() {
    let plans = infra::verify_plans("/repo");
    let displays = plans.into_iter().map(|plan| plan.display()).collect::<Vec<_>>();
    assert_eq!(
        displays,
        vec![
            "npm ci".to_string(),
            "npm test".to_string(),
            "npm --workspace live run lint".to_string(),
        ]
    );
}

#[test]
fn preview_plan_targets_selected_stack() {
    let plan = infra::preview_plan("/repo", InfraStack::Stage);
    assert_eq!(plan.display(), "npm --workspace live run preview:stage");
}

#[test]
fn browser_install_plan_uses_ci_deps_flag() {
    let ci = ui_e2e::browser_install_plan("/repo", true);
    let local = ui_e2e::browser_install_plan("/repo", false);
    assert_eq!(ci.display(), "npm exec playwright install --with-deps chromium");
    assert_eq!(local.display(), "npm exec playwright install chromium");
}

#[test]
fn npm_ci_plan_installs_ui_e2e_dependencies() {
    let plan = ui_e2e::npm_ci_plan("/repo");
    assert_eq!(plan.display(), "npm ci");
}

#[test]
fn playwright_test_plan_sets_scene_environment() {
    let plan = ui_e2e::playwright_test_plan("/repo", Some(UiE2eScene::TerminalDefault));
    assert_eq!(plan.display(), "npm exec playwright test");
    assert_eq!(
        plan.env_value("SHORT_ORIGIN_E2E_SCENE").as_deref(),
        Some("terminal-default")
    );
}

#[test]
fn docs_preview_plan_forwards_passthrough_arguments() {
    let workspace_root = "/repo";
    let book_root = security_book::book_root(workspace_root);
    let passthrough = vec![
        "--hostname".to_string(),
        "127.0.0.1".to_string(),
        "--port".to_string(),
        "3001".to_string(),
    ];

    let plan = security_book::preview_plan(&book_root, &passthrough);

    assert_eq!(plan.program, "mdbook");
    assert_eq!(plan.current_dir, book_root);
    assert_eq!(
        plan.args,
        vec![
            "serve".to_string(),
            "--hostname".to_string(),
            "127.0.0.1".to_string(),
            "--port".to_string(),
            "3001".to_string(),
        ]
    );
}

#[test]
fn plans_run_in_their_workspace_directories() {
    assert_eq!(infra::pulumi_workspace_dir("/repo"), "/repo/infrastructure/pulumi");
    assert_eq!(infra::npm_ci_plan("/repo").current_dir, "/repo/infrastructure/pulumi");
    assert_eq!(ui_e2e::e2e_workspace_dir("/repo"), "/repo/ui/e2e");
    assert_eq!(security_book::book_root("/repo"), "/repo/docs/security-rust/book");
}

#[test]
fn playwright_plan_without_scene_sets_no_environment() {
    let plan = ui_e2e::playwright_test_plan("/repo", None);
    assert_eq!(plan.env_value("SHORT_ORIGIN_E2E_SCENE"), None);
    assert!(plan.env.is_empty());
}

#[test]
fn stacks_and_scenes_have_their_names() {
    assert_eq!(InfraStack::Dev.script_suffix(), "dev");
    assert_eq!(InfraStack::Stage.script_suffix(), "stage");
    assert_eq!(InfraStack::Prod.script_suffix(), "prod");
    assert_eq!(infra::preview_plan("/r", InfraStack::Prod).display(), "npm --workspace live run preview:prod");
    assert_eq!(UiE2eScene::TerminalDefault.id(), "terminal-default");
}

#[test]
fn command_plan_env_overrides_replace_earlier_values() {
    let mut plan = CommandPlan::new("tool", "/work").arg("a").args(&["b", "c"]);
    plan.set_env("KEY", "one");
    plan.set_env("OTHER", "x");
    plan.set_env("KEY", "two");
    assert_eq!(plan.display(), "tool a b c");
    assert_eq!(plan.env_value("KEY").as_deref(), Some("two"));
    assert_eq!(plan.env_value("OTHER").as_deref(), Some("x"));
    assert_eq!(plan.env_value("MISSING"), None);
    assert_eq!(plan.env.len(), 2);
}

#[test]
fn path_join_follows_unix_rules() {
    assert_eq!(join_path("/repo", "docs"), "/repo/docs");
    assert_eq!(join_path("/repo/", "docs"), "/repo/docs");
    assert_eq!(join_path("/repo", "/abs"), "/abs");
    assert_eq!(join_path("", "docs"), "docs");
}

#[test]
fn book_plans_forward_arguments() {
    let args = vec!["--open".to_string()];
    let plan = security_book::build_plan("/book", &args);
    assert_eq!(plan.display(), "mdbook build --open");
    assert_eq!(plan.current_dir, "/book");
    assert_eq!(security_book::nextest_plan("/repo").current_dir, "/repo");
    assert_eq!(security_book::nextest_plan("/repo").program, "cargo");
}

#[test]
fn security_book_subcommands_are_dispatched() {
    let s = |v: &[&str]| v.iter().map(|x| x.to_string()).collect::<Vec<_>>();
    assert_eq!(
        security_book::run(&s(&["build", "--open"])),
        Ok(BookCommand::Build(vec!["--open".to_string()]))
    );
    assert_eq!(security_book::run(&s(&["serve"])), Ok(BookCommand::Serve(Vec::new())));
    assert_eq!(security_book::run(&s(&["test", "ignored"])), Ok(BookCommand::Test));
    assert_eq!(
        security_book::run(&[]),
        Err("expected `security-book <build|serve|test>`".to_string())
    );
    assert_eq!(
        security_book::run(&s(&["publish"])),
        Err("unsupported security-book subcommand `publish`".to_string())
    );
}
