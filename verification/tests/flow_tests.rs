use scaffold::flow::{
    next_steps, overwrite_prompt, step, FlowAction, FlowError, FlowEvent, FlowState,
};
use scaffold::template::{Framework, Language, PackageManager};

fn expect_fail_message(action: &FlowAction) -> &str {
    match action {
        FlowAction::Fail { message } => message.as_str(),
        _ => panic!("expected a failure action"),
    }
}

#[test]
fn scenario_current_directory_javascript_vue() {
    // Target `.` in an empty current directory: no confirmation, template
    // `template-vue`, closing lines with an empty change-directory hint.
    let (s, a) = step(
        FlowState::Start,
        FlowEvent::Begin { target_arg: Some(".".to_string()) },
    );
    match &a {
        FlowAction::CheckTarget { target } => assert_eq!(target, "."),
        _ => panic!("expected a target check"),
    }
    let (s, a) = step(s, FlowEvent::TargetStatus { exists: true, effectively_empty: true });
    assert!(matches!(a, FlowAction::GetCwdName));
    let (s, a) = step(s, FlowEvent::CwdName { name: "proj".to_string() });
    assert!(matches!(a, FlowAction::PromptLanguage));
    let (s, a) = step(s, FlowEvent::LanguageChosen { language: Language::JavaScript });
    assert!(matches!(a, FlowAction::PromptFramework));
    let (s, a) = step(s, FlowEvent::FrameworkChosen { framework: Framework::Vue });
    assert!(matches!(a, FlowAction::FindRoot));
    match &s {
        FlowState::AwaitRoot { template, .. } => assert_eq!(template, "template-vue"),
        _ => panic!("expected to be waiting for the root"),
    }
    let (s, a) = step(s, FlowEvent::RootResolved { root: Some("/opt/tool".to_string()) });
    match &a {
        FlowAction::CopyTemplate { root, template, target } => {
            assert_eq!(root, "/opt/tool");
            assert_eq!(template, "template-vue");
            assert_eq!(target, ".");
        }
        _ => panic!("expected a copy"),
    }
    let (s, a) = step(s, FlowEvent::Copied);
    assert!(matches!(a, FlowAction::PromptManager));
    let (s, a) = step(s, FlowEvent::ManagerChosen { manager: PackageManager::Npm });
    assert!(matches!(s, FlowState::Done));
    match &a {
        FlowAction::Report { lines } => {
            assert_eq!(lines.len(), 3);
            assert_eq!(lines[0], "");
            assert_eq!(lines[1], "npm install");
            assert_eq!(lines[2], "npm run dev");
        }
        _ => panic!("expected the closing report"),
    }
}

#[test]
fn scenario_target_with_only_git_folder_skips_confirmation() {
    let (s, _) = step(
        FlowState::Start,
        FlowEvent::Begin { target_arg: Some("myapp".to_string()) },
    );
    // The shell would find `myapp` effectively empty (only `.git`).
    let (s, a) = step(s, FlowEvent::TargetStatus { exists: true, effectively_empty: true });
    assert!(matches!(a, FlowAction::PromptLanguage));
    assert!(matches!(s, FlowState::AwaitLanguage { .. }));
}

#[test]
fn scenario_nonempty_target_decline_aborts() {
    let (s, _) = step(
        FlowState::Start,
        FlowEvent::Begin { target_arg: Some("myapp".to_string()) },
    );
    let (s, a) = step(s, FlowEvent::TargetStatus { exists: true, effectively_empty: false });
    match &a {
        FlowAction::ConfirmOverwrite { message } => assert_eq!(
            message,
            "Target directory myapp is not empty. Remove existing files and continue??"
        ),
        _ => panic!("expected the overwrite confirmation"),
    }
    let (s, a) = step(s, FlowEvent::OverwriteAnswered { yes: false });
    assert!(matches!(
        s,
        FlowState::Failed { error: FlowError::OverwriteDeclined }
    ));
    assert_eq!(expect_fail_message(&a), "Operation canceled");
}

#[test]
fn scenario_nonempty_target_accept_clears_then_proceeds() {
    let (s, _) = step(
        FlowState::Start,
        FlowEvent::Begin { target_arg: Some("myapp".to_string()) },
    );
    let (s, _) = step(s, FlowEvent::TargetStatus { exists: true, effectively_empty: false });
    let (s, a) = step(s, FlowEvent::OverwriteAnswered { yes: true });
    match &a {
        FlowAction::ClearTarget { target } => assert_eq!(target, "myapp"),
        _ => panic!("expected the clear action"),
    }
    let (_, a) = step(s, FlowEvent::Cleared);
    assert!(matches!(a, FlowAction::PromptLanguage));
}

#[test]
fn missing_target_argument_prompts_for_it() {
    let (s, a) = step(FlowState::Start, FlowEvent::Begin { target_arg: None });
    assert!(matches!(a, FlowAction::PromptTarget));
    let (_, a) = step(s, FlowEvent::TargetEntered { text: "  app  ".to_string() });
    match &a {
        FlowAction::CheckTarget { target } => assert_eq!(target, "app"),
        _ => panic!("expected a target check"),
    }
}

#[test]
fn nonexistent_target_skips_confirmation() {
    let (s, _) = step(
        FlowState::Start,
        FlowEvent::Begin { target_arg: Some("fresh".to_string()) },
    );
    let (_, a) = step(s, FlowEvent::TargetStatus { exists: false, effectively_empty: false });
    assert!(matches!(a, FlowAction::PromptLanguage));
}

#[test]
fn invalid_project_name_is_fatal() {
    let (s, _) = step(
        FlowState::Start,
        FlowEvent::Begin { target_arg: Some("...".to_string()) },
    );
    let (s, a) = step(s, FlowEvent::TargetStatus { exists: false, effectively_empty: false });
    assert!(matches!(
        s,
        FlowState::Failed { error: FlowError::InvalidProjectName { .. } }
    ));
    assert_eq!(expect_fail_message(&a), "Invalid project name: ");
}

#[test]
fn canceled_prompt_is_fatal() {
    let (s, a) = step(FlowState::AwaitTarget, FlowEvent::Canceled);
    assert!(matches!(s, FlowState::Failed { error: FlowError::Canceled }));
    assert_eq!(expect_fail_message(&a), "Canceled");
}

#[test]
fn missing_root_is_fatal() {
    let pre = FlowState::AwaitRoot {
        target: "app".to_string(),
        template: "template-vue".to_string(),
    };
    let (s, a) = step(pre, FlowEvent::RootResolved { root: None });
    assert!(matches!(s, FlowState::Failed { error: FlowError::RootNotFound }));
    assert_eq!(expect_fail_message(&a), "Failed to find project root");
}

#[test]
fn filesystem_failure_carries_its_cause() {
    let pre = FlowState::AwaitClear { target: "app".to_string() };
    let (s, a) = step(pre, FlowEvent::FsFailed { detail: "permission denied".to_string() });
    assert!(matches!(s, FlowState::Failed { error: FlowError::Filesystem { .. } }));
    assert_eq!(expect_fail_message(&a), "permission denied");
}

#[test]
fn mismatched_event_is_internal_error() {
    let (s, a) = step(FlowState::Start, FlowEvent::Copied);
    assert!(matches!(s, FlowState::Failed { error: FlowError::Internal }));
    assert_eq!(expect_fail_message(&a), "Not supported now");
}

#[test]
fn overwrite_prompt_wording() {
    assert_eq!(overwrite_prompt("."), "Current directory");
    assert_eq!(
        overwrite_prompt("myapp"),
        "Target directory myapp is not empty. Remove existing files and continue??"
    );
}

#[test]
fn next_steps_lines() {
    let lines = next_steps(".", PackageManager::Npm);
    assert_eq!(lines, vec!["", "npm install", "npm run dev"]);
    let lines = next_steps("myapp", PackageManager::Pnpm);
    assert_eq!(lines, vec!["cd myapp", "pnpm install", "pnpm run dev"]);
    let lines = next_steps("myapp", PackageManager::Yarn);
    assert_eq!(lines[1], "yarn install");
}

#[test]
fn error_messages() {
    assert_eq!(FlowError::Canceled.message(), "Canceled");
    assert_eq!(FlowError::OverwriteDeclined.message(), "Operation canceled");
    assert_eq!(
        FlowError::InvalidProjectName { name: "BAD".to_string() }.message(),
        "Invalid project name: BAD"
    );
    assert_eq!(
        FlowError::Filesystem { detail: "cause".to_string() }.message(),
        "cause"
    );
    assert_eq!(FlowError::RootNotFound.message(), "Failed to find project root");
    assert_eq!(FlowError::Internal.message(), "Not supported now");
}
