//! The interactive flow, as a state machine.
//!
//! The run is a linear sequence of prompts and filesystem steps with one
//! confirmation gate. The machine decides everything; the unverified shell
//! only performs the [`FlowAction`] it is handed — show a prompt, read a
//! directory, clear it, copy the template — and feeds the outcome back as
//! the next [`FlowEvent`]. Every fatal condition ends in
//! [`FlowState::Failed`] together with a [`FlowAction::Fail`] carrying the
//! message to print.

use vstd::prelude::*;
use crate::name::{norm_spec, trim_spec, valid_spec, normalize, validate, trim_str, is_current_dir};
use crate::template::{Language, Framework, PackageManager, template_name_spec, resolve_template};

verus! {

/// The fatal conditions a run can end in.
pub enum FlowError {
    /// The user interrupted a prompt.
    Canceled,
    /// The user declined to clear a non-empty target.
    OverwriteDeclined,
    /// The normalized project name fails the naming grammar.
    InvalidProjectName { name: String },
    /// A filesystem step failed; the shell's description of the cause.
    Filesystem { detail: String },
    /// No ancestor of the tool's location carries the manifest marker.
    RootNotFound,
    /// The machine was fed an event that its state cannot accept.
    Internal,
}

/// The message reported for each fatal condition.
pub open spec fn error_message_spec(e: FlowError) -> Seq<char> {
    match e {
        FlowError::Canceled => "Canceled"@,
        FlowError::OverwriteDeclined => "Operation canceled"@,
        FlowError::InvalidProjectName { name } => "Invalid project name: "@ + name@,
        FlowError::Filesystem { detail } => detail@,
        FlowError::RootNotFound => "Failed to find project root"@,
        FlowError::Internal => "Not supported now"@,
    }
}

impl FlowError {
    /// The user-visible message for this condition.
    pub fn message(&self) -> (r: String)
        ensures
            r@ == error_message_spec(*self),
    {
        match self {
            FlowError::Canceled => String::from_str("Canceled"),
            FlowError::OverwriteDeclined => String::from_str("Operation canceled"),
            FlowError::InvalidProjectName { name } => {
                let mut m = String::from_str("Invalid project name: ");
                m.append(name.as_str());
                m
            },
            FlowError::Filesystem { detail } => detail.clone(),
            FlowError::RootNotFound => String::from_str("Failed to find project root"),
            FlowError::Internal => String::from_str("Not supported now"),
        }
    }
}

/// Where the run stands.
pub enum FlowState {
    /// Nothing has happened yet.
    Start,
    /// The target-directory prompt is on screen.
    AwaitTarget,
    /// Waiting to hear whether the target exists and is effectively empty.
    AwaitStatus { target: String },
    /// The overwrite confirmation is on screen.
    AwaitOverwrite { target: String },
    /// Waiting for the target's children to be removed.
    AwaitClear { target: String },
    /// Waiting for the working directory's name, to derive the project name.
    AwaitCwdName { target: String },
    /// The language menu is on screen.
    AwaitLanguage { target: String },
    /// The framework menu is on screen.
    AwaitFramework { target: String, language: Language },
    /// Waiting for the installation root that holds the templates.
    AwaitRoot { target: String, template: String },
    /// Waiting for the template copy to finish.
    AwaitCopy { target: String },
    /// The package-manager menu is on screen.
    AwaitManager { target: String },
    /// The closing instructions have been handed out.
    Done,
    /// The run ended in a fatal condition.
    Failed { error: FlowError },
}

/// What the shell reports back to the machine.
pub enum FlowEvent {
    /// The run begins, with the command-line directory argument if given.
    Begin { target_arg: Option<String> },
    /// The target-directory prompt was answered.
    TargetEntered { text: String },
    /// A prompt was interrupted.
    Canceled,
    /// Whether the target exists, and if so whether it is effectively empty.
    TargetStatus { exists: bool, effectively_empty: bool },
    /// The overwrite confirmation was answered.
    OverwriteAnswered { yes: bool },
    /// The target's children were removed.
    Cleared,
    /// A filesystem step failed, with a description of the cause.
    FsFailed { detail: String },
    /// The working directory's base name.
    CwdName { name: String },
    /// A language was selected.
    LanguageChosen { language: Language },
    /// A framework was selected.
    FrameworkChosen { framework: Framework },
    /// The installation root, or nothing when no ancestor carries the marker.
    RootResolved { root: Option<String> },
    /// The template copy finished.
    Copied,
    /// A package manager was selected.
    ManagerChosen { manager: PackageManager },
}

/// What the shell must do next.
pub enum FlowAction {
    /// Show the target-directory prompt.
    PromptTarget,
    /// Report whether `target` exists and is effectively empty.
    CheckTarget { target: String },
    /// Show the overwrite confirmation with the given message.
    ConfirmOverwrite { message: String },
    /// Remove every direct child of `target`.
    ClearTarget { target: String },
    /// Report the working directory's base name.
    GetCwdName,
    /// Show the language menu.
    PromptLanguage,
    /// Show the framework menu.
    PromptFramework,
    /// Locate the installation root.
    FindRoot,
    /// Copy the template directory `template` under `root` into `target`.
    CopyTemplate { root: String, template: String, target: String },
    /// Show the package-manager menu.
    PromptManager,
    /// Print the closing instructions, one per line.
    Report { lines: Vec<String> },
    /// Print the message to the error stream and end with failure.
    Fail { message: String },
}

/// The overwrite confirmation's wording: a special label for the
/// current-directory sentinel, the target's name otherwise.
pub open spec fn overwrite_prompt_spec(target: Seq<char>) -> Seq<char> {
    if target == "."@ {
        "Current directory"@
    } else {
        "Target directory "@ + target + " is not empty. Remove existing files and continue??"@
    }
}

/// Builds the overwrite confirmation's message.
pub fn overwrite_prompt(target: &str) -> (r: String)
    ensures
        r@ == overwrite_prompt_spec(target@),
{
    if is_current_dir(target) {
        String::from_str("Current directory")
    } else {
        let mut m = String::from_str("Target directory ");
        m.append(target);
        m.append(" is not empty. Remove existing files and continue??");
        m
    }
}

/// The name a package manager is echoed under.
pub open spec fn manager_name_spec(m: PackageManager) -> Seq<char> {
    match m {
        PackageManager::Npm => "npm"@,
        PackageManager::Yarn => "yarn"@,
        PackageManager::Pnpm => "pnpm"@,
    }
}

/// Exec counterpart of [`manager_name_spec`].
pub fn manager_name(m: PackageManager) -> (r: &'static str)
    ensures
        r@ == manager_name_spec(m),
{
    match m {
        PackageManager::Npm => "npm",
        PackageManager::Yarn => "yarn",
        PackageManager::Pnpm => "pnpm",
    }
}

/// The change-directory hint: empty for the current-directory sentinel.
pub open spec fn cd_hint_spec(target: Seq<char>) -> Seq<char> {
    if target == "."@ {
        Seq::<char>::empty()
    } else {
        "cd "@ + target
    }
}

/// The three closing instruction lines are as owed: the change-directory
/// hint, then `<manager> install`, then `<manager> run dev`.
pub open spec fn report_lines_ok(target: Seq<char>, m: PackageManager, lines: Seq<String>) -> bool {
    &&& lines.len() == 3
    &&& lines[0]@ == cd_hint_spec(target)
    &&& lines[1]@ == manager_name_spec(m) + " install"@
    &&& lines[2]@ == manager_name_spec(m) + " run dev"@
}

/// Builds the closing instruction lines.
pub fn next_steps(target: &str, m: PackageManager) -> (r: Vec<String>)
    ensures
        report_lines_ok(target@, m, r@),
{
    let mut lines: Vec<String> = Vec::new();
    if is_current_dir(target) {
        lines.push(String::new());
    } else {
        let mut cd = String::from_str("cd ");
        cd.append(target);
        lines.push(cd);
    }
    let mut install = String::from_str(manager_name(m));
    install.append(" install");
    lines.push(install);
    let mut dev = String::from_str(manager_name(m));
    dev.append(" run dev");
    lines.push(dev);
    lines
}

/// The machine fails with `err`, and the action prints its message.
pub open spec fn fails_as(post: FlowState, act: FlowAction, err: FlowError) -> bool {
    &&& post matches FlowState::Failed { error } && error == err
    &&& act matches FlowAction::Fail { message } && message@ == error_message_spec(err)
}

/// A raw target string was accepted: it is trimmed, and the machine asks
/// for its status on disk.
pub open spec fn target_accepted(raw: Seq<char>, post: FlowState, act: FlowAction) -> bool {
    &&& post matches FlowState::AwaitStatus { target } && target@ == trim_spec(raw)
    &&& act matches FlowAction::CheckTarget { target } && target@ == trim_spec(raw)
}

/// The project name derived from `raw` is normalized and checked: a valid
/// name moves on to the language menu, an invalid one is fatal.
pub open spec fn name_checked(target: String, raw: Seq<char>, post: FlowState, act: FlowAction) -> bool {
    if valid_spec(norm_spec(raw)) {
        &&& post matches FlowState::AwaitLanguage { target: t } && t == target
        &&& act is PromptLanguage
    } else {
        &&& post matches FlowState::Failed { error } && error matches FlowError::InvalidProjectName {
            name,
        } && name@ == norm_spec(raw)
        &&& act matches FlowAction::Fail { message } && message@ == "Invalid project name: "@
            + norm_spec(raw)
    }
}

/// After the target is settled, the project name is derived: from the
/// working directory's name for the current-directory sentinel, from the
/// target itself otherwise.
pub open spec fn name_phase(target: String, post: FlowState, act: FlowAction) -> bool {
    if target@ == "."@ {
        &&& post matches FlowState::AwaitCwdName { target: t } && t == target
        &&& act is GetCwdName
    } else {
        name_checked(target, target@, post, act)
    }
}

/// The transition relation of the flow: what state and action each event
/// leads to from each state.
pub open spec fn step_spec(pre: FlowState, ev: FlowEvent, post: FlowState, act: FlowAction) -> bool {
    match (pre, ev) {
        (FlowState::Start, FlowEvent::Begin { target_arg: Option::None }) => {
            &&& post is AwaitTarget
            &&& act is PromptTarget
        },
        (FlowState::Start, FlowEvent::Begin { target_arg: Option::Some(dir) }) => target_accepted(
            dir@,
            post,
            act,
        ),
        (FlowState::AwaitTarget, FlowEvent::TargetEntered { text }) => target_accepted(
            text@,
            post,
            act,
        ),
        (
            FlowState::AwaitStatus { target },
            FlowEvent::TargetStatus { exists, effectively_empty },
        ) => {
            if exists && !effectively_empty {
                &&& post matches FlowState::AwaitOverwrite { target: t } && t == target
                &&& act matches FlowAction::ConfirmOverwrite { message } && message@
                    == overwrite_prompt_spec(target@)
            } else {
                name_phase(target, post, act)
            }
        },
        (FlowState::AwaitOverwrite { target }, FlowEvent::OverwriteAnswered { yes }) => {
            if yes {
                &&& post matches FlowState::AwaitClear { target: t } && t == target
                &&& act matches FlowAction::ClearTarget { target: t } && t == target
            } else {
                fails_as(post, act, FlowError::OverwriteDeclined)
            }
        },
        (FlowState::AwaitClear { target }, FlowEvent::Cleared) => name_phase(target, post, act),
        (FlowState::AwaitCwdName { target }, FlowEvent::CwdName { name }) => name_checked(
            target,
            name@,
            post,
            act,
        ),
        (FlowState::AwaitLanguage { target }, FlowEvent::LanguageChosen { language }) => {
            &&& post matches FlowState::AwaitFramework { target: t, language: l } && t == target
                && l == language
            &&& act is PromptFramework
        },
        (
            FlowState::AwaitFramework { target, language },
            FlowEvent::FrameworkChosen { framework },
        ) => {
            &&& post matches FlowState::AwaitRoot { target: t, template } && t == target
                && template@ == template_name_spec(language, framework)
            &&& act is FindRoot
        },
        (
            FlowState::AwaitRoot { target, template },
            FlowEvent::RootResolved { root: Option::Some(root) },
        ) => {
            &&& post matches FlowState::AwaitCopy { target: t } && t == target
            &&& act matches FlowAction::CopyTemplate { root: r, template: tp, target: t } && r
                == root && tp == template && t == target
        },
        (FlowState::AwaitRoot { .. }, FlowEvent::RootResolved { root: Option::None }) => fails_as(
            post,
            act,
            FlowError::RootNotFound,
        ),
        (FlowState::AwaitCopy { target }, FlowEvent::Copied) => {
            &&& post matches FlowState::AwaitManager { target: t } && t == target
            &&& act is PromptManager
        },
        (FlowState::AwaitManager { target }, FlowEvent::ManagerChosen { manager }) => {
            &&& post is Done
            &&& act matches FlowAction::Report { lines } && report_lines_ok(
                target@,
                manager,
                lines@,
            )
        },
        (_, FlowEvent::Canceled) => fails_as(post, act, FlowError::Canceled),
        (_, FlowEvent::FsFailed { detail }) => fails_as(
            post,
            act,
            FlowError::Filesystem { detail },
        ),
        _ => fails_as(post, act, FlowError::Internal),
    }
}

/// Accepts a raw target string: trims it and asks for its status.
fn accept_target(raw: &str) -> (r: (FlowState, FlowAction))
    ensures
        target_accepted(raw@, r.0, r.1),
{
    let target = trim_str(raw);
    let t2 = target.clone();
    (FlowState::AwaitStatus { target }, FlowAction::CheckTarget { target: t2 })
}

/// Fails with `err`, handing out its message.
fn fail_with(err: FlowError) -> (r: (FlowState, FlowAction))
    ensures
        fails_as(r.0, r.1, err),
{
    let message = err.message();
    (FlowState::Failed { error: err }, FlowAction::Fail { message })
}

/// Derives and checks the project name from `raw`, keeping `target`.
fn check_name(target: String, raw: &str) -> (r: (FlowState, FlowAction))
    ensures
        name_checked(target, raw@, r.0, r.1),
{
    let name = normalize(raw);
    if validate(name.as_str()) {
        (FlowState::AwaitLanguage { target }, FlowAction::PromptLanguage)
    } else {
        fail_with(FlowError::InvalidProjectName { name })
    }
}

/// Moves to the name-validation phase for a settled target.
fn enter_name_phase(target: String) -> (r: (FlowState, FlowAction))
    ensures
        name_phase(target, r.0, r.1),
{
    if is_current_dir(target.as_str()) {
        (FlowState::AwaitCwdName { target }, FlowAction::GetCwdName)
    } else {
        let t2 = target.clone();
        check_name(t2, target.as_str())
    }
}

/// Advances the flow by one event, returning the next state and the action
/// the shell must perform.
pub fn step(pre: FlowState, ev: FlowEvent) -> (r: (FlowState, FlowAction))
    ensures
        step_spec(pre, ev, r.0, r.1),
{
    match (pre, ev) {
        (FlowState::Start, FlowEvent::Begin { target_arg: Option::None }) => (
            FlowState::AwaitTarget,
            FlowAction::PromptTarget,
        ),
        (FlowState::Start, FlowEvent::Begin { target_arg: Option::Some(dir) }) => accept_target(
            dir.as_str(),
        ),
        (FlowState::AwaitTarget, FlowEvent::TargetEntered { text }) => accept_target(text.as_str()),
        (
            FlowState::AwaitStatus { target },
            FlowEvent::TargetStatus { exists, effectively_empty },
        ) => {
            if exists && !effectively_empty {
                let message = overwrite_prompt(target.as_str());
                (FlowState::AwaitOverwrite { target }, FlowAction::ConfirmOverwrite { message })
            } else {
                enter_name_phase(target)
            }
        },
        (FlowState::AwaitOverwrite { target }, FlowEvent::OverwriteAnswered { yes }) => {
            if yes {
                let t2 = target.clone();
                (FlowState::AwaitClear { target }, FlowAction::ClearTarget { target: t2 })
            } else {
                fail_with(FlowError::OverwriteDeclined)
            }
        },
        (FlowState::AwaitClear { target }, FlowEvent::Cleared) => enter_name_phase(target),
        (FlowState::AwaitCwdName { target }, FlowEvent::CwdName { name }) => check_name(
            target,
            name.as_str(),
        ),
        (FlowState::AwaitLanguage { target }, FlowEvent::LanguageChosen { language }) => (
            FlowState::AwaitFramework { target, language },
            FlowAction::PromptFramework,
        ),
        (
            FlowState::AwaitFramework { target, language },
            FlowEvent::FrameworkChosen { framework },
        ) => {
            let template = resolve_template(language, framework);
            (FlowState::AwaitRoot { target, template }, FlowAction::FindRoot)
        },
        (
            FlowState::AwaitRoot { target, template },
            FlowEvent::RootResolved { root: Option::Some(root) },
        ) => {
            let t2 = target.clone();
            (
                FlowState::AwaitCopy { target },
                FlowAction::CopyTemplate { root, template, target: t2 },
            )
        },
        (FlowState::AwaitRoot { .. }, FlowEvent::RootResolved { root: Option::None }) => fail_with(
            FlowError::RootNotFound,
        ),
        (FlowState::AwaitCopy { target }, FlowEvent::Copied) => (
            FlowState::AwaitManager { target },
            FlowAction::PromptManager,
        ),
        (FlowState::AwaitManager { target }, FlowEvent::ManagerChosen { manager }) => {
            let lines = next_steps(target.as_str(), manager);
            (FlowState::Done, FlowAction::Report { lines })
        },
        (_, FlowEvent::Canceled) => fail_with(FlowError::Canceled),
        (_, FlowEvent::FsFailed { detail }) => fail_with(FlowError::Filesystem { detail }),
        _ => fail_with(FlowError::Internal),
    }
}

} // verus!
