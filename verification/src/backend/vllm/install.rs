//! Installing vLLM into a virtual environment of its own.

use super::command::{validate_vllm_python, validation_failure, PythonCheck, ValidationStep};
use super::discovery::{
    did_import, did_succeed, managed_dir_names, managed_python_names, managed_venv, managed_vllm_dir, managed_vllm_python,
};
use super::platform::{
    install_rejection, managed_vllm_install_rejection, wsl_text, wsl_vllm_message, VllmPlatform,
};
use crate::backend::args::{push_file, push_text};
use crate::backend::generate::{arguments_of, Argument, CommandArg};
use crate::failure::Failure;
use crate::model::ModelStore;
use crate::paths::{is_below, path_text, shown_path};
use crate::process::{run_command, run_failure, CommandOutcome};
use crate::text::space::views;
use std::path::PathBuf;
use vstd::prelude::*;

verus! {

/// What is known of the Pythons on the machine: each answer once its question was asked.
#[derive(Debug, Clone)]
pub struct BootstrapAnswers {
    /// Whether the Python that is set is a file.
    pub set_is_file: Option<bool>,
    /// `python3` in the search path.
    pub python3: Option<Option<PathBuf>>,
    /// `python` in the search path.
    pub python: Option<Option<PathBuf>>,
}

/// What to do next to find a Python.
pub enum BootstrapStep {
    /// Find out whether the path is that of a file.
    CheckSet(PathBuf),
    FindPython3,
    FindPython,
    Done(Option<PathBuf>),
}

/// What to do next once the Python that is set is of no help.
pub open spec fn bootstrap_in_path(known: BootstrapAnswers) -> BootstrapStep {
    match known.python3 {
        None => BootstrapStep::FindPython3,
        Some(Some(path)) => BootstrapStep::Done(Some(path)),
        Some(None) => match known.python {
            None => BootstrapStep::FindPython,
            Some(found) => BootstrapStep::Done(found),
        },
    }
}

/// What to do next to find a Python: the one that is set, where it is a file; else `python3` and
/// `python` in the search path.
pub open spec fn bootstrap_step(set: Option<PathBuf>, known: BootstrapAnswers) -> BootstrapStep {
    match set {
        None => bootstrap_in_path(known),
        Some(path) => match known.set_is_file {
            None => BootstrapStep::CheckSet(path),
            Some(true) => BootstrapStep::Done(Some(path)),
            Some(false) => bootstrap_in_path(known),
        },
    }
}

/// What to do next to find a Python; `set` is the value of `WERK_VLLM_PYTHON`.
pub fn find_bootstrap_python(set: Option<&PathBuf>, known: &BootstrapAnswers) -> (step:
    BootstrapStep)
    ensures
        step == bootstrap_step(
            match set {
                Some(path) => Some(*path),
                None => None,
            },
            *known,
        ),
{
    match set {
        None => {},
        Some(path) => match known.set_is_file {
            None => {
                return BootstrapStep::CheckSet(path.clone());
            },
            Some(is_file) => {
                if is_file {
                    return BootstrapStep::Done(Some(path.clone()));
                }
            },
        },
    }
    match &known.python3 {
        None => BootstrapStep::FindPython3,
        Some(Some(path)) => BootstrapStep::Done(Some(path.clone())),
        Some(None) => match &known.python {
            None => BootstrapStep::FindPython,
            Some(Some(path)) => BootstrapStep::Done(Some(path.clone())),
            Some(None) => BootstrapStep::Done(None),
        },
    }
}

/// Where vLLM is installed.
#[derive(Debug, Clone)]
pub struct InstallPlan {
    pub platform: VllmPlatform,
    /// The directory of the managed vLLM.
    pub root: PathBuf,
    /// The virtual environment in it.
    pub venv: PathBuf,
    /// The Python of the virtual environment.
    pub venv_python: PathBuf,
    /// The value of `WERK_VLLM_PYTHON`.
    pub set_python: Option<PathBuf>,
}

impl InstallPlan {
    /// The plan for a store.
    pub fn new(
        store: &ModelStore,
        platform: VllmPlatform,
        set_python: Option<PathBuf>,
        windows: bool,
    ) -> (plan: InstallPlan)
        ensures
            plan.platform == platform,
            is_below(plan.root, store.home, managed_dir_names()),
            is_below(plan.venv, store.home, managed_dir_names() + seq!["venv"@]),
            is_below(plan.venv_python, store.home, managed_python_names(windows)),
            plan.set_python == set_python,
    {
        InstallPlan {
            platform,
            root: managed_vllm_dir(store),
            venv: managed_venv(store),
            venv_python: managed_vllm_python(store, windows),
            set_python,
        }
    }
}

/// What has come of the installation so far: each answer once its question was asked.
#[derive(Debug, Clone)]
pub struct VllmInstallAnswers {
    /// Whether the directory was made.
    pub directory_made: Option<Result<(), String>>,
    pub bootstrap: BootstrapAnswers,
    /// Whether the virtual environment has its Python.
    pub venv_is_there: Option<bool>,
    pub venv_made: Option<CommandOutcome>,
    pub pip_upgraded: Option<CommandOutcome>,
    pub vllm_installed: Option<CommandOutcome>,
    pub import: Option<PythonCheck>,
    pub help: Option<CommandOutcome>,
}

/// What to do next to install vLLM.
pub enum VllmInstallAction {
    Fail(Failure),
    MakeDirectory(PathBuf),
    /// Find a Python; the step is not the last one.
    FindPython(BootstrapStep),
    /// Find out whether the path is that of a file.
    CheckVenv(PathBuf),
    MakeVenv { program: PathBuf, args: Vec<CommandArg> },
    UpgradePip { program: PathBuf, args: Vec<CommandArg> },
    InstallVllm { program: PathBuf, args: Vec<CommandArg> },
    /// Find out whether the Python can import vLLM.
    CheckImport(PathBuf),
    /// Ask the server's module of the Python for help.
    RunHelp(PathBuf),
    Done(PathBuf),
}

/// What to do next to install vLLM, and what to print before it.
pub struct VllmInstallStep {
    pub notes: Vec<String>,
    pub action: VllmInstallAction,
}

/// Text arguments.
pub open spec fn text_arguments(texts: Seq<Seq<char>>) -> Seq<Argument> {
    texts.map_values(|text: Seq<char>| Argument::Text(text))
}

/// What is said where vLLM cannot be installed.
pub open spec fn install_context() -> Seq<char> {
    "failed to install vLLM; check network access, Python version, CUDA/PyTorch wheel availability"@
}

/// Whether a step fails for some reasons and prints nothing.
pub open spec fn fails_with(step: VllmInstallStep, messages: Seq<Seq<char>>) -> bool {
    &&& step.action matches VllmInstallAction::Fail(failure)
    &&& failure@ == messages
    &&& step.notes@.len() == 0
}

/// Whether a step is the one that follows once vLLM is in the virtual environment.
pub open spec fn is_validation_step(
    step: VllmInstallStep,
    plan: InstallPlan,
    known: VllmInstallAnswers,
) -> bool {
    match known.import {
        None => step.action == VllmInstallAction::CheckImport(plan.venv_python)
            && step.notes@.len() == 0,
        Some(import) => match validation_failure(plan.venv_python, import, known.help) {
            Some(messages) => fails_with(step, messages),
            None => if known.help is None {
                step.action == VllmInstallAction::RunHelp(plan.venv_python) && step.notes@.len()
                    == 0
            } else {
                step.action == VllmInstallAction::Done(plan.venv_python) && step.notes@.len() == 0
            },
        },
    }
}

/// Whether a step is the one that follows once the virtual environment is there.
pub open spec fn is_pip_step(
    step: VllmInstallStep,
    plan: InstallPlan,
    known: VllmInstallAnswers,
) -> bool {
    match known.pip_upgraded {
        None => step.action matches VllmInstallAction::UpgradePip { program, args } && program
            == plan.venv_python && arguments_of(args@) == text_arguments(
            seq!["-m"@, "pip"@, "install"@, "--upgrade"@, "pip"@],
        ) && views(step.notes@) == seq!["Installing vLLM into "@ + path_text(plan.venv)],
        Some(upgraded) => match run_failure(
            "failed to upgrade pip in vLLM virtualenv"@,
            upgraded,
        ) {
            Some(messages) => fails_with(step, messages),
            None => match known.vllm_installed {
                None => step.action matches VllmInstallAction::InstallVllm { program, args }
                    && program == plan.venv_python && arguments_of(args@) == text_arguments(
                    seq!["-m"@, "pip"@, "install"@, "vllm"@],
                ) && step.notes@.len() == 0,
                Some(installed) => match run_failure(install_context(), installed) {
                    Some(messages) => fails_with(step, messages),
                    None => is_validation_step(step, plan, known),
                },
            },
        },
    }
}

/// Whether a step is the one that follows once a Python is at hand.
pub open spec fn is_venv_step(
    step: VllmInstallStep,
    plan: InstallPlan,
    python: PathBuf,
    known: VllmInstallAnswers,
) -> bool {
    match known.venv_is_there {
        None => step.action == VllmInstallAction::CheckVenv(plan.venv_python) && step.notes@.len()
            == 0,
        Some(true) => is_pip_step(step, plan, known),
        Some(false) => match known.venv_made {
            None => step.action matches VllmInstallAction::MakeVenv { program, args } && program
                == python && arguments_of(args@) == text_arguments(seq!["-m"@, "venv"@]).push(
                Argument::File(plan.venv),
            ) && views(step.notes@) == seq!["Creating vLLM virtualenv at "@ + path_text(plan.venv)],
            Some(made) => match run_failure("failed to create vLLM virtualenv"@, made) {
                Some(messages) => fails_with(step, messages),
                None => is_pip_step(step, plan, known),
            },
        },
    }
}

/// Whether a step is the one that follows what has come of the installation so far.
pub open spec fn is_vllm_install_step(
    step: VllmInstallStep,
    plan: InstallPlan,
    known: VllmInstallAnswers,
) -> bool {
    match install_rejection(plan.platform) {
        Some(reason) => fails_with(step, seq![reason]),
        None => match known.directory_made {
            None => step.action == VllmInstallAction::MakeDirectory(plan.root) && views(step.notes@)
                == (if plan.platform == VllmPlatform::Wsl {
                seq![wsl_text()]
            } else {
                Seq::empty()
            }),
            Some(Err(reason)) => fails_with(
                step,
                seq!["failed to create vLLM backend cache "@ + path_text(plan.root), reason@],
            ),
            Some(Ok(_)) => match bootstrap_step(plan.set_python, known.bootstrap) {
                BootstrapStep::Done(None) => fails_with(
                    step,
                    seq!["no Python interpreter found; install python3 or set WERK_VLLM_PYTHON"@],
                ),
                BootstrapStep::Done(Some(python)) => is_venv_step(step, plan, python, known),
                question => step.action == VllmInstallAction::FindPython(question)
                    && step.notes@.len() == 0,
            },
        },
    }
}

fn failing(failure: Failure) -> (step: VllmInstallStep)
    ensures
        fails_with(step, failure@),
{
    VllmInstallStep { notes: Vec::new(), action: VllmInstallAction::Fail(failure) }
}

fn quiet(action: VllmInstallAction) -> (step: VllmInstallStep)
    ensures
        step.action == action,
        step.notes@.len() == 0,
{
    VllmInstallStep { notes: Vec::new(), action }
}

fn noted(note: String, action: VllmInstallAction) -> (step: VllmInstallStep)
    ensures
        step.action == action,
        views(step.notes@) == seq![note@],
{
    let mut notes: Vec<String> = Vec::new();
    notes.push(note);
    proof {
        assert(views(notes@) =~= seq![note@]);
    }
    VllmInstallStep { notes, action }
}

fn validation_step(plan: &InstallPlan, known: &VllmInstallAnswers) -> (step: VllmInstallStep)
    ensures
        is_validation_step(step, *plan, *known),
{
    match &known.import {
        None => quiet(VllmInstallAction::CheckImport(plan.venv_python.clone())),
        Some(import) => {
            let help = match &known.help {
                Some(outcome) => Some(outcome),
                None => None,
            };
            match validate_vllm_python(&plan.venv_python, import, help) {
                ValidationStep::Fail(failure) => failing(failure),
                ValidationStep::RunHelp => quiet(
                    VllmInstallAction::RunHelp(plan.venv_python.clone()),
                ),
                ValidationStep::Done => quiet(VllmInstallAction::Done(plan.venv_python.clone())),
            }
        },
    }
}

fn pip_step(plan: &InstallPlan, known: &VllmInstallAnswers) -> (step: VllmInstallStep)
    ensures
        is_pip_step(step, *plan, *known),
{
    let mut args: Vec<CommandArg> = Vec::new();
    push_text(&mut args, "-m");
    push_text(&mut args, "pip");
    push_text(&mut args, "install");
    match &known.pip_upgraded {
        None => {
            push_text(&mut args, "--upgrade");
            push_text(&mut args, "pip");
            proof {
                assert(arguments_of(args@) =~= text_arguments(
                    seq!["-m"@, "pip"@, "install"@, "--upgrade"@, "pip"@],
                ));
            }
            return noted(
                "Installing vLLM into ".to_string().concat(shown_path(&plan.venv).as_str()),
                VllmInstallAction::UpgradePip { program: plan.venv_python.clone(), args },
            );
        },
        Some(upgraded) => match run_command("failed to upgrade pip in vLLM virtualenv", upgraded) {
            Err(failure) => {
                return failing(failure);
            },
            Ok(_) => {},
        },
    }
    match &known.vllm_installed {
        None => {
            push_text(&mut args, "vllm");
            proof {
                assert(arguments_of(args@) =~= text_arguments(
                    seq!["-m"@, "pip"@, "install"@, "vllm"@],
                ));
            }
            quiet(VllmInstallAction::InstallVllm { program: plan.venv_python.clone(), args })
        },
        Some(installed) => match run_command(
            "failed to install vLLM; check network access, Python version, CUDA/PyTorch wheel availability",
            installed,
        ) {
            Err(failure) => failing(failure),
            Ok(_) => validation_step(plan, known),
        },
    }
}

fn venv_step(plan: &InstallPlan, python: PathBuf, known: &VllmInstallAnswers) -> (step:
    VllmInstallStep)
    ensures
        is_venv_step(step, *plan, python, *known),
{
    match known.venv_is_there {
        None => {
            return quiet(VllmInstallAction::CheckVenv(plan.venv_python.clone()));
        },
        Some(there) => {
            if there {
                return pip_step(plan, known);
            }
        },
    }
    match &known.venv_made {
        None => {
            let mut args: Vec<CommandArg> = Vec::new();
            push_text(&mut args, "-m");
            push_text(&mut args, "venv");
            push_file(&mut args, &plan.venv);
            proof {
                assert(arguments_of(args@) =~= text_arguments(seq!["-m"@, "venv"@]).push(
                    Argument::File(plan.venv),
                ));
            }
            noted(
                "Creating vLLM virtualenv at ".to_string().concat(shown_path(&plan.venv).as_str()),
                VllmInstallAction::MakeVenv { program: python, args },
            )
        },
        Some(made) => match run_command("failed to create vLLM virtualenv", made) {
            Err(failure) => failing(failure),
            Ok(_) => pip_step(plan, known),
        },
    }
}

/// What to do next to install vLLM.
pub fn install_managed_vllm(plan: &InstallPlan, known: &VllmInstallAnswers) -> (step:
    VllmInstallStep)
    ensures
        is_vllm_install_step(step, *plan, *known),
{
    match managed_vllm_install_rejection(plan.platform) {
        Some(reason) => {
            return failing(Failure::new(reason.to_string()));
        },
        None => {},
    }
    match &known.directory_made {
        None => {
            let action = VllmInstallAction::MakeDirectory(plan.root.clone());
            if plan.platform == VllmPlatform::Wsl {
                return noted(wsl_vllm_message().to_string(), action);
            }
            let step = quiet(action);
            proof {
                assert(views(step.notes@) =~= Seq::empty());
            }
            return step;
        },
        Some(Err(reason)) => {
            let message = "failed to create vLLM backend cache ".to_string().concat(
                shown_path(&plan.root).as_str(),
            );
            return failing(Failure::because(message, reason.clone()));
        },
        Some(Ok(_)) => {},
    }
    let set = match &plan.set_python {
        Some(path) => Some(path),
        None => None,
    };
    match find_bootstrap_python(set, &known.bootstrap) {
        BootstrapStep::Done(None) => failing(
            Failure::new(
                "no Python interpreter found; install python3 or set WERK_VLLM_PYTHON".to_string(),
            ),
        ),
        BootstrapStep::Done(Some(python)) => venv_step(plan, python, known),
        question => quiet(VllmInstallAction::FindPython(question)),
    }
}

/// The installation ends well only where vLLM was installed, can be imported and starts.
pub proof fn law_installed_vllm_works(
    step: VllmInstallStep,
    plan: InstallPlan,
    known: VllmInstallAnswers,
)
    requires
        is_vllm_install_step(step, plan, known),
        step.action is Done,
    ensures
        step.action == VllmInstallAction::Done(plan.venv_python),
        install_rejection(plan.platform) is None,
        known.vllm_installed is Some && run_failure(install_context(), known.vllm_installed->0)
            is None,
        known.import is Some && known.help is Some && validation_failure(
            plan.venv_python,
            known.import->0,
            known.help,
        ) is None,
{
}

/// The Python that makes the virtual environment is one that was found: the one that is set where
/// it is a file, else `python3` in the search path, else `python` there.
pub proof fn law_bootstrap_python_was_found(set: Option<PathBuf>, known: BootstrapAnswers)
    ensures
        ({
            let step = bootstrap_step(set, known);
            let set_works = set is Some && known.set_is_file == Some(true);
            let set_is_tried = set is None || known.set_is_file is Some;
            &&& set_works ==> step == BootstrapStep::Done(set)
            &&& set is Some && known.set_is_file is None ==> step == BootstrapStep::CheckSet(set->0)
            &&& !set_works && set_is_tried && known.python3 is None ==> step is FindPython3
            &&& !set_works && set_is_tried && known.python3 is Some && known.python3->0 is Some
                ==> step == BootstrapStep::Done(known.python3->0)
            &&& !set_works && set_is_tried && known.python3 == Some(None::<PathBuf>)
                && known.python is Some ==> step == BootstrapStep::Done(known.python->0)
            &&& !set_works && set_is_tried && known.python3 == Some(None::<PathBuf>)
                && known.python is None ==> step is FindPython
        }),
{
}

/// Each step of the installation follows only where those before it went well. The virtual
/// environment is made with the Python that was found, only where it is not there; all that comes
/// after is done with the Python of the virtual environment.
pub proof fn law_installation_goes_in_order(
    step: VllmInstallStep,
    plan: InstallPlan,
    known: VllmInstallAnswers,
)
    requires
        is_vllm_install_step(step, plan, known),
    ensures
        ({
            let has_venv = known.venv_is_there == Some(true) || (known.venv_is_there == Some(false)
                && did_succeed(known.venv_made));
            let has_root = known.directory_made is Some && known.directory_made->0 is Ok;
            &&& step.action matches VllmInstallAction::MakeVenv { program, args } ==> has_root
                && known.venv_is_there == Some(false) && bootstrap_step(
                plan.set_python,
                known.bootstrap,
            ) == BootstrapStep::Done(Some(program)) && arguments_of(args@).last() == Argument::File(
                plan.venv,
            ) && arguments_of(args@)[1] == Argument::Text("venv"@)
            &&& step.action matches VllmInstallAction::UpgradePip { program, args } ==> has_root
                && has_venv && program == plan.venv_python && known.pip_upgraded is None
            &&& step.action matches VllmInstallAction::InstallVllm { program, args } ==> has_root
                && has_venv && program == plan.venv_python && did_succeed(known.pip_upgraded)
                && known.vllm_installed is None && arguments_of(args@).last() == Argument::Text(
                "vllm"@,
            )
            &&& step.action matches VllmInstallAction::CheckImport(path) ==> has_venv && path
                == plan.venv_python && did_succeed(known.pip_upgraded) && did_succeed(
                known.vllm_installed,
            ) && known.import is None
            &&& step.action matches VllmInstallAction::RunHelp(path) ==> path == plan.venv_python
                && did_succeed(known.vllm_installed) && did_import(known.import)
                && known.help is None
            &&& step.action matches VllmInstallAction::Done(path) ==> path == plan.venv_python
                && has_root && has_venv && did_succeed(known.pip_upgraded) && did_succeed(
                known.vllm_installed,
            ) && did_import(known.import) && did_succeed(known.help)
            &&& step.action matches VllmInstallAction::MakeDirectory(path) ==> path == plan.root
            &&& step.action matches VllmInstallAction::CheckVenv(path) ==> path == plan.venv_python
                && has_root
        }),
        plan.platform != VllmPlatform::NativeLinux && plan.platform != VllmPlatform::Wsl
            ==> step.action is Fail,
        (plan.platform == VllmPlatform::NativeLinux || plan.platform == VllmPlatform::Wsl)
            && known.directory_made is None ==> step.action is MakeDirectory,
        known.venv_is_there == Some(false) && known.venv_made is Some && !did_succeed(
            known.venv_made,
        ) ==> !(step.action is UpgradePip) && !(step.action is InstallVllm) && !(step.action is
            Done),
{
}

} // verus!
