//! The directory of a model that a vLLM server is started on.

use crate::backend::runner::{no_directory_message, no_directory_text};
use crate::failure::Failure;
use crate::model::ModelManifest;
use crate::paths::{
    entry_path, has_parent, is_below, is_beside, is_parent, lemma_below_below, lemma_plain_name,
    parent_path, path_parts, path_text, shown_path,
};
use std::path::PathBuf;
use vstd::prelude::*;

verus! {

/// What is known of the files so far: each answer once its question was asked.
#[derive(Debug, Clone, Copy)]
pub struct ModelDirAnswers {
    /// Whether the model's directory is there.
    pub root: Option<bool>,
    /// Whether `config.json` is in the directory of the file that the manifest names.
    pub named: Option<bool>,
    /// Whether `config.json` is in the directory of the model's files.
    pub files: Option<bool>,
    /// Whether `config.json` is in the model's directory.
    pub in_root: Option<bool>,
}

/// What to do next to find the directory.
pub enum ModelDirStep {
    Fail(Failure),
    /// Ask for the path of this file of the model.
    AskFile(String),
    /// Find out whether the path is that of a directory.
    CheckRoot(PathBuf),
    /// Find out whether the path, beside the file that the manifest names, is that of a file.
    CheckNamed(PathBuf),
    /// Find out whether the path, among the model's files, is that of a file.
    CheckFiles(PathBuf),
    /// Find out whether the path, in the model's directory, is that of a file.
    CheckInRoot(PathBuf),
    Done(PathBuf),
}

/// What is said when no directory holds the configuration; `config` is the path of the file that
/// the manifest names.
pub open spec fn no_config_text(
    id: Seq<char>,
    config: Option<PathBuf>,
    files: PathBuf,
    root: PathBuf,
) -> Seq<char> {
    "vLLM requires a Hugging Face model directory containing config.json for '"@ + id
        + "'; tried manifest config_path "@ + (match config {
        Some(path) => path_text(path),
        None => "<none>"@,
    }) + ", files directory "@ + path_text(files) + ", and model root "@ + path_text(root)
}

/// Whether a step is the one that follows once the file that the manifest names is of no help.
pub open spec fn is_files_step(
    step: ModelDirStep,
    manifest: ModelManifest,
    root: PathBuf,
    config: Option<PathBuf>,
    known: ModelDirAnswers,
) -> bool {
    match known.files {
        None => step matches ModelDirStep::CheckFiles(path) && is_below(
            path,
            root,
            seq!["files"@, "config.json"@],
        ),
        Some(true) => step matches ModelDirStep::Done(dir) && is_below(dir, root, seq!["files"@]),
        Some(false) => match known.in_root {
            None => step matches ModelDirStep::CheckInRoot(path) && is_below(
                path,
                root,
                seq!["config.json"@],
            ),
            Some(true) => step matches ModelDirStep::Done(dir) && dir == root,
            Some(false) => exists|files: PathBuf|
                is_below(files, root, seq!["files"@]) && fails_without_config(
                    step,
                    manifest,
                    config,
                    files,
                    root,
                ),
        },
    }
}

/// Whether a step fails because no directory holds the configuration.
pub open spec fn fails_without_config(
    step: ModelDirStep,
    manifest: ModelManifest,
    config: Option<PathBuf>,
    files: PathBuf,
    root: PathBuf,
) -> bool {
    step matches ModelDirStep::Fail(failure) && failure@ == seq![
        no_config_text(manifest.id@, config, files, root),
    ]
}

/// Whether a step is the one that follows what is known of the files so far: the directory of the
/// file that the manifest names is tried first, after it that of the model's files, and at last
/// the model's directory itself.
pub open spec fn is_model_dir_step(
    step: ModelDirStep,
    manifest: ModelManifest,
    root: PathBuf,
    config: Option<PathBuf>,
    known: ModelDirAnswers,
) -> bool {
    match known.root {
        None => step matches ModelDirStep::CheckRoot(dir) && dir == root,
        Some(false) => step matches ModelDirStep::Fail(failure) && failure@ == seq![
            no_directory_text(manifest.id@, root),
        ],
        Some(true) => match manifest.config_path {
            None => is_files_step(step, manifest, root, None, known),
            Some(name) => match config {
                None => step matches ModelDirStep::AskFile(asked) && asked@ == name@,
                Some(path) => if !has_parent(path_parts(path)) {
                    step matches ModelDirStep::Fail(failure) && failure@ == seq![
                        "manifest config_path '"@ + name@ + "' has no parent directory"@,
                    ]
                } else {
                    match known.named {
                        None => step matches ModelDirStep::CheckNamed(file) && is_beside(
                            file,
                            path,
                            seq!["config.json"@],
                        ),
                        Some(true) => step matches ModelDirStep::Done(found) && is_parent(
                            found,
                            path,
                        ),
                        Some(false) => is_files_step(step, manifest, root, Some(path), known),
                    }
                },
            },
        },
    }
}

fn config_in(dir: &PathBuf) -> (path: PathBuf)
    ensures
        is_below(path, *dir, seq!["config.json"@]),
{
    proof {
        reveal_strlit("config.json");
        lemma_plain_name("config.json"@);
    }
    entry_path(dir, "config.json")
}

fn files_step(
    manifest: &ModelManifest,
    root: &PathBuf,
    config: Option<&PathBuf>,
    known: &ModelDirAnswers,
) -> (step: ModelDirStep)
    ensures
        is_files_step(
            step,
            *manifest,
            *root,
            match config {
                Some(path) => Some(*path),
                None => None,
            },
            *known,
        ),
{
    proof {
        reveal_strlit("files");
        lemma_plain_name("files"@);
    }
    let files = entry_path(root, "files");
    match known.files {
        None => {
            let file = config_in(&files);
            proof {
                lemma_below_below(file, files, *root, seq!["files"@], seq!["config.json"@]);
                assert(seq!["files"@] + seq!["config.json"@] =~= seq!["files"@, "config.json"@]);
            }
            return ModelDirStep::CheckFiles(file);
        },
        Some(there) => {
            if there {
                return ModelDirStep::Done(files);
            }
        },
    }
    match known.in_root {
        None => {
            return ModelDirStep::CheckInRoot(config_in(root));
        },
        Some(there) => {
            if there {
                return ModelDirStep::Done(root.clone());
            }
        },
    }
    let shown = match config {
        Some(path) => shown_path(path),
        None => "<none>".to_string(),
    };
    let message =
        "vLLM requires a Hugging Face model directory containing config.json for '".to_string().concat(
    manifest.id.as_str()).concat("'; tried manifest config_path ").concat(shown.as_str()).concat(
        ", files directory ",
    ).concat(shown_path(&files).as_str()).concat(", and model root ").concat(
        shown_path(root).as_str(),
    );
    let step = ModelDirStep::Fail(Failure::new(message));
    proof {
        let named = match config {
            Some(path) => Some(*path),
            None => None,
        };
        assert(fails_without_config(step, *manifest, named, files, *root));
    }
    step
}

/// What to do next to find the directory that a server is started on. `root` is the model's
/// directory, `config` the path of the configuration file that the manifest names, once that was
/// asked.
pub fn resolve_vllm_model_dir(
    manifest: &ModelManifest,
    root: &PathBuf,
    config: Option<&PathBuf>,
    known: &ModelDirAnswers,
) -> (step: ModelDirStep)
    ensures
        is_model_dir_step(
            step,
            *manifest,
            *root,
            match config {
                Some(path) => Some(*path),
                None => None,
            },
            *known,
        ),
{
    match known.root {
        None => {
            return ModelDirStep::CheckRoot(root.clone());
        },
        Some(there) => {
            if !there {
                return ModelDirStep::Fail(
                    Failure::new(no_directory_message(manifest.id.as_str(), root)),
                );
            }
        },
    }
    match &manifest.config_path {
        None => files_step(manifest, root, None, known),
        Some(name) => match config {
            None => ModelDirStep::AskFile(name.clone()),
            Some(path) => match parent_path(path) {
                None => {
                    let message = "manifest config_path '".to_string().concat(
                        name.as_str(),
                    ).concat("' has no parent directory");
                    ModelDirStep::Fail(Failure::new(message))
                },
                Some(dir) => match known.named {
                    None => ModelDirStep::CheckNamed(config_in(&dir)),
                    Some(there) => {
                        if there {
                            ModelDirStep::Done(dir)
                        } else {
                            files_step(manifest, root, config, known)
                        }
                    },
                },
            },
        },
    }
}

/// A directory is given only where the configuration was found in it.
pub proof fn law_directory_holds_config(
    step: ModelDirStep,
    manifest: ModelManifest,
    root: PathBuf,
    config: Option<PathBuf>,
    known: ModelDirAnswers,
)
    requires
        is_model_dir_step(step, manifest, root, config, known),
        step is Done,
    ensures
        known.root == Some(true),
        ({
            ||| config is Some && known.named == Some(true) && is_parent(
                step->Done_0,
                config->0,
            )
            ||| known.files == Some(true) && is_below(
                step->Done_0,
                root,
                seq!["files"@],
            )
            ||| known.in_root == Some(true) && step->Done_0 == root
        }),
{
}

/// Of the places that hold the configuration the first is given: beside the file that the manifest
/// names, among the model's files, in the model's directory. Where none holds it, none is given.
pub proof fn law_first_place_with_config_is_given(
    step: ModelDirStep,
    manifest: ModelManifest,
    root: PathBuf,
    config: Option<PathBuf>,
    known: ModelDirAnswers,
)
    requires
        is_model_dir_step(step, manifest, root, config, known),
        known.root == Some(true),
        manifest.config_path is Some ==> config is Some && has_parent(path_parts(config->0))
            && known.named is Some,
    ensures
        ({
            let named = manifest.config_path is Some && known.named == Some(true);
            &&& named ==> step is Done && is_parent(step->Done_0, config->0)
            &&& !named && known.files == Some(true) ==> step is Done && is_below(
                step->Done_0,
                root,
                seq!["files"@],
            )
            &&& !named && known.files == Some(false) && known.in_root == Some(true) ==> step is Done
                && step->Done_0 == root
            &&& !named && known.files == Some(false) && known.in_root == Some(false) ==> step is Fail
            &&& !named && known.files is None ==> step is CheckFiles && is_below(
                step->CheckFiles_0,
                root,
                seq!["files"@, "config.json"@],
            )
            &&& !named && known.files == Some(false) && known.in_root is None ==> step is CheckInRoot
                && is_below(step->CheckInRoot_0, root, seq!["config.json"@])
        }),
{
}

/// A model without its directory has no place to look in.
pub proof fn law_no_directory_no_model(
    step: ModelDirStep,
    manifest: ModelManifest,
    root: PathBuf,
    config: Option<PathBuf>,
    known: ModelDirAnswers,
)
    requires
        is_model_dir_step(step, manifest, root, config, known),
    ensures
        known.root == Some(false) ==> step is Fail,
        known.root is None ==> step is CheckRoot && step->CheckRoot_0 == root,
        step matches ModelDirStep::AskFile(name) ==> manifest.config_path is Some && name@
            == manifest.config_path->0@ && config is None,
        step is CheckNamed ==> config is Some && is_beside(
            step->CheckNamed_0,
            config->0,
            seq!["config.json"@],
        ),
{
}

} // verus!
