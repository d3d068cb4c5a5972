//! What the library knows of a model and of the place where models are kept.

use std::path::PathBuf;
use vstd::prelude::*;

verus! {

/// The format of a model's weights.
#[derive(Debug, Clone, Copy, PartialEq, Eq, Structural)]
pub enum ModelFormat {
    SafeTensors,
    Onnx,
    Gguf,
    Mlx,
}

impl ModelFormat {
    /// The name by which messages show the format.
    pub open spec fn name_text(self) -> Seq<char> {
        match self {
            ModelFormat::SafeTensors => "SafeTensors"@,
            ModelFormat::Onnx => "Onnx"@,
            ModelFormat::Gguf => "Gguf"@,
            ModelFormat::Mlx => "Mlx"@,
        }
    }

    /// The name by which messages show the format.
    pub fn name(self) -> (name: &'static str)
        ensures
            name@ == self.name_text(),
    {
        match self {
            ModelFormat::SafeTensors => "SafeTensors",
            ModelFormat::Onnx => "Onnx",
            ModelFormat::Gguf => "Gguf",
            ModelFormat::Mlx => "Mlx",
        }
    }
}

/// How a model's repository is laid out, by the name that messages show.
#[derive(Debug, Clone)]
pub struct RepositoryLayout {
    pub name: String,
}

/// What is recorded of a model besides its files.
#[derive(Debug, Clone)]
pub struct ModelMetadata {
    pub repository_layout: RepositoryLayout,
    pub family: Option<String>,
}

/// The record of an installed model.
#[derive(Debug, Clone)]
pub struct ModelManifest {
    pub id: String,
    pub format: ModelFormat,
    pub architecture: Option<String>,
    /// The model's configuration file, as a path below the model's directory.
    pub config_path: Option<String>,
    /// The model's main file, as a path below the model's directory.
    pub model_path: Option<String>,
    pub metadata: ModelMetadata,
}

/// Whether a file that was made from a model can be used.
#[derive(Debug, Clone, Copy, PartialEq, Eq, Structural)]
pub enum ArtifactStatus {
    Ready,
    /// Anything else.
    NotReady,
}

/// What was made from a model.
#[derive(Debug, Clone, Copy, PartialEq, Eq, Structural)]
pub enum ArtifactKind {
    Onnx,
    /// Anything else.
    Other,
}

/// A file that was made from a model.
#[derive(Debug, Clone)]
pub struct ModelArtifact {
    pub kind: ArtifactKind,
    pub status: ArtifactStatus,
    /// The file, as a path below the model's directory.
    pub path: String,
}

/// The place where models and managed backends are kept.
#[derive(Debug, Clone)]
pub struct ModelStore {
    pub home: PathBuf,
}

} // verus!
