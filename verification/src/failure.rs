//! Where a fatal failure happened, for the message that reports it.

use vstd::prelude::*;
use crate::mesh::MeshError;
use crate::texture::TextureError;

verus! {

/// The stage of the program in which something failed. No failure is
/// recovered from; the first three end the program before a window is shown.
#[derive(Clone, Copy, Debug, PartialEq, Eq, Structural)]
pub enum FailedStage {
    /// A mesh or texture file is missing or malformed.
    AssetLoad,
    /// No adapter or device could be had.
    DeviceInit,
    /// The shading program or the pipeline was refused.
    PipelineCreation,
    /// No surface image could be acquired for a frame.
    Presentation,
}

impl FailedStage {
    /// The words that name the stage in a message.
    pub open spec fn label(self) -> Seq<char> {
        match self {
            FailedStage::AssetLoad => "asset load"@,
            FailedStage::DeviceInit => "device init"@,
            FailedStage::PipelineCreation => "pipeline creation"@,
            FailedStage::Presentation => "presentation"@,
        }
    }

    /// The words that name the stage in a message.
    pub fn name(self) -> (name: &'static str)
        ensures
            name@ == self.label(),
    {
        match self {
            FailedStage::AssetLoad => "asset load",
            FailedStage::DeviceInit => "device init",
            FailedStage::PipelineCreation => "pipeline creation",
            FailedStage::Presentation => "presentation",
        }
    }

    /// Whether a failure in this stage happens at startup, before the first
    /// frame: every stage but presentation.
    pub fn at_startup(self) -> (startup: bool)
        ensures
            startup == (self != FailedStage::Presentation),
    {
        match self {
            FailedStage::Presentation => false,
            _ => true,
        }
    }
}

impl MeshError {
    /// What is wrong with the mesh, in words.
    pub open spec fn words(self) -> Seq<char> {
        match self {
            MeshError::TooManyIndices => "more indices than a draw call can count"@,
            MeshError::IncompleteTriangle => "the number of indices is no multiple of three"@,
            MeshError::IndexOutOfRange { .. } => "an index names no vertex"@,
        }
    }

    /// What is wrong with the mesh, in words.
    pub fn message(&self) -> (message: &'static str)
        ensures
            message@ == self.words(),
    {
        match self {
            MeshError::TooManyIndices => "more indices than a draw call can count",
            MeshError::IncompleteTriangle => "the number of indices is no multiple of three",
            MeshError::IndexOutOfRange { .. } => "an index names no vertex",
        }
    }

    /// The stage a malformed mesh fails in.
    pub fn stage(&self) -> (stage: FailedStage)
        ensures
            stage == FailedStage::AssetLoad,
    {
        FailedStage::AssetLoad
    }
}

impl TextureError {
    /// What is wrong with the texture, in words.
    pub open spec fn words(self) -> Seq<char> {
        match self {
            TextureError::TooLarge => "the texture is too large"@,
            TextureError::WrongLength { .. } => "the texels do not fill the extent"@,
        }
    }

    /// What is wrong with the texture, in words.
    pub fn message(&self) -> (message: &'static str)
        ensures
            message@ == self.words(),
    {
        match self {
            TextureError::TooLarge => "the texture is too large",
            TextureError::WrongLength { .. } => "the texels do not fill the extent",
        }
    }

    /// The stage a malformed texture fails in.
    pub fn stage(&self) -> (stage: FailedStage)
        ensures
            stage == FailedStage::AssetLoad,
    {
        FailedStage::AssetLoad
    }
}

} // verus!
