use vstd::prelude::*;

use crate::metadata::ModelMetadata;
use crate::parameters::Parameters;

verus! {

/// A geometry-generating model, as exposed by a loaded artifact.
pub trait Model {
    /// Compute the model's geometry for the given arguments, or report why
    /// it could not.
    fn shape(&self, parameters: &Parameters) -> Result<String, String>;

    /// Static information describing the model.
    fn metadata(&self) -> ModelMetadata;
}

/// Why a model could not be loaded.
#[derive(Debug, Clone, PartialEq, Eq)]
pub enum LoadError {
    /// The compiled artifact does not exist.
    ArtifactMissing,
    /// The artifact exists but could not be loaded; the loader's message.
    Unloadable(String),
    /// The artifact lacks the entry point that computes geometry.
    MissingModelEntry,
    /// The artifact lacks the entry point that returns the metadata.
    MissingMetadataEntry,
}

/// A failure to load, evaluate or watch a model.
#[derive(Debug, Clone, PartialEq, Eq)]
pub enum Error {
    /// The model could not be loaded.
    LoadFailure(LoadError),
    /// The model reported a failure while computing its geometry.
    EvaluationFailure(String),
    /// No filesystem observer could be set up; the observer's message.
    WatchSetupFailure(String),
    /// The counterpart of a channel has gone away.
    ChannelClosed,
}

/// The result of one invocation of a model.
#[derive(Debug, Clone, PartialEq, Eq)]
pub struct Evaluation {
    /// The geometry the model produced, as handed to the kernel.
    pub geometry: String,
    /// The model's description of itself.
    pub metadata: ModelMetadata,
}

/// What was found when the compiled artifact of a model was opened.
#[derive(Debug, Clone, PartialEq, Eq)]
pub enum ArtifactProbe {
    /// There is no file at the artifact's path.
    Missing,
    /// The file could not be loaded; the loader's message.
    Unloadable(String),
    /// The file was loaded; which of the two entry points it exports.
    Opened { model_entry: bool, metadata_entry: bool },
}

/// Whether an artifact that was probed can serve as a model, and if not why.
pub open spec fn probe_outcome(probe: ArtifactProbe) -> Result<(), LoadError> {
    match probe {
        ArtifactProbe::Missing => Err(LoadError::ArtifactMissing),
        ArtifactProbe::Unloadable(m) => Err(LoadError::Unloadable(m)),
        ArtifactProbe::Opened { model_entry, metadata_entry } => {
            if !model_entry {
                Err(LoadError::MissingModelEntry)
            } else if !metadata_entry {
                Err(LoadError::MissingMetadataEntry)
            } else {
                Ok(())
            }
        },
    }
}

/// What an evaluation yields, given what the model's two entry points
/// returned.
pub open spec fn evaluation_outcome(shape: Result<String, String>, metadata: ModelMetadata) -> Result<
    Evaluation,
    Error,
> {
    match shape {
        Ok(geometry) => Ok(Evaluation { geometry, metadata }),
        Err(message) => Err(Error::EvaluationFailure(message)),
    }
}

/// Decide whether a probed artifact exposes the required contract; every
/// refusal is a [`Error::LoadFailure`].
pub fn check_artifact(probe: ArtifactProbe) -> (r: Result<(), Error>)
    ensures
        r is Ok <==> probe_outcome(probe) is Ok,
        r is Err ==> r == Err::<(), Error>(Error::LoadFailure(probe_outcome(probe)->Err_0)),
{
    match probe {
        ArtifactProbe::Missing => Err(Error::LoadFailure(LoadError::ArtifactMissing)),
        ArtifactProbe::Unloadable(m) => Err(Error::LoadFailure(LoadError::Unloadable(m))),
        ArtifactProbe::Opened { model_entry, metadata_entry } => {
            if !model_entry {
                Err(Error::LoadFailure(LoadError::MissingModelEntry))
            } else if !metadata_entry {
                Err(Error::LoadFailure(LoadError::MissingMetadataEntry))
            } else {
                Ok(())
            }
        },
    }
}

/// Turn what a model's entry points returned into an evaluation, or into a
/// typed failure carrying the model's message.
pub fn evaluation_from(shape: Result<String, String>, metadata: ModelMetadata) -> (r: Result<
    Evaluation,
    Error,
>)
    ensures
        r == evaluation_outcome(shape, metadata),
{
    match shape {
        Ok(geometry) => Ok(Evaluation { geometry, metadata }),
        Err(message) => Err(Error::EvaluationFailure(message)),
    }
}

/// Invoke a model with the given arguments. A failure that the model reports
/// comes back as [`Error::EvaluationFailure`] with the model's message.
pub fn evaluate(model: &dyn Model, parameters: &Parameters) -> (r: Result<Evaluation, Error>)
    ensures
        r is Err ==> r->Err_0 is EvaluationFailure,
{
    let shape = model.shape(parameters);
    let metadata = model.metadata();
    evaluation_from(shape, metadata)
}

} // verus!
