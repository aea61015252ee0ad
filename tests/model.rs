use fj_host::metadata::ModelMetadata;
use fj_host::model::{check_artifact, evaluation_from, ArtifactProbe, Error, Evaluation, LoadError};

#[test]
fn complete_artifact_is_accepted() {
    let probe = ArtifactProbe::Opened { model_entry: true, metadata_entry: true };
    assert_eq!(check_artifact(probe), Ok(()));
}

#[test]
fn missing_model_entry_is_reported_first() {
    let probe = ArtifactProbe::Opened { model_entry: false, metadata_entry: false };
    assert_eq!(check_artifact(probe), Err(Error::LoadFailure(LoadError::MissingModelEntry)));
}

#[test]
fn evaluation_from_success_keeps_geometry_and_metadata() {
    let md = ModelMetadata::new("ring".to_string());
    let r = evaluation_from(Ok("size=10".to_string()), md.clone());
    assert_eq!(r, Ok(Evaluation { geometry: "size=10".to_string(), metadata: md }));
}

#[test]
fn evaluation_from_failure_carries_message() {
    let md = ModelMetadata::new("ring".to_string());
    let r = evaluation_from(Err("negative radius".to_string()), md);
    assert_eq!(r, Err(Error::EvaluationFailure("negative radius".to_string())));
}
