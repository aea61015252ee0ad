use fj_host::host::{Host, HostExt};
use fj_host::metadata::ModelMetadata;
use fj_host::model::Model;
use fj_host::parameters::Parameters;

struct Cube;

impl Model for Cube {
    fn shape(&self, _parameters: &Parameters) -> Result<String, String> {
        Ok("cube".to_string())
    }

    fn metadata(&self) -> ModelMetadata {
        ModelMetadata::new("cube".to_string())
    }
}

#[derive(Default)]
struct Registry {
    models: Vec<Box<dyn Model>>,
}

impl Host for Registry {
    fn register_boxed_model(&mut self, model: Box<dyn Model>) {
        self.models.push(model);
    }
}

#[test]
fn host_is_object_safe() {
    let _: &dyn Host;
}

#[test]
fn register_model_boxes_the_model() {
    let mut registry = Registry::default();
    registry.register_model(Cube);
    registry.register_model(Cube);
    assert_eq!(registry.models.len(), 2);
    let shape = registry.models[0].shape(&Parameters::new());
    assert_eq!(shape, Ok("cube".to_string()));
    assert_eq!(registry.models[1].metadata().name, "cube");
}

#[test]
fn register_through_a_trait_object() {
    let mut registry = Registry::default();
    {
        let host: &mut dyn Host = &mut registry;
        host.register_model(Cube);
    }
    assert_eq!(registry.models.len(), 1);
}
