use vstd::prelude::*;

use crate::model::Model;

verus! {

/// An abstract interface to the model host.
pub trait Host {
    /// Register a model.
    ///
    /// This is mainly for more advanced use cases (e.g. when you need to close
    /// over extra state to load the model). For simpler models, you probably
    /// want to use [`HostExt::register_model()`] instead.
    fn register_boxed_model(&mut self, model: Box<dyn Model>);
}

/// Extension methods to augment the [`Host`] API.
///
/// The purpose of this trait is to keep [`Host`] object-safe.
pub trait HostExt {
    /// Register a model with the host.
    fn register_model<M: Model + 'static>(&mut self, model: M);
}

impl<H: Host + ?Sized> HostExt for H {
    fn register_model<M: Model + 'static>(&mut self, model: M) {
        self.register_boxed_model(Box::new(model));
    }
}

} // verus!
