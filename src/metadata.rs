use vstd::prelude::*;

verus! {

/// Information about a particular module that can be used by the host for
/// things like introspection and search.
#[derive(Debug, Clone, PartialEq, Eq)]
pub struct Metadata {
    /// A short, human-friendly name used to identify this module.
    pub name: String,
    /// A semver-compliant version number.
    pub version: String,
    /// A short, one-line description.
    pub short_description: Option<String>,
    /// A more elaborate description.
    pub description: Option<String>,
    /// A link to the homepage.
    pub homepage: Option<String>,
    /// A link to the source code.
    pub repository: Option<String>,
    /// The license(s) this software is released under, as an SPDX license
    /// expression (e.g. `MIT OR Apache-2.0`).
    pub license: Option<String>,
}

/// The value an optional text field takes after being set to `s`: an empty
/// text leaves the field as it was.
pub open spec fn set_text(field: Option<String>, s: String) -> Option<String> {
    if s@.len() == 0 {
        field
    } else {
        Some(s)
    }
}

impl Metadata {
    /// The required fields are not empty.
    pub open spec fn wf(&self) -> bool {
        self.name@.len() > 0 && self.version@.len() > 0
    }

    /// Create a [`Metadata`] object with the bare minimum required fields.
    ///
    /// The `name` and `version` fields must not be empty.
    pub fn new(name: String, version: String) -> (r: Self)
        requires
            name@.len() > 0,
            version@.len() > 0,
        ensures
            r.wf(),
            r.name == name,
            r.version == version,
            r.short_description is None,
            r.description is None,
            r.homepage is None,
            r.repository is None,
            r.license is None,
    {
        Metadata {
            name,
            version,
            short_description: None,
            description: None,
            homepage: None,
            repository: None,
            license: None,
        }
    }

    /// Set the [`Metadata::short_description`] field; an empty text is ignored.
    pub fn with_short_description(self, short_description: String) -> (r: Self)
        ensures
            r.short_description == set_text(self.short_description, short_description),
            r.name == self.name,
            r.version == self.version,
            r.description == self.description,
            r.homepage == self.homepage,
            r.repository == self.repository,
            r.license == self.license,
    {
        if short_description.as_str().is_empty() {
            return self;
        }
        Metadata { short_description: Some(short_description), ..self }
    }

    /// Set the [`Metadata::description`] field; an empty text is ignored.
    pub fn with_description(self, description: String) -> (r: Self)
        ensures
            r.description == set_text(self.description, description),
            r.name == self.name,
            r.version == self.version,
            r.short_description == self.short_description,
            r.homepage == self.homepage,
            r.repository == self.repository,
            r.license == self.license,
    {
        if description.as_str().is_empty() {
            return self;
        }
        Metadata { description: Some(description), ..self }
    }

    /// Set the [`Metadata::homepage`] field; an empty text is ignored.
    pub fn with_homepage(self, homepage: String) -> (r: Self)
        ensures
            r.homepage == set_text(self.homepage, homepage),
            r.name == self.name,
            r.version == self.version,
            r.short_description == self.short_description,
            r.description == self.description,
            r.repository == self.repository,
            r.license == self.license,
    {
        if homepage.as_str().is_empty() {
            return self;
        }
        Metadata { homepage: Some(homepage), ..self }
    }

    /// Set the [`Metadata::repository`] field; an empty text is ignored.
    pub fn with_repository(self, repository: String) -> (r: Self)
        ensures
            r.repository == set_text(self.repository, repository),
            r.name == self.name,
            r.version == self.version,
            r.short_description == self.short_description,
            r.description == self.description,
            r.homepage == self.homepage,
            r.license == self.license,
    {
        if repository.as_str().is_empty() {
            return self;
        }
        Metadata { repository: Some(repository), ..self }
    }

    /// Set the [`Metadata::license`] field; an empty text is ignored.
    pub fn with_license(self, license: String) -> (r: Self)
        ensures
            r.license == set_text(self.license, license),
            r.name == self.name,
            r.version == self.version,
            r.short_description == self.short_description,
            r.description == self.description,
            r.homepage == self.homepage,
            r.repository == self.repository,
    {
        if license.as_str().is_empty() {
            return self;
        }
        Metadata { license: Some(license), ..self }
    }
}

/// Metadata about a model.
#[derive(Debug, Clone, PartialEq, Eq)]
pub struct ModelMetadata {
    /// A short, human-friendly name used to identify this model.
    pub name: String,
    /// A description of what this model does.
    pub description: Option<String>,
    /// Arguments that the model uses when calculating its geometry.
    pub arguments: Vec<ArgumentMetadata>,
}

impl ModelMetadata {
    /// The name is not empty, nor is the name of any argument.
    pub open spec fn wf(&self) -> bool {
        &&& self.name@.len() > 0
        &&& forall|i: int| 0 <= i < self.arguments@.len() ==> (#[trigger] self.arguments@[i]).wf()
    }

    /// Create metadata for a model. The `name` must not be empty.
    pub fn new(name: String) -> (r: Self)
        requires
            name@.len() > 0,
        ensures
            r.wf(),
            r.name == name,
            r.description is None,
            r.arguments@ == Seq::<ArgumentMetadata>::empty(),
    {
        ModelMetadata { name, description: None, arguments: Vec::new() }
    }

    /// Set the [`ModelMetadata::description`]; an empty text is ignored.
    pub fn with_description(self, description: String) -> (r: Self)
        ensures
            r.description == set_text(self.description, description),
            r.name == self.name,
            r.arguments@ == self.arguments@,
    {
        if description.as_str().is_empty() {
            return self;
        }
        ModelMetadata { description: Some(description), ..self }
    }

    /// Add an argument at the end of the [`ModelMetadata::arguments`] list.
    pub fn with_argument(self, arg: ArgumentMetadata) -> (r: Self)
        ensures
            r.name == self.name,
            r.description == self.description,
            r.arguments@ == self.arguments@.push(arg),
            self.wf() && arg.wf() ==> r.wf(),
    {
        let mut this = self;
        this.arguments.push(arg);
        this
    }
}

/// Metadata describing a model's argument.
#[derive(Debug, Clone, PartialEq, Eq)]
pub struct ArgumentMetadata {
    /// The name used to refer to this argument.
    pub name: String,
    /// A short description of this argument that could be shown to the user
    /// in something like a tooltip.
    pub description: Option<String>,
    /// Something that could be used as a default if no value was provided.
    pub default_value: Option<String>,
}

impl ArgumentMetadata {
    /// The name is not empty.
    pub open spec fn wf(&self) -> bool {
        self.name@.len() > 0
    }

    /// Create a new [`ArgumentMetadata`]. The `name` must not be empty.
    pub fn new(name: String) -> (r: Self)
        requires
            name@.len() > 0,
        ensures
            r.wf(),
            r.name == name,
            r.description is None,
            r.default_value is None,
    {
        ArgumentMetadata { name, description: None, default_value: None }
    }

    /// Set the [`ArgumentMetadata::description`]; an empty text is ignored.
    pub fn with_description(self, description: String) -> (r: Self)
        ensures
            r.description == set_text(self.description, description),
            r.name == self.name,
            r.default_value == self.default_value,
    {
        let mut this = self;
        if description.as_str().is_empty() {
            return this;
        }
        this.description = Some(description);
        this
    }

    /// Set the [`ArgumentMetadata::default_value`]; an empty text is kept too.
    pub fn with_default_value(self, default_value: String) -> (r: Self)
        ensures
            r.default_value == Some(default_value),
            r.name == self.name,
            r.description == self.description,
    {
        let mut this = self;
        this.default_value = Some(default_value);
        this
    }
}

} // verus!
