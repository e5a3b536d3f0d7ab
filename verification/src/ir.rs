//! The platform-independent description of a resource that charts are
//! generated from, and the generated artifacts.

use vstd::prelude::*;

use crate::json::JsonValue;

verus! {

/// The type of a resource attribute.
#[derive(Debug)]
pub enum IacType {
    String,
    Integer,
    Float,
    /// A number that may be an integer or a float.
    Numeric,
    Boolean,
    List(Box<IacType>),
    SetOf(Box<IacType>),
    MapOf(Box<IacType>),
    Object { name: String, fields: Vec<IacAttribute> },
    /// An enumeration of allowed values over an underlying type.
    Enum { values: Vec<String>, underlying: Box<IacType> },
    Any,
}

/// An attribute of a resource.
#[derive(Debug)]
pub struct IacAttribute {
    /// Normalised name with underscores (e.g. `bound_aws_account_id`).
    pub canonical_name: String,
    /// Human-readable description (may be empty).
    pub description: String,
    /// The attribute's type.
    pub iac_type: IacType,
    /// Required on create.
    pub required: bool,
    /// Generated by the server.
    pub computed: bool,
    /// Holds sensitive data.
    pub sensitive: bool,
    /// Default value, if any.
    pub default_value: Option<JsonValue>,
}

/// A resource: its name, description, category and attributes.
#[derive(Debug)]
pub struct IacResource {
    pub name: String,
    pub description: String,
    pub category: String,
    pub attributes: Vec<IacAttribute>,
}

/// The kind of a generated artifact.
#[derive(Debug, Clone, Copy, PartialEq, Eq)]
pub enum ArtifactKind {
    Resource,
    DataSource,
    Provider,
    Test,
    Schema,
    Signature,
    Module,
    Metadata,
    Controller,
    ProviderConfig,
    HelmChart,
}

/// A generated file: its relative path, content and kind.
#[derive(Debug)]
pub struct GeneratedArtifact {
    pub path: String,
    pub content: String,
    pub kind: ArtifactKind,
}

} // verus!
