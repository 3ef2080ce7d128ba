//! The generation context handed to every derivation.
use vstd::prelude::*;

verus! {

/// Settings that shape the schemas a generator derives.
#[derive(Clone, Copy, Debug, PartialEq, Eq, Structural)]
pub struct SchemaSettings {
    /// Whether numeric schemas declare the type's minimum and maximum.
    pub strict_numeric_bounds: bool,
}

impl SchemaSettings {
    /// The default policy: numeric bounds are not declared, but for the
    /// minimum of unsigned integers.
    pub fn new() -> (r: SchemaSettings)
        ensures
            !r.strict_numeric_bounds,
    {
        SchemaSettings { strict_numeric_bounds: false }
    }

    /// The strict policy: every numeric schema declares its type's range.
    pub fn strict() -> (r: SchemaSettings)
        ensures
            r.strict_numeric_bounds,
    {
        SchemaSettings { strict_numeric_bounds: true }
    }
}

/// The context threaded through derivations. Primitive schemas only consult
/// its settings and leave it as they found it.
#[derive(Clone, Debug)]
pub struct SchemaGenerator {
    pub settings: SchemaSettings,
}

impl SchemaGenerator {
    /// A generator with the given settings.
    pub fn new(settings: SchemaSettings) -> (r: SchemaGenerator)
        ensures
            r.settings == settings,
    {
        SchemaGenerator { settings }
    }

    /// The settings this generator was made with.
    pub fn settings(&self) -> (r: &SchemaSettings)
        ensures
            *r == self.settings,
    {
        &self.settings
    }
}

} // verus!
