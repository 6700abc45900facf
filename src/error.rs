use vstd::prelude::*;

verus! {

/// A feature that needs an execution context.
#[derive(PartialEq, Eq, Structural, Clone, Copy, Debug)]
pub enum Feature {
    WebpackLoaders,
    PostCss,
}

/// Why a rule table could not be built from its configuration.
pub enum ConfigError {
    /// `feature` is enabled but no execution context is configured.
    MissingExecutionContext { feature: Feature },
    /// A helper package has to be found next to the resource, but no path was given.
    MissingPath { package: Feature },
    /// A loader rule names the condition `key`, which is not declared.
    MissingCondition { key: String },
    /// A regular expression that the regex engine refuses.
    InvalidPattern { pattern: String },
}

} // verus!
