use vstd::prelude::*;

use std::rc::Rc;

use crate::condition::RuleCondition;
use crate::module_type::{
    Environment, ImportMapping, MdxTransformOptions, PostCssConfigLocation, TreeShakingMode,
    UrlRewriteBehavior, WebpackLoaderItem,
};
use crate::rule::ModuleRule;

verus! {

/// Options of the JSX transform.
pub struct JsxTransformOptions {
    pub development: bool,
    pub react_refresh: bool,
    pub import_source: Option<String>,
    pub runtime: Option<String>,
}

/// Options of the TypeScript type-stripping transform.
pub struct TypescriptTransformOptions {
    pub use_define_for_class_fields: bool,
}

#[derive(PartialEq, Eq, Structural, Clone, Copy, Debug)]
pub enum DecoratorsKind {
    Legacy,
    Ecma,
}

/// Options of the decorators transform.
pub struct DecoratorsOptions {
    pub decorators_kind: Option<DecoratorsKind>,
    pub emit_decorators_metadata: bool,
    pub use_define_for_class_fields: bool,
}

/// The value that `typeof window` is replaced with.
#[derive(PartialEq, Eq, Structural, Clone, Copy, Debug)]
pub enum TypeofWindow {
    Object,
    Undefined,
}

#[derive(PartialEq, Eq, Structural, Clone, Copy, Debug)]
pub enum SourceMapsType {
    Full,
    Partial,
    Disabled,
}

/// Toggles of the script pipeline.
pub struct EcmascriptOptionsContext {
    pub enable_jsx: Option<JsxTransformOptions>,
    pub enable_types: bool,
    pub enable_typescript_transform: Option<TypescriptTransformOptions>,
    pub enable_decorators: Option<DecoratorsOptions>,
    pub ignore_dynamic_requests: bool,
    pub import_externals: bool,
    pub esm_url_rewrite_behavior: Option<UrlRewriteBehavior>,
    pub enable_typeof_window_inlining: Option<TypeofWindow>,
    pub source_maps: SourceMapsType,
}

/// Toggles of the CSS pipeline.
pub struct CssOptionsContext {
    /// Plain CSS handling only: no PostCSS and no script facade for CSS modules.
    pub enable_raw_css: bool,
    pub source_maps: SourceMapsType,
    /// Which resources are CSS modules; `*.module.css` and `text/css+module` when absent.
    pub module_css_condition: Option<RuleCondition>,
}

/// Options of the PostCSS transform.
pub struct PostCssTransformOptions {
    /// Where the `postcss` package is found; next to the resource when absent.
    pub postcss_package: Option<Rc<ImportMapping>>,
    pub config_location: PostCssConfigLocation,
}

/// The path part of a named condition.
pub enum ConditionPath {
    Glob(String),
    Regex(String),
}

/// A user-declared condition that loader rules name by a `#` key.
pub struct NamedCondition {
    pub key: String,
    pub path: Option<ConditionPath>,
    /// A regular expression over the resource's text.
    pub content: Option<String>,
}

/// A user-declared loader chain and the resources that it is for.
pub struct LoaderRule {
    /// A glob over paths, or a `#` key naming a condition.
    pub key: String,
    pub loaders: Rc<Vec<WebpackLoaderItem>>,
    /// The extension that the output is given.
    pub rename_as: Option<String>,
}

/// Options of the webpack-loader compatibility layer.
pub struct WebpackLoadersOptions {
    pub rules: Vec<LoaderRule>,
    pub conditions: Option<Vec<NamedCondition>>,
    /// Where the `loader-runner` package is found; next to the resource when absent.
    pub loader_runner_package: Option<Rc<ImportMapping>>,
}

/// Where external transforms are executed.
pub struct ExecutionContext {
    /// The project's root directory, relative to the root of its file system.
    pub project_path: String,
}

/// A predicate over paths that selects a nested options context.
pub enum ContextCondition {
    /// Paths at or below this directory.
    InPath(String),
}

/// Everything that decides the rule table.
pub struct ModuleOptionsContext {
    pub ecmascript: EcmascriptOptionsContext,
    pub css: CssOptionsContext,
    pub enable_mdx: bool,
    pub enable_mdx_rs: Option<MdxTransformOptions>,
    pub enable_postcss_transform: Option<PostCssTransformOptions>,
    pub enable_webpack_loaders: Option<WebpackLoadersOptions>,
    pub environment: Option<Rc<Environment>>,
    /// Rules appended after the built-in ones.
    pub module_rules: Vec<ModuleRule>,
    pub execution_context: Option<ExecutionContext>,
    pub tree_shaking_mode: Option<TreeShakingMode>,
    pub keep_last_successful_parse: bool,
    /// Nested contexts, each for the paths that its condition selects; the first
    /// that selects a path wins.
    pub rules: Vec<(ContextCondition, ModuleOptionsContext)>,
}

} // verus!
