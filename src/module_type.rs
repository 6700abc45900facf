use vstd::prelude::*;

use std::rc::Rc;

use crate::context::TypeofWindow;

verus! {

/// How a script declares its module system.
#[derive(PartialEq, Eq, Structural, Clone, Copy, Debug)]
pub enum SpecifiedModuleType {
    /// Inferred from the source.
    Automatic,
    CommonJs,
    EcmaScript,
}

#[derive(PartialEq, Eq, Structural, Clone, Copy, Debug)]
pub enum TreeShakingMode {
    ModuleFragments,
    ReexportsOnly,
}

#[derive(PartialEq, Eq, Structural, Clone, Copy, Debug)]
pub enum UrlRewriteBehavior {
    Full,
    Relative,
    Unchanged,
}

/// Options shared by every script module type.
#[derive(PartialEq, Eq, Structural, Clone, Copy, Debug)]
pub struct EcmascriptOptions {
    pub tree_shaking_mode: Option<TreeShakingMode>,
    pub url_rewrite_behavior: Option<UrlRewriteBehavior>,
    pub import_externals: bool,
    pub ignore_dynamic_requests: bool,
    pub extract_source_map: bool,
    pub keep_last_successful_parse: bool,
    pub specified_module_type: SpecifiedModuleType,
}

/// The environment that code is compiled for, as a target query.
pub struct Environment {
    pub targets: String,
}

/// A transform applied to a script while it is parsed.
pub enum EcmascriptInputTransform {
    React {
        development: bool,
        refresh: bool,
        import_source: Option<String>,
        runtime: Option<String>,
    },
    PresetEnv(Rc<Environment>),
    /// Replaces `typeof window` by `"object"` or `"undefined"`.
    GlobalTypeofs { window_value: TypeofWindow },
    TypeScript { use_define_for_class_fields: bool },
    Decorators {
        is_legacy: bool,
        is_ecma: bool,
        emit_decorators_metadata: bool,
        use_define_for_class_fields: bool,
    },
}

/// An ordered list of script transforms, shared between module types.
pub type TransformChain = Rc<Vec<EcmascriptInputTransform>>;

#[derive(PartialEq, Eq, Structural, Clone, Copy, Debug)]
pub enum CssModuleAssetType {
    /// Plain global CSS.
    Default,
    /// CSS whose class names are local to the module.
    Module,
}

#[derive(PartialEq, Eq, Structural, Clone, Copy, Debug)]
pub enum WebAssemblySourceType {
    Binary,
    Text,
}

/// The kind of a resource, with the options of that kind.
pub enum ModuleType {
    Ecmascript {
        preprocess: TransformChain,
        main: TransformChain,
        postprocess: TransformChain,
        options: EcmascriptOptions,
    },
    Typescript {
        preprocess: TransformChain,
        main: TransformChain,
        postprocess: TransformChain,
        tsx: bool,
        analyze_types: bool,
        options: EcmascriptOptions,
    },
    TypescriptDeclaration {
        preprocess: TransformChain,
        main: TransformChain,
        postprocess: TransformChain,
        options: EcmascriptOptions,
    },
    Json,
    Raw,
    CssModule,
    Css { ty: CssModuleAssetType, environment: Option<Rc<Environment>> },
    StaticUrlJs,
    StaticUrlCss,
    WebAssembly { source_ty: WebAssemblySourceType },
}

impl ModuleType {
    /// An exact copy; the transform chains are shared.
    pub fn duplicate(&self) -> (r: ModuleType)
        ensures
            r == *self,
    {
        match self {
            ModuleType::Ecmascript { preprocess, main, postprocess, options } => {
                ModuleType::Ecmascript {
                    preprocess: preprocess.clone(),
                    main: main.clone(),
                    postprocess: postprocess.clone(),
                    options: *options,
                }
            },
            ModuleType::Typescript { preprocess, main, postprocess, tsx, analyze_types, options } => {
                ModuleType::Typescript {
                    preprocess: preprocess.clone(),
                    main: main.clone(),
                    postprocess: postprocess.clone(),
                    tsx: *tsx,
                    analyze_types: *analyze_types,
                    options: *options,
                }
            },
            ModuleType::TypescriptDeclaration { preprocess, main, postprocess, options } => {
                ModuleType::TypescriptDeclaration {
                    preprocess: preprocess.clone(),
                    main: main.clone(),
                    postprocess: postprocess.clone(),
                    options: *options,
                }
            },
            ModuleType::Json => ModuleType::Json,
            ModuleType::Raw => ModuleType::Raw,
            ModuleType::CssModule => ModuleType::CssModule,
            ModuleType::Css { ty, environment } => ModuleType::Css {
                ty: *ty,
                environment: match environment {
                    Some(e) => Some(e.clone()),
                    None => None,
                },
            },
            ModuleType::StaticUrlJs => ModuleType::StaticUrlJs,
            ModuleType::StaticUrlCss => ModuleType::StaticUrlCss,
            ModuleType::WebAssembly { source_ty } => ModuleType::WebAssembly { source_ty: *source_ty },
        }
    }
}

/// How the bundler finds a package.
pub enum ImportMapping {
    /// An external module, loaded by `request` at run time.
    External { request: String, ty: ExternalType },
    /// The package `name`, looked up from the directory `context`.
    PrimaryAlternative { name: String, context: Option<String> },
}

#[derive(PartialEq, Eq, Structural, Clone, Copy, Debug)]
pub enum ExternalType {
    CommonJs,
    EcmaScriptModule,
    Url,
    Global,
    Script,
}

/// An alias that makes a helper package resolvable under `request`.
pub struct PackageAlias {
    pub request: String,
    pub mapping: Rc<ImportMapping>,
}

/// One step of a webpack-style loader chain.
pub struct WebpackLoaderItem {
    /// The loader's module specifier.
    pub loader: String,
    /// The loader's options, as JSON text.
    pub options: String,
}

#[derive(PartialEq, Eq, Structural, Clone, Copy, Debug)]
pub enum PostCssConfigLocation {
    ProjectPath,
    ProjectPathOrLocalPath,
}

/// Options of the Markdown/MDX compiler.
pub struct MdxTransformOptions {
    pub development: Option<bool>,
    pub jsx: Option<bool>,
    pub jsx_runtime: Option<String>,
    pub jsx_import_source: Option<String>,
    pub provider_import_source: Option<String>,
}

/// A transform applied to the source of a resource before its module is created.
pub enum SourceTransform {
    /// Runs a chain of webpack-style loaders.
    WebpackLoaders {
        import_map: PackageAlias,
        loaders: Rc<Vec<WebpackLoaderItem>>,
        rename_as: Option<String>,
        source_maps: bool,
    },
    /// Runs PostCSS.
    PostCss {
        import_map: PackageAlias,
        config_location: PostCssConfigLocation,
        source_maps: bool,
    },
    /// Compiles Markdown/MDX to a script.
    Mdx(MdxTransformOptions),
}

} // verus!
