use std::rc::Rc;

use module_options::chains::build_transform_chains;
use module_options::condition::{
    CssReferenceSubType, ReferenceType, Resource, RuleCondition, UrlReferenceSubType,
};
use module_options::context::{
    ConditionPath, ContextCondition, CssOptionsContext, DecoratorsKind, DecoratorsOptions,
    EcmascriptOptionsContext, ExecutionContext, JsxTransformOptions, LoaderRule,
    ModuleOptionsContext, NamedCondition, PostCssTransformOptions, SourceMapsType,
    TypescriptTransformOptions, WebpackLoadersOptions,
};
use module_options::error::{ConfigError, Feature};
use module_options::glob::glob_match;
use module_options::loader_condition::WebpackLoaderBuiltinCondition;
use module_options::module_type::{
    CssModuleAssetType, EcmascriptInputTransform, ImportMapping, ModuleType,
    PostCssConfigLocation, SourceTransform, SpecifiedModuleType, WebAssemblySourceType,
    WebpackLoaderItem,
};
use module_options::options::ModuleOptions;
use module_options::rule::{resolve, ModuleRule, ModuleRuleEffect, Resolution};
use module_options::webpack::{
    loader_key_conditions, loader_runner_package_mapping, webpack_loader_options,
    webpack_loader_rules,
};

fn resource(path: &str, reference_type: ReferenceType) -> Resource {
    Resource {
        path: path.to_string(),
        content_type: None,
        reference_type,
        is_virtual: false,
        content: None,
    }
}

fn plain(path: &str) -> Resource {
    resource(path, ReferenceType::Undefined)
}

fn ecmascript_context() -> EcmascriptOptionsContext {
    EcmascriptOptionsContext {
        enable_jsx: None,
        enable_types: false,
        enable_typescript_transform: None,
        enable_decorators: None,
        ignore_dynamic_requests: false,
        import_externals: false,
        esm_url_rewrite_behavior: None,
        enable_typeof_window_inlining: None,
        source_maps: SourceMapsType::Disabled,
    }
}

fn context() -> ModuleOptionsContext {
    ModuleOptionsContext {
        ecmascript: ecmascript_context(),
        css: CssOptionsContext {
            enable_raw_css: false,
            source_maps: SourceMapsType::Disabled,
            module_css_condition: None,
        },
        enable_mdx: false,
        enable_mdx_rs: None,
        enable_postcss_transform: None,
        enable_webpack_loaders: None,
        environment: None,
        module_rules: Vec::new(),
        execution_context: None,
        tree_shaking_mode: None,
        keep_last_successful_parse: false,
        rules: Vec::new(),
    }
}

fn table(ctx: ModuleOptionsContext) -> Vec<ModuleRule> {
    match ModuleOptions::new("app".to_string(), ctx) {
        Ok(o) => o.rules,
        Err(_) => panic!("the table should build"),
    }
}

fn module_type_of(rules: &Vec<ModuleRule>, r: &Resource) -> ModuleType {
    resolve(rules, r).module_type.expect("a module type")
}

fn specified_kind(t: &ModuleType) -> SpecifiedModuleType {
    match t {
        ModuleType::Ecmascript { options, .. } => options.specified_module_type,
        ModuleType::Typescript { options, .. } => options.specified_module_type,
        _ => panic!("not a script type"),
    }
}

fn loader(name: &str) -> Rc<Vec<WebpackLoaderItem>> {
    Rc::new(vec![WebpackLoaderItem { loader: name.to_string(), options: "{}".to_string() }])
}

fn loaders_context(rules: Vec<LoaderRule>, conditions: Option<Vec<NamedCondition>>) -> ModuleOptionsContext {
    let mut ctx = context();
    ctx.enable_webpack_loaders = webpack_loader_options(Some(rules), conditions);
    ctx.execution_context = Some(ExecutionContext { project_path: "project".to_string() });
    ctx
}

fn loader_rule(key: &str) -> LoaderRule {
    LoaderRule { key: key.to_string(), loaders: loader("svgr-loader"), rename_as: Some("*.js".to_string()) }
}

fn type_rule(condition: RuleCondition, t: ModuleType) -> ModuleRule {
    ModuleRule::new_all(condition, vec![ModuleRuleEffect::ModuleType(t)])
}

fn transform_rule(condition: RuleCondition, t: SourceTransform) -> ModuleRule {
    ModuleRule::new_all(condition, vec![ModuleRuleEffect::SourceTransforms(vec![Rc::new(t)])])
}

fn ends(s: &str) -> RuleCondition {
    RuleCondition::ResourcePathEndsWith(s.to_string())
}

fn mdx_with(development: bool) -> SourceTransform {
    SourceTransform::Mdx(module_options::module_type::MdxTransformOptions {
        development: Some(development),
        jsx: None,
        jsx_runtime: None,
        jsx_import_source: None,
        provider_import_source: None,
    })
}

fn is_mdx_with(t: &SourceTransform, development: bool) -> bool {
    matches!(t, SourceTransform::Mdx(o) if o.development == Some(development))
}

// Condition engine.

#[test]
fn empty_all_holds_and_empty_any_does_not() {
    let r = plain("a.js");
    assert!(RuleCondition::all(vec![]).matches(&r));
    assert!(!RuleCondition::any(vec![]).matches(&r));
    assert!(RuleCondition::not(RuleCondition::any(vec![])).matches(&r));
}

#[test]
fn path_suffix_and_content_type_conditions() {
    let mut r = plain("src/data.json");
    assert!(ends(".json").matches(&r));
    assert!(!ends(".js").matches(&r));
    assert!(!RuleCondition::ContentTypeStartsWith("application/json".to_string()).matches(&r));
    assert!(RuleCondition::ContentTypeEmpty.matches(&r));
    r.content_type = Some("application/json; charset=utf-8".to_string());
    assert!(RuleCondition::ContentTypeStartsWith("application/json".to_string()).matches(&r));
    assert!(!RuleCondition::ContentTypeEmpty.matches(&r));
}

#[test]
fn no_extension_looks_at_the_last_segment() {
    assert!(RuleCondition::ResourcePathHasNoExtension.matches(&plain("node_modules/.bin/tool")));
    assert!(RuleCondition::ResourcePathHasNoExtension.matches(&plain("a.b/c")));
    assert!(!RuleCondition::ResourcePathHasNoExtension.matches(&plain("a/c.js")));
}

#[test]
fn glob_syntax() {
    assert!(glob_match("*.svg", "logo.svg"));
    assert!(!glob_match("*.svg", "img/logo.svg"));
    assert!(glob_match("src/**/*.ts", "src/foo.ts"));
    assert!(glob_match("src/**/*.ts", "src/a/b/foo.ts"));
    assert!(!glob_match("src/**/*.ts", "src/xfoo.tsx"));
    assert!(glob_match("**", "a/b/c"));
    assert!(glob_match("a?c", "abc"));
    assert!(!glob_match("a?c", "a/c"));
    assert!(glob_match("", ""));
    assert!(!glob_match("", "a"));
}

#[test]
fn rooted_and_basename_globs() {
    let rooted = RuleCondition::ResourcePathGlob { base: "project".to_string(), glob: "src/*.ts".to_string() };
    assert!(rooted.matches(&plain("project/src/foo.ts")));
    assert!(!rooted.matches(&plain("other/src/foo.ts")));
    assert!(!rooted.matches(&plain("projectx/src/foo.ts")));
    let base = RuleCondition::ResourceBasePathGlob("*.svg".to_string());
    assert!(base.matches(&plain("project/img/logo.svg")));
    assert!(!base.matches(&plain("project/img/logo.png")));
}

#[test]
fn regex_conditions_use_the_regex_engine() {
    let path_re = RuleCondition::ResourcePathEsRegex("\\.(png|jpe?g)$".to_string());
    assert!(path_re.matches(&plain("a/b.jpeg")));
    assert!(!path_re.matches(&plain("a/b.gif")));
    let content_re = RuleCondition::ResourceContentEsRegex("^'use client'".to_string());
    let mut r = plain("a.js");
    assert!(!content_re.matches(&r));
    r.content = Some("'use client'\nexport default 1".to_string());
    assert!(content_re.matches(&r));
    let broken = RuleCondition::ResourcePathEsRegex("(".to_string());
    assert!(!broken.matches(&plain("(")));
}

#[test]
fn reference_type_conditions_wildcard_the_sub_kind() {
    let any_url = RuleCondition::ReferenceType(ReferenceType::Url(UrlReferenceSubType::Undefined));
    let css_url = RuleCondition::ReferenceType(ReferenceType::Url(UrlReferenceSubType::CssUrl));
    let r = resource("a.png", ReferenceType::Url(UrlReferenceSubType::CssUrl));
    assert!(any_url.matches(&r));
    assert!(css_url.matches(&r));
    let r = resource("a.png", ReferenceType::Url(UrlReferenceSubType::EcmaScriptNewUrl));
    assert!(any_url.matches(&r));
    assert!(!css_url.matches(&r));
    let at_import = RuleCondition::ReferenceType(ReferenceType::Css(CssReferenceSubType::AtImport(None)));
    let r = resource("a.css", ReferenceType::Css(CssReferenceSubType::AtImport(Some("layer(x)".to_string()))));
    assert!(at_import.matches(&r));
    assert!(!at_import.matches(&resource("a.css", ReferenceType::Css(CssReferenceSubType::Inner))));
    assert!(RuleCondition::ResourceIsVirtualSource.matches(&Resource { is_virtual: true, ..plain("a") }));
}

#[test]
fn duplicate_keeps_the_meaning() {
    let c = RuleCondition::all(vec![ends(".css"), RuleCondition::not(ends(".module.css"))]);
    let d = c.duplicate();
    for p in ["a.css", "a.module.css", "a.js"] {
        assert_eq!(c.matches(&plain(p)), d.matches(&plain(p)));
    }
    assert!(d.matches(&plain("a.css")));
    assert!(!d.matches(&plain("a.module.css")));
}

// Rule tables and resolution.

#[test]
fn resolution_is_deterministic() {
    let rules = table(context());
    let r = plain("app/page.tsx");
    let a = resolve(&rules, &r);
    let b = resolve(&rules, &r);
    assert!(matches!(a.module_type, Some(ModuleType::Typescript { tsx: true, .. })));
    assert!(matches!(b.module_type, Some(ModuleType::Typescript { tsx: true, .. })));
    assert_eq!(a.transforms.len(), b.transforms.len());
}

#[test]
fn later_module_type_overrides_earlier() {
    let rules = vec![
        type_rule(ends(".txt"), ModuleType::Raw),
        type_rule(ends(".txt"), ModuleType::Json),
    ];
    assert!(matches!(module_type_of(&rules, &plain("a.txt")), ModuleType::Json));
    let reversed = vec![
        type_rule(ends(".txt"), ModuleType::Json),
        type_rule(ends(".txt"), ModuleType::Raw),
    ];
    assert!(matches!(module_type_of(&reversed, &plain("a.txt")), ModuleType::Raw));
}

#[test]
fn transforms_add_up_in_table_order() {
    let rules = vec![
        transform_rule(ends(".md"), mdx_with(true)),
        type_rule(ends(".md"), ModuleType::Raw),
        transform_rule(ends(".md"), mdx_with(false)),
        transform_rule(ends(".md"), mdx_with(false)),
    ];
    let Resolution { module_type, transforms } = resolve(&rules, &plain("a.md"));
    assert!(matches!(module_type, Some(ModuleType::Raw)));
    assert_eq!(transforms.len(), 3);
    assert!(is_mdx_with(&transforms[0], true));
    assert!(is_mdx_with(&transforms[1], false));
    assert!(is_mdx_with(&transforms[2], false));
}

#[test]
fn unmatched_resource_gets_no_module_type() {
    let rules = table(context());
    let r = resolve(&rules, &plain("a.unknownext"));
    assert!(r.module_type.is_none());
    assert!(r.transforms.is_empty());
}

#[test]
fn internal_references_skip_non_internal_rules() {
    let rules = vec![ModuleRule::new(ends(".txt"), vec![ModuleRuleEffect::ModuleType(ModuleType::Raw)])];
    assert!(resolve(&rules, &resource("a.txt", ReferenceType::Internal)).module_type.is_none());
    assert!(resolve(&rules, &resource("a.txt", ReferenceType::EcmaScriptModules)).module_type.is_some());
}

// Transform chains.

#[test]
fn decorators_run_before_type_stripping() {
    let mut ecma = ecmascript_context();
    ecma.enable_typescript_transform = Some(TypescriptTransformOptions { use_define_for_class_fields: true });
    ecma.enable_decorators = Some(DecoratorsOptions {
        decorators_kind: Some(DecoratorsKind::Legacy),
        emit_decorators_metadata: true,
        use_define_for_class_fields: false,
    });
    let chains = build_transform_chains(&ecma, &None);
    assert_eq!(chains.ts_preprocess.len(), 2);
    assert!(matches!(chains.ts_preprocess[0], EcmascriptInputTransform::Decorators { is_legacy: true, is_ecma: false, .. }));
    assert!(matches!(chains.ts_preprocess[1], EcmascriptInputTransform::TypeScript { use_define_for_class_fields: true }));
    assert_eq!(chains.ecma_preprocess.len(), 1);
    assert!(matches!(chains.ecma_preprocess[0], EcmascriptInputTransform::Decorators { .. }));
}

#[test]
fn decorators_without_kind_add_nothing() {
    let mut ecma = ecmascript_context();
    ecma.enable_typescript_transform = Some(TypescriptTransformOptions { use_define_for_class_fields: false });
    ecma.enable_decorators = Some(DecoratorsOptions {
        decorators_kind: None,
        emit_decorators_metadata: false,
        use_define_for_class_fields: false,
    });
    let chains = build_transform_chains(&ecma, &None);
    assert_eq!(chains.ts_preprocess.len(), 1);
    assert!(chains.ecma_preprocess.is_empty());
}

#[test]
fn postprocess_order_is_jsx_preset_env_typeof() {
    let mut ecma = ecmascript_context();
    ecma.enable_jsx = Some(JsxTransformOptions { development: true, react_refresh: false, import_source: None, runtime: Some("automatic".to_string()) });
    ecma.enable_typeof_window_inlining = Some(module_options::context::TypeofWindow::Object);
    let env = Some(Rc::new(module_options::module_type::Environment { targets: "defaults".to_string() }));
    let chains = build_transform_chains(&ecma, &env);
    assert_eq!(chains.postprocess.len(), 3);
    assert!(matches!(chains.postprocess[0], EcmascriptInputTransform::React { development: true, .. }));
    assert!(matches!(chains.postprocess[1], EcmascriptInputTransform::PresetEnv(_)));
    assert!(matches!(chains.postprocess[2], EcmascriptInputTransform::GlobalTypeofs { .. }));
    assert!(chains.main.is_empty());
}

// Built-in extension rules.

#[test]
fn extensions_map_to_module_kinds() {
    let rules = table(context());
    for p in ["a.mjs", "a.mts"] {
        assert_eq!(specified_kind(&module_type_of(&rules, &plain(p))), SpecifiedModuleType::EcmaScript);
    }
    for p in ["a.cjs", "a.cts"] {
        assert_eq!(specified_kind(&module_type_of(&rules, &plain(p))), SpecifiedModuleType::CommonJs);
    }
    for p in ["a.ts", "a.js"] {
        assert_eq!(specified_kind(&module_type_of(&rules, &plain(p))), SpecifiedModuleType::Automatic);
    }
    match module_type_of(&rules, &plain("a.d.ts")) {
        ModuleType::TypescriptDeclaration { preprocess, main, postprocess, .. } => {
            assert!(preprocess.is_empty() && main.is_empty() && postprocess.is_empty());
        }
        _ => panic!("a.d.ts is a declaration"),
    }
}

#[test]
fn declaration_chain_stays_empty_with_toggles_on() {
    let mut ctx = context();
    ctx.ecmascript.enable_jsx = Some(JsxTransformOptions { development: false, react_refresh: true, import_source: None, runtime: None });
    ctx.ecmascript.enable_typescript_transform = Some(TypescriptTransformOptions { use_define_for_class_fields: false });
    let rules = table(ctx);
    match module_type_of(&rules, &plain("types/a.d.ts")) {
        ModuleType::TypescriptDeclaration { preprocess, main, postprocess, .. } => {
            assert!(preprocess.is_empty() && main.is_empty() && postprocess.is_empty());
        }
        _ => panic!("a.d.ts is a declaration"),
    }
}

#[test]
fn other_builtin_types() {
    let rules = table(context());
    assert!(matches!(module_type_of(&rules, &plain("a.json")), ModuleType::Json));
    assert!(matches!(module_type_of(&rules, &plain("a.node")), ModuleType::Raw));
    assert!(matches!(module_type_of(&rules, &plain("a.wasm")), ModuleType::WebAssembly { source_ty: WebAssemblySourceType::Binary }));
    assert!(matches!(module_type_of(&rules, &plain("a.wat")), ModuleType::WebAssembly { source_ty: WebAssemblySourceType::Text }));
    assert!(matches!(module_type_of(&rules, &plain("img/a.woff2")), ModuleType::StaticUrlJs));
    assert!(matches!(module_type_of(&rules, &plain("bin/tool")), ModuleType::Ecmascript { .. }));
    let css_url = resource("img/a.png", ReferenceType::Url(UrlReferenceSubType::CssUrl));
    assert!(matches!(module_type_of(&rules, &css_url), ModuleType::StaticUrlCss));
    let mut typed = plain("api/data");
    typed.content_type = Some("application/json".to_string());
    assert!(matches!(module_type_of(&rules, &typed), ModuleType::Json));
}

// CSS.

#[test]
fn css_module_facade_exclusion() {
    let rules = table(context());
    let at_import = resource("app/styles.module.css", ReferenceType::Css(CssReferenceSubType::AtImport(None)));
    assert!(matches!(module_type_of(&rules, &at_import), ModuleType::Css { ty: CssModuleAssetType::Module, .. }));
    let inner = resource("app/styles.module.css", ReferenceType::Css(CssReferenceSubType::Inner));
    assert!(matches!(module_type_of(&rules, &inner), ModuleType::Css { ty: CssModuleAssetType::Module, .. }));
    let analyze = resource("app/styles.module.css", ReferenceType::Css(CssReferenceSubType::Analyze));
    assert!(matches!(module_type_of(&rules, &analyze), ModuleType::Css { ty: CssModuleAssetType::Module, .. }));
    assert!(matches!(module_type_of(&rules, &plain("app/styles.module.css")), ModuleType::CssModule));
    assert!(matches!(module_type_of(&rules, &plain("app/global.css")), ModuleType::Css { ty: CssModuleAssetType::Default, .. }));
}

#[test]
fn raw_css_mode_has_no_facade() {
    let mut ctx = context();
    ctx.css.enable_raw_css = true;
    let rules = table(ctx);
    assert!(matches!(module_type_of(&rules, &plain("a.module.css")), ModuleType::Css { ty: CssModuleAssetType::Module, .. }));
    assert!(matches!(module_type_of(&rules, &plain("a.css")), ModuleType::Css { ty: CssModuleAssetType::Default, .. }));
}

#[test]
fn configured_css_module_condition() {
    let mut ctx = context();
    ctx.css.module_css_condition = Some(ends(".scoped.css"));
    let rules = table(ctx);
    assert!(matches!(module_type_of(&rules, &plain("a.scoped.css")), ModuleType::CssModule));
    assert!(matches!(module_type_of(&rules, &plain("a.module.css")), ModuleType::Css { ty: CssModuleAssetType::Default, .. }));
}

#[test]
fn postcss_runs_outside_the_facade_boundary() {
    let mut ctx = context();
    ctx.enable_postcss_transform = Some(PostCssTransformOptions { postcss_package: None, config_location: PostCssConfigLocation::ProjectPath });
    ctx.execution_context = Some(ExecutionContext { project_path: "project".to_string() });
    let rules = table(ctx);
    let on_plain = resolve(&rules, &plain("app/a.css"));
    assert_eq!(on_plain.transforms.len(), 1);
    match &*on_plain.transforms[0] {
        SourceTransform::PostCss { import_map, .. } => {
            assert_eq!(import_map.request, "@vercel/turbopack/postcss");
            match &*import_map.mapping {
                ImportMapping::PrimaryAlternative { name, context } => {
                    assert_eq!(name, "postcss");
                    assert_eq!(context.as_deref(), Some("app"));
                }
                _ => panic!("found next to the resource"),
            }
        }
        _ => panic!("PostCSS expected"),
    }
    assert!(resolve(&rules, &plain("app/a.module.css")).transforms.is_empty());
    let inner = resource("app/a.module.css", ReferenceType::Css(CssReferenceSubType::Inner));
    assert_eq!(resolve(&rules, &inner).transforms.len(), 1);
}

#[test]
fn postcss_without_execution_context_fails() {
    let mut ctx = context();
    ctx.enable_postcss_transform = Some(PostCssTransformOptions { postcss_package: None, config_location: PostCssConfigLocation::ProjectPath });
    match ModuleOptions::new("app".to_string(), ctx) {
        Err(ConfigError::MissingExecutionContext { feature }) => assert_eq!(feature, Feature::PostCss),
        _ => panic!("an execution context is required"),
    }
}

// Webpack loaders.

#[test]
fn loader_keys_become_globs_or_named_conditions() {
    let base = "project".to_string();
    match loader_key_conditions(&"src/foo.ts".to_string(), &None, &base) {
        Ok(v) => {
            assert_eq!(v.len(), 1);
            assert!(matches!(&v[0], RuleCondition::ResourcePathGlob { base, glob } if base == "project" && glob == "src/foo.ts"));
        }
        Err(_) => panic!("a glob key"),
    }
    match loader_key_conditions(&"*.svg".to_string(), &None, &base) {
        Ok(v) => assert!(matches!(&v[0], RuleCondition::ResourceBasePathGlob(g) if g == "*.svg")),
        Err(_) => panic!("a glob key"),
    }
    match loader_key_conditions(&"#custom".to_string(), &Some(vec![]), &base) {
        Err(ConfigError::MissingCondition { key }) => assert_eq!(key, "#custom"),
        _ => panic!("the condition is not declared"),
    }
    match loader_key_conditions(&"#custom".to_string(), &None, &base) {
        Err(ConfigError::MissingCondition { key }) => assert_eq!(key, "#custom"),
        _ => panic!("no conditions are declared"),
    }
}

#[test]
fn named_conditions_build_path_and_content_parts() {
    let base = "project".to_string();
    let conditions = Some(vec![
        NamedCondition { key: "#svg".to_string(), path: Some(ConditionPath::Glob("icons/*.svg".to_string())), content: Some("<svg".to_string()) },
        NamedCondition { key: "#re".to_string(), path: Some(ConditionPath::Regex("\\.txt$".to_string())), content: None },
        NamedCondition { key: "#bad".to_string(), path: Some(ConditionPath::Regex("(".to_string())), content: None },
    ]);
    match loader_key_conditions(&"#svg".to_string(), &conditions, &base) {
        Ok(v) => {
            assert_eq!(v.len(), 2);
            assert!(matches!(&v[0], RuleCondition::ResourcePathGlob { glob, .. } if glob == "icons/*.svg"));
            assert!(matches!(&v[1], RuleCondition::ResourceContentEsRegex(re) if re == "<svg"));
        }
        Err(_) => panic!("declared"),
    }
    match loader_key_conditions(&"#re".to_string(), &conditions, &base) {
        Ok(v) => assert!(matches!(&v[0], RuleCondition::ResourcePathEsRegex(re) if re == "\\.txt$")),
        Err(_) => panic!("declared"),
    }
    match loader_key_conditions(&"#bad".to_string(), &conditions, &base) {
        Err(ConfigError::InvalidPattern { pattern }) => assert_eq!(pattern, "("),
        _ => panic!("the pattern is refused"),
    }
}

#[test]
fn loader_rules_skip_virtual_sources() {
    let rules = table(loaders_context(vec![loader_rule("*.svg")], None));
    let file = plain("app/logo.svg");
    let on_file = resolve(&rules, &file);
    assert_eq!(on_file.transforms.len(), 1);
    assert!(matches!(on_file.module_type, Some(ModuleType::StaticUrlJs)));
    let virtual_source = Resource { is_virtual: true, ..plain("app/logo.svg") };
    assert!(resolve(&rules, &virtual_source).transforms.is_empty());
}

#[test]
fn loader_rules_run_the_declared_chain() {
    let rules = table(loaders_context(vec![loader_rule("src/*.svg"), loader_rule("*.svg")], None));
    let r = resolve(&rules, &plain("project/src/logo.svg"));
    assert_eq!(r.transforms.len(), 2);
    match &*r.transforms[0] {
        SourceTransform::WebpackLoaders { import_map, loaders, rename_as, source_maps } => {
            assert_eq!(import_map.request, "@vercel/turbopack/loader-runner");
            assert!(matches!(&*import_map.mapping, ImportMapping::External { request, .. } if request == "next/dist/compiled/loader-runner"));
            assert_eq!(loaders[0].loader, "svgr-loader");
            assert_eq!(rename_as.as_deref(), Some("*.js"));
            assert!(!source_maps);
        }
        _ => panic!("a loader chain"),
    }
    assert_eq!(resolve(&rules, &plain("other/logo.svg")).transforms.len(), 1);
}

#[test]
fn loader_rules_respect_the_facade_boundary() {
    let rules = table(loaders_context(vec![loader_rule("*.css")], None));
    assert!(resolve(&rules, &plain("a.module.css")).transforms.is_empty());
    let inner = resource("a.module.css", ReferenceType::Css(CssReferenceSubType::Inner));
    assert_eq!(resolve(&rules, &inner).transforms.len(), 1);
    assert_eq!(resolve(&rules, &plain("a.css")).transforms.len(), 1);
}

#[test]
fn loaders_need_an_execution_context() {
    let mut ctx = loaders_context(vec![loader_rule("*.svg")], None);
    ctx.execution_context = None;
    match ModuleOptions::new("app".to_string(), ctx) {
        Err(ConfigError::MissingExecutionContext { feature }) => assert_eq!(feature, Feature::WebpackLoaders),
        _ => panic!("an execution context is required"),
    }
}

#[test]
fn missing_named_condition_fails_the_table() {
    let ctx = loaders_context(vec![loader_rule("#custom")], None);
    match ModuleOptions::new("app".to_string(), ctx) {
        Err(ConfigError::MissingCondition { key }) => assert_eq!(key, "#custom"),
        _ => panic!("the condition is not declared"),
    }
}

#[test]
fn loader_runner_next_to_resource_needs_a_path() {
    let options = WebpackLoadersOptions { rules: vec![loader_rule("*.svg")], conditions: None, loader_runner_package: None };
    let exec = ExecutionContext { project_path: "project".to_string() };
    match webpack_loader_rules(&options, &exec, &None, &RuleCondition::all(vec![]), false) {
        Err(ConfigError::MissingPath { package }) => assert_eq!(package, Feature::WebpackLoaders),
        _ => panic!("the path is needed"),
    }
    let built = webpack_loader_rules(&options, &exec, &Some("app".to_string()), &RuleCondition::all(vec![]), true);
    match built {
        Ok(rules) => {
            assert_eq!(rules.len(), 1);
            let r = resolve(&rules, &plain("app/a.svg"));
            match &*r.transforms[0] {
                SourceTransform::WebpackLoaders { import_map, source_maps, .. } => {
                    assert!(*source_maps);
                    assert!(matches!(&*import_map.mapping, ImportMapping::PrimaryAlternative { name, context } if name == "loader-runner" && context.as_deref() == Some("app")));
                }
                _ => panic!("a loader chain"),
            }
        }
        Err(_) => panic!("the path is given"),
    }
}

#[test]
fn loader_options_only_with_rules() {
    assert!(webpack_loader_options(None, None).is_none());
    let o = webpack_loader_options(Some(vec![]), None).expect("options");
    assert!(o.rules.is_empty());
    assert!(matches!(o.loader_runner_package.as_deref(), Some(ImportMapping::External { .. })));
    assert!(matches!(loader_runner_package_mapping(), ImportMapping::External { request, .. } if request == "next/dist/compiled/loader-runner"));
}

#[test]
fn builtin_condition_names() {
    let all = [
        (WebpackLoaderBuiltinCondition::Default, "default"),
        (WebpackLoaderBuiltinCondition::Browser, "browser"),
        (WebpackLoaderBuiltinCondition::Foreign, "foreign"),
        (WebpackLoaderBuiltinCondition::Development, "development"),
        (WebpackLoaderBuiltinCondition::Production, "production"),
        (WebpackLoaderBuiltinCondition::Node, "node"),
        (WebpackLoaderBuiltinCondition::EdgeLight, "edge-light"),
    ];
    for (c, name) in all {
        assert_eq!(c.as_str(), name);
        assert_eq!(WebpackLoaderBuiltinCondition::from_str(name), Ok(c));
        assert!(c.is_named(name));
        assert!(name == c);
        assert_eq!(name.parse::<WebpackLoaderBuiltinCondition>(), Ok(c));
    }
    assert!(!("node" == WebpackLoaderBuiltinCondition::Browser));
    assert_eq!(WebpackLoaderBuiltinCondition::from_str("edge"), Err(()));
    assert!(!WebpackLoaderBuiltinCondition::Node.is_named("browser"));
}

// MDX, user rules and nested contexts.

#[test]
fn mdx_rule_inherits_jsx_flags() {
    let mut ctx = context();
    ctx.enable_mdx = true;
    ctx.ecmascript.enable_jsx = Some(JsxTransformOptions { development: true, react_refresh: false, import_source: Some("preact".to_string()), runtime: Some("automatic".to_string()) });
    let rules = table(ctx);
    let r = resolve(&rules, &plain("docs/a.mdx"));
    assert_eq!(r.transforms.len(), 1);
    match &*r.transforms[0] {
        SourceTransform::Mdx(o) => {
            assert_eq!(o.development, Some(true));
            assert_eq!(o.jsx, Some(false));
            assert_eq!(o.jsx_import_source.as_deref(), Some("preact"));
            assert_eq!(o.jsx_runtime.as_deref(), Some("automatic"));
        }
        _ => panic!("the MDX compiler"),
    }
}

#[test]
fn user_rules_come_last() {
    let mut ctx = context();
    ctx.module_rules = vec![type_rule(ends(".json"), ModuleType::Raw)];
    let rules = table(ctx);
    assert!(matches!(module_type_of(&rules, &plain("a.json")), ModuleType::Raw));
}

#[test]
fn nested_context_selected_by_path() {
    let mut inner = context();
    inner.module_rules = vec![type_rule(ends(".js"), ModuleType::Raw)];
    let mut outer = context();
    outer.rules = vec![(ContextCondition::InPath("vendor".to_string()), inner)];
    let in_vendor = match ModuleOptions::new("vendor/lib".to_string(), outer) {
        Ok(o) => o.rules,
        Err(_) => panic!("builds"),
    };
    assert!(matches!(module_type_of(&in_vendor, &plain("vendor/lib/a.js")), ModuleType::Raw));

    let mut inner = context();
    inner.module_rules = vec![type_rule(ends(".js"), ModuleType::Raw)];
    let mut outer = context();
    outer.rules = vec![(ContextCondition::InPath("vendor".to_string()), inner)];
    let elsewhere = match ModuleOptions::new("vendors".to_string(), outer) {
        Ok(o) => o.rules,
        Err(_) => panic!("builds"),
    };
    assert!(matches!(module_type_of(&elsewhere, &plain("vendors/a.js")), ModuleType::Ecmascript { .. }));
}

#[test]
fn end_to_end_scenario() {
    let mut ctx = context();
    ctx.ecmascript.enable_jsx = Some(JsxTransformOptions { development: true, react_refresh: false, import_source: None, runtime: None });
    ctx.ecmascript.enable_typescript_transform = Some(TypescriptTransformOptions { use_define_for_class_fields: false });
    let rules = table(ctx);
    match module_type_of(&rules, &plain("app/button.tsx")) {
        ModuleType::Typescript { tsx, preprocess, postprocess, .. } => {
            assert!(tsx);
            assert_eq!(postprocess.len(), 1);
            assert!(matches!(postprocess[0], EcmascriptInputTransform::React { development: true, .. }));
            assert_eq!(preprocess.len(), 1);
            assert!(matches!(preprocess[0], EcmascriptInputTransform::TypeScript { .. }));
        }
        _ => panic!("a TypeScript module"),
    }
    assert!(matches!(module_type_of(&rules, &plain("app/styles.module.css")), ModuleType::CssModule));
    let at_import = resource("app/styles.module.css", ReferenceType::Css(CssReferenceSubType::AtImport(None)));
    assert!(matches!(module_type_of(&rules, &at_import), ModuleType::Css { ty: CssModuleAssetType::Module, .. }));
}
