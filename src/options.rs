use vstd::prelude::*;

use std::rc::Rc;

use crate::chains::{build_transform_chains, chains_built_from, TransformChains};
use crate::condition::{cond_matches, CssReferenceSubType, ReferenceType, Resource};
use crate::context::{ContextCondition, ModuleOptionsContext, SourceMapsType};
use crate::css::{
    css_type_rules, facade_boundary_ok, module_css_condition,
    module_css_external_transform_conditions, module_css_holds, postcss_rule, postcss_rule_ok,
    processed_css_models, raw_css_models,
};
use crate::error::{ConfigError, Feature};
use crate::module_type::{
    CssModuleAssetType, EcmascriptOptions, MdxTransformOptions, ModuleType, SourceTransform,
    SpecifiedModuleType,
};
use crate::rule::{
    assigns_module_type, lemma_last_assignment_wins, resolved_module_type, rule_applies, MatchMode,
    ModuleRule, ModuleRuleEffect,
};
use crate::table::{
    assigns, builtin_models, builtin_rules, rule_is, suffix_or_type, suffix_or_type_holds,
    type_rules_are,
};
use crate::text::{starts_with, str_starts_with};
use crate::webpack::{
    first_key_error, key_parts, lemma_key_errors, loader_effects_ok, loader_rule_holds, webpack_loader_rules,
};

verus! {

/// The rule table for one resource context.
pub struct ModuleOptions {
    pub rules: Vec<ModuleRule>,
}

/// The script options that every script module type shares.
pub open spec fn ecmascript_options_of(ctx: ModuleOptionsContext) -> EcmascriptOptions {
    EcmascriptOptions {
        tree_shaking_mode: ctx.tree_shaking_mode,
        url_rewrite_behavior: ctx.ecmascript.esm_url_rewrite_behavior,
        import_externals: ctx.ecmascript.import_externals,
        ignore_dynamic_requests: ctx.ecmascript.ignore_dynamic_requests,
        extract_source_map: ctx.ecmascript.source_maps == SourceMapsType::Full,
        keep_last_successful_parse: ctx.keep_last_successful_parse,
        specified_module_type: SpecifiedModuleType::Automatic,
    }
}

/// Markdown/MDX is compiled.
pub open spec fn mdx_enabled(ctx: ModuleOptionsContext) -> bool {
    ctx.enable_mdx || ctx.enable_mdx_rs is Some
}

/// The MDX compiler's options: JSX is left to the script pipeline, and the JSX
/// runtime, import source and development flag come from the JSX toggle.
pub open spec fn mdx_options_of(ctx: ModuleOptionsContext) -> MdxTransformOptions {
    let provider = match ctx.enable_mdx_rs {
        Some(o) => o.provider_import_source,
        None => None,
    };
    match ctx.ecmascript.enable_jsx {
        Some(jsx) => MdxTransformOptions {
            development: Some(jsx.development),
            jsx: Some(false),
            jsx_runtime: jsx.runtime,
            jsx_import_source: jsx.import_source,
            provider_import_source: provider,
        },
        None => MdxTransformOptions {
            development: Some(false),
            jsx: Some(false),
            jsx_runtime: None,
            jsx_import_source: None,
            provider_import_source: provider,
        },
    }
}

/// `rule` compiles `.md`, `.mdx` and `text/markdown` resources with `options`.
pub open spec fn mdx_rule_ok(rule: ModuleRule, options: MdxTransformOptions) -> bool {
    &&& rule.match_mode == MatchMode::NonInternal
    &&& forall|r: Resource|
        #[trigger] cond_matches(rule.condition, r) == suffix_or_type_holds(
            r,
            seq![".md", ".mdx"],
            seq!["text/markdown"],
        )
    &&& rule.effects@.len() == 1
    &&& rule.effects@[0] is SourceTransforms
    &&& rule.effects@[0]->SourceTransforms_0@ == seq![Rc::new(SourceTransform::Mdx(options))]
}

/// The project directory that rooted loader globs are relative to.
pub open spec fn project_path_of(ctx: ModuleOptionsContext) -> String {
    ctx.execution_context->0.project_path
}

/// Why the table for `ctx` cannot be built, if it cannot: the loader layer's
/// errors come first, then PostCSS's.
pub open spec fn table_error(ctx: ModuleOptionsContext, path: Option<String>) -> Option<ConfigError> {
    let webpack_error = match ctx.enable_webpack_loaders {
        Some(w) => if ctx.execution_context is None {
            Some(ConfigError::MissingExecutionContext { feature: Feature::WebpackLoaders })
        } else if w.loader_runner_package is None && path is None {
            Some(ConfigError::MissingPath { package: Feature::WebpackLoaders })
        } else {
            first_key_error(w.rules@, w.conditions, project_path_of(ctx))
        },
        None => None,
    };
    match webpack_error {
        Some(e) => Some(e),
        None => if !ctx.css.enable_raw_css && ctx.enable_postcss_transform is Some {
            if ctx.execution_context is None {
                Some(ConfigError::MissingExecutionContext { feature: Feature::PostCss })
            } else if ctx.enable_postcss_transform->0.postcss_package is None && path is None {
                Some(ConfigError::MissingPath { package: Feature::PostCss })
            } else {
                None
            }
        } else {
            None
        },
    }
}

pub open spec fn loader_count(ctx: ModuleOptionsContext) -> int {
    match ctx.enable_webpack_loaders {
        Some(w) => w.rules.len() as int,
        None => 0,
    }
}

pub open spec fn postcss_count(ctx: ModuleOptionsContext) -> int {
    if !ctx.css.enable_raw_css && ctx.enable_postcss_transform is Some {
        1
    } else {
        0
    }
}

pub open spec fn css_count(ctx: ModuleOptionsContext) -> int {
    if ctx.css.enable_raw_css {
        2
    } else {
        5
    }
}

pub open spec fn mdx_count(ctx: ModuleOptionsContext) -> int {
    if mdx_enabled(ctx) {
        1
    } else {
        0
    }
}

/// `rules` is the table for `ctx`: the built-in type rules, one loader rule per
/// user-declared loader chain, the PostCSS rule, the CSS type rules, the MDX
/// rule, and the context's own rules, in that order.
pub open spec fn table_built(
    rules: Seq<ModuleRule>,
    ctx: ModuleOptionsContext,
    path: Option<String>,
) -> bool {
    let w = 18 + loader_count(ctx);
    let p = w + postcss_count(ctx);
    let c = p + css_count(ctx);
    let m = c + mdx_count(ctx);
    let css = ctx.css;
    &&& rules.len() == m + ctx.module_rules.len()
    &&& exists|chains: TransformChains|
        chains_built_from(chains, ctx.ecmascript, ctx.environment) && type_rules_are(
            #[trigger] rules.subrange(0, 18),
            builtin_models(chains, ecmascript_options_of(ctx), ctx.ecmascript.enable_types),
        )
    &&& ctx.enable_webpack_loaders matches Some(opts) ==> forall|i: int|
        0 <= i < opts.rules.len() ==> {
            &&& (#[trigger] rules[18 + i]).match_mode == MatchMode::NonInternal
            &&& loader_effects_ok(
                rules[18 + i].effects@,
                opts.rules[i],
                opts.loader_runner_package,
                path,
                ctx.ecmascript.source_maps == SourceMapsType::Full,
            )
            &&& forall|x: Resource|
                #[trigger] cond_matches(rules[18 + i].condition, x) == loader_rule_holds(
                    key_parts(opts.rules[i].key, opts.conditions, project_path_of(ctx))->Ok_0,
                    |y: Resource| facade_boundary_ok(css.module_css_condition, y),
                    x,
                )
        }
    &&& postcss_count(ctx) == 1 ==> postcss_rule_ok(
        rules[w],
        css,
        ctx.enable_postcss_transform->0,
        path,
    )
    &&& css.enable_raw_css ==> type_rules_are(rules.subrange(p, c), raw_css_models(css, ctx.environment))
    &&& !css.enable_raw_css ==> type_rules_are(
        rules.subrange(p, c),
        processed_css_models(css, ctx.environment),
    )
    &&& mdx_enabled(ctx) ==> mdx_rule_ok(rules[c], mdx_options_of(ctx))
    &&& rules.subrange(m, rules.len() as int) == ctx.module_rules@
}

/// Processed CSS: a CSS module reached through a CSS `@import`, or through the
/// inner or analyze reference of its script facade, is a CSS module asset; a
/// CSS module imported from a script is the script facade. This holds where no
/// rule of the context's own that fires for the resource assigns a module type.
pub proof fn law_css_module_facade_exclusion(
    rules: Seq<ModuleRule>,
    ctx: ModuleOptionsContext,
    path: Option<String>,
    r: Resource,
)
    requires
        table_built(rules, ctx, path),
        !ctx.css.enable_raw_css,
        module_css_holds(ctx.css.module_css_condition, r),
        forall|i: int|
            0 <= i < ctx.module_rules.len() && rule_applies(#[trigger] ctx.module_rules@[i], r)
                ==> !assigns_module_type(ctx.module_rules@[i].effects@),
    ensures
        r.reference_type is Css && r.reference_type->Css_0 is AtImport ==> resolved_module_type(
            rules,
            r,
        ) == Some(ModuleType::Css { ty: CssModuleAssetType::Module, environment: ctx.environment }),
        r.reference_type == ReferenceType::Css(CssReferenceSubType::Inner) ==> resolved_module_type(
            rules,
            r,
        ) == Some(ModuleType::Css { ty: CssModuleAssetType::Module, environment: ctx.environment }),
        r.reference_type == ReferenceType::Css(CssReferenceSubType::Analyze) ==> resolved_module_type(
            rules,
            r,
        ) == Some(ModuleType::Css { ty: CssModuleAssetType::Module, environment: ctx.environment }),
        !(r.reference_type is Css) && !(r.reference_type is Internal) ==> resolved_module_type(
            rules,
            r,
        ) == Some(ModuleType::CssModule),
{
    let p = 18 + loader_count(ctx) + postcss_count(ctx);
    let c = p + css_count(ctx);
    let m = c + mdx_count(ctx);
    let css = rules.subrange(p, c);
    let models = processed_css_models(ctx.css, ctx.environment);
    assert forall|j: int| 0 <= j < 5 implies rule_is(
        #[trigger] rules[p + j],
        models[j].0,
        models[j].1,
        assigns(models[j].2),
    ) by {
        assert(rules[p + j] == css[j]);
    }
    assert forall|j: int| c <= j < rules.len() && rule_applies(#[trigger] rules[j], r) implies !assigns_module_type(
        rules[j].effects@,
    ) by {
        if j < m {
            assert(rules[j].effects@.len() == 1 && rules[j].effects@[0] is SourceTransforms);
        } else {
            assert(rules[j] == rules.subrange(m, rules.len() as int)[j - m]);
            assert(rules[j] == ctx.module_rules@[j - m]);
        }
    }
    let env = ctx.environment;
    let at_import = r.reference_type is Css && r.reference_type->Css_0 is AtImport;
    let inner = r.reference_type == ReferenceType::Css(CssReferenceSubType::Inner);
    let analyze = r.reference_type == ReferenceType::Css(CssReferenceSubType::Analyze);
    assert(cond_matches(rules[p + 1].condition, r) == (module_css_holds(ctx.css.module_css_condition, r) && !at_import));
    assert(cond_matches(rules[p + 2].condition, r) == (module_css_holds(ctx.css.module_css_condition, r) && at_import));
    assert(cond_matches(rules[p + 3].condition, r) == (inner && module_css_holds(ctx.css.module_css_condition, r)));
    assert(cond_matches(rules[p + 4].condition, r) == (analyze && module_css_holds(ctx.css.module_css_condition, r)));
    if at_import {
        lemma_last_assignment_wins(rules, r, p + 2, ModuleType::Css { ty: CssModuleAssetType::Module, environment: env });
    }
    if inner {
        lemma_last_assignment_wins(rules, r, p + 3, ModuleType::Css { ty: CssModuleAssetType::Module, environment: env });
    }
    if analyze {
        lemma_last_assignment_wins(rules, r, p + 4, ModuleType::Css { ty: CssModuleAssetType::Module, environment: env });
    }
    if !(r.reference_type is Css) && !(r.reference_type is Internal) {
        lemma_last_assignment_wins(rules, r, p + 1, ModuleType::CssModule);
    }
}

fn copy_text(s: &Option<String>) -> (r: Option<String>)
    ensures
        r == *s,
{
    match s {
        Some(t) => Some(t.clone()),
        None => None,
    }
}

/// The rule that compiles Markdown/MDX.
fn mdx_rule(ctx: &ModuleOptionsContext) -> (r: ModuleRule)
    ensures
        mdx_rule_ok(r, mdx_options_of(*ctx)),
{
    let provider = match &ctx.enable_mdx_rs {
        Some(o) => copy_text(&o.provider_import_source),
        None => None,
    };
    let options = match &ctx.ecmascript.enable_jsx {
        Some(jsx) => MdxTransformOptions {
            development: Some(jsx.development),
            jsx: Some(false),
            jsx_runtime: copy_text(&jsx.runtime),
            jsx_import_source: copy_text(&jsx.import_source),
            provider_import_source: provider,
        },
        None => MdxTransformOptions {
            development: Some(false),
            jsx: Some(false),
            jsx_runtime: None,
            jsx_import_source: None,
            provider_import_source: provider,
        },
    };
    let s: [&str; 2] = [".md", ".mdx"];
    let p: [&str; 1] = ["text/markdown"];
    assert(s@ == seq![".md", ".mdx"]);
    assert(p@ == seq!["text/markdown"]);
    let condition = suffix_or_type(&s, &p);
    let mut transforms: Vec<Rc<SourceTransform>> = Vec::new();
    transforms.push(Rc::new(SourceTransform::Mdx(options)));
    let mut effects: Vec<ModuleRuleEffect> = Vec::new();
    effects.push(ModuleRuleEffect::SourceTransforms(transforms));
    ModuleRule { condition, effects, match_mode: MatchMode::NonInternal }
}

/// `path` lies at or below the directory `base`.
pub open spec fn in_path(base: Seq<char>, path: Seq<char>) -> bool {
    base.len() == 0 || path == base || (starts_with(path, base) && path.len() > base.len()
        && path[base.len() as int] == '/')
}

pub open spec fn context_selects(c: ContextCondition, path: Seq<char>) -> bool {
    match c {
        ContextCondition::InPath(base) => in_path(base@, path),
    }
}

/// Entry `i` of `rules` is the first whose condition selects `path`.
pub open spec fn selects_first(
    rules: Seq<(ContextCondition, ModuleOptionsContext)>,
    path: Seq<char>,
    i: int,
) -> bool {
    &&& 0 <= i < rules.len()
    &&& context_selects(rules[i].0, path)
    &&& forall|j: int| 0 <= j < i ==> !context_selects(#[trigger] rules[j].0, path)
}

/// The most specific context for `path`: the first nested context that selects
/// it, resolved in turn, or `ctx` itself.
pub open spec fn selected_context(ctx: ModuleOptionsContext, path: Seq<char>) -> ModuleOptionsContext
    decreases ctx,
{
    if exists|i: int| selects_first(ctx.rules@, path, i) {
        let i = choose|i: int| selects_first(ctx.rules@, path, i);
        if 0 <= i < ctx.rules.len() {
            selected_context(ctx.rules@[i].1, path)
        } else {
            ctx
        }
    } else {
        ctx
    }
}

/// The table needs the resource's path: a helper package is to be found next
/// to the resource.
pub open spec fn need_path(ctx: ModuleOptionsContext) -> bool {
    (!ctx.css.enable_raw_css && ctx.enable_postcss_transform is Some
        && ctx.enable_postcss_transform->0.postcss_package is None) || (
    ctx.enable_webpack_loaders is Some
        && ctx.enable_webpack_loaders->0.loader_runner_package is None)
}

/// The path handed on to the table: only where it is needed.
pub open spec fn path_for(ctx: ModuleOptionsContext, path: String) -> Option<String> {
    if need_path(ctx) {
        Some(path)
    } else {
        None
    }
}

fn context_condition_matches(c: &ContextCondition, path: &str) -> (r: bool)
    ensures
        r == context_selects(*c, path@),
{
    match c {
        ContextCondition::InPath(base) => {
            let b = base.as_str();
            let nb = b.unicode_len();
            let np = path.unicode_len();
            if nb == 0 {
                return true;
            }
            if !str_starts_with(path, b) {
                assert(path@ != b@) by {
                    if path@ == b@ {
                        assert(path@.subrange(0, nb as int) =~= b@);
                    }
                }
                return false;
            }
            if np == nb {
                assert(path@ =~= path@.subrange(0, nb as int));
                return true;
            }
            path.get_char(nb) == '/'
        },
    }
}

impl ModuleOptions {
    /// Builds the rule table for a resource in directory `path`: the first nested
    /// context of `ctx` that selects `path` is used instead of `ctx`, and the path
    /// is handed on only where a helper package must be found next to it.
    pub fn new(path: String, ctx: ModuleOptionsContext) -> (r: Result<ModuleOptions, ConfigError>)
        ensures
            ({
                let sel = selected_context(ctx, path@);
                let p = path_for(sel, path);
                match r {
                    Ok(o) => table_error(sel, p) is None && table_built(o.rules@, sel, p),
                    Err(e) => table_error(sel, p) == Some(e),
                }
            }),
            !(r matches Err(ConfigError::MissingPath { .. })),
        decreases ctx,
    {
        let mut i: usize = 0;
        let mut found = false;
        let n = ctx.rules.len();
        while !found && i < n
            invariant
                n == ctx.rules@.len(),
                i <= n,
                found ==> i < n && context_selects(ctx.rules@[i as int].0, path@),
                forall|j: int| 0 <= j < i ==> !context_selects(#[trigger] ctx.rules@[j].0, path@),
            decreases n - i + if found { 0int } else { 1int },
        {
            if context_condition_matches(&ctx.rules[i].0, path.as_str()) {
                found = true;
            } else {
                i = i + 1;
            }
        }
        if found {
            assert(selects_first(ctx.rules@, path@, i as int));
            proof {
                let k = choose|k: int| selects_first(ctx.rules@, path@, k);
                if k < i {
                } else if k > i {
                    assert(!context_selects(ctx.rules@[i as int].0, path@));
                }
                assert(k == i);
                vstd::std_specs::vec::axiom_vec_index_decreases(ctx.rules, i as int);
                assert(decreases_to!(ctx => ctx.rules[i as int].1));
            }
            let ghost g = ctx;
            let mut ctx = ctx;
            let (_, inner) = ctx.rules.remove(i);
            assert(inner == g.rules@[i as int].1);
            assert(selected_context(g, path@) == selected_context(inner, path@));
            return Self::new(path, inner);
        }
        assert(!exists|k: int| selects_first(ctx.rules@, path@, k));
        let needed = (!ctx.css.enable_raw_css && match &ctx.enable_postcss_transform {
            Some(p) => p.postcss_package.is_none(),
            None => false,
        }) || match &ctx.enable_webpack_loaders {
            Some(w) => w.loader_runner_package.is_none(),
            None => false,
        };
        let ghost whole = path;
        let p = if needed {
            Some(path)
        } else {
            None
        };
        assert(selected_context(ctx, whole@) == ctx);
        assert(p == path_for(ctx, whole));
        proof {
            if ctx.enable_webpack_loaders is Some {
                let w = ctx.enable_webpack_loaders->0;
                lemma_key_errors(w.rules@, w.conditions, project_path_of(ctx));
            }
        }
        assert(!(table_error(ctx, p) matches Some(ConfigError::MissingPath { .. })));
        Self::new_internal(p, ctx)
    }

    /// Builds the rule table for `ctx`. `path` is the resource's directory, needed
    /// only where a helper package is looked up next to the resource.
    #[verifier::rlimit(40)]
    fn new_internal(path: Option<String>, ctx: ModuleOptionsContext) -> (r: Result<
        ModuleOptions,
        ConfigError,
    >)
        ensures
            match r {
                Ok(o) => table_error(ctx, path) is None && table_built(o.rules@, ctx, path),
                Err(e) => table_error(ctx, path) == Some(e),
            },
    {
        let ghost g = ctx;
        let module_css = module_css_condition(&ctx.css);
        let external_ok = module_css_external_transform_conditions(&ctx.css, &module_css);
        let chains = build_transform_chains(&ctx.ecmascript, &ctx.environment);
        let options = EcmascriptOptions {
            tree_shaking_mode: ctx.tree_shaking_mode,
            url_rewrite_behavior: ctx.ecmascript.esm_url_rewrite_behavior,
            import_externals: ctx.ecmascript.import_externals,
            ignore_dynamic_requests: ctx.ecmascript.ignore_dynamic_requests,
            extract_source_map: ctx.ecmascript.source_maps == SourceMapsType::Full,
            keep_last_successful_parse: ctx.keep_last_successful_parse,
            specified_module_type: SpecifiedModuleType::Automatic,
        };
        let mut rules = builtin_rules(&chains, options, ctx.ecmascript.enable_types);
        let ghost builtin = rules@;
        assert(chains_built_from(chains, g.ecmascript, g.environment) && type_rules_are(
            builtin,
            builtin_models(chains, ecmascript_options_of(g), g.ecmascript.enable_types),
        ));

        let ghost mut loaders: Seq<ModuleRule> = seq![];
        if let Some(w) = &ctx.enable_webpack_loaders {
            let exec = match &ctx.execution_context {
                Some(e) => e,
                None => {
                    return Err(
                        ConfigError::MissingExecutionContext { feature: Feature::WebpackLoaders },
                    );
                },
            };
            let mut wr = match webpack_loader_rules(
                w,
                exec,
                &path,
                &external_ok,
                ctx.ecmascript.source_maps == SourceMapsType::Full,
            ) {
                Ok(v) => v,
                Err(e) => {
                    return Err(e);
                },
            };
            proof {
                loaders = wr@;
            }
            rules.append(&mut wr);
        }
        let ghost after_loaders = rules@;
        assert(after_loaders == builtin + loaders);
        assert(table_error(g, path) is None || (!g.css.enable_raw_css
            && g.enable_postcss_transform is Some));

        let ghost mut post: Seq<ModuleRule> = seq![];
        if !ctx.css.enable_raw_css {
            if let Some(p) = &ctx.enable_postcss_transform {
                let rule = match postcss_rule(
                    &ctx.css,
                    p,
                    &ctx.execution_context,
                    &path,
                    &module_css,
                    &external_ok,
                ) {
                    Ok(r) => r,
                    Err(e) => {
                        return Err(e);
                    },
                };
                proof {
                    post = seq![rule];
                }
                rules.push(rule);
            }
        }
        assert(table_error(g, path) is None);
        let ghost after_post = rules@;
        assert(after_post =~= after_loaders + post);

        let mut css_rules = css_type_rules(&ctx.css, &module_css, &ctx.environment);
        let ghost css_part = css_rules@;
        rules.append(&mut css_rules);
        let ghost after_css = rules@;

        let ghost mut mdx: Seq<ModuleRule> = seq![];
        if ctx.enable_mdx || ctx.enable_mdx_rs.is_some() {
            let rule = mdx_rule(&ctx);
            proof {
                mdx = seq![rule];
            }
            rules.push(rule);
        }
        let ghost after_mdx = rules@;
        assert(after_mdx =~= after_css + mdx);

        let mut user = ctx.module_rules;
        rules.append(&mut user);
        proof {
            let t = rules@;
            let w = 18 + loader_count(g);
            let p = w + postcss_count(g);
            let c = p + css_count(g);
            let m = c + mdx_count(g);
            assert(t.subrange(0, 18) =~= builtin);
            assert(t.subrange(p, c) =~= css_part);
            assert(t.subrange(m, t.len() as int) =~= g.module_rules@);
            if let Some(opts) = g.enable_webpack_loaders {
                assert forall|i: int| 0 <= i < opts.rules.len() implies #[trigger] t[18 + i]
                    == loaders[i] by {}
                assert forall|x: Resource|
                    #[trigger] facade_boundary_ok(g.css.module_css_condition, x) == cond_matches(
                    external_ok,
                    x,
                ) by {}
            }
            if postcss_count(g) == 1 {
                assert(t[w] == post[0]);
            }
            if mdx_enabled(g) {
                assert(t[c] == mdx[0]);
            }
        }
        Ok(ModuleOptions { rules })
    }
}

} // verus!
