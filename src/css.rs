use vstd::prelude::*;

use std::rc::Rc;

use crate::condition::{
    both, cond_matches, one_of_three, CssReferenceSubType, ReferenceType, Resource, RuleCondition,
};
use crate::context::{CssOptionsContext, ExecutionContext, PostCssTransformOptions, SourceMapsType};
use crate::error::{ConfigError, Feature};
use crate::module_type::{CssModuleAssetType, Environment, ModuleType, SourceTransform};
use crate::rule::{MatchMode, ModuleRule, ModuleRuleEffect};
use crate::table::{suffix_or_type, suffix_or_type_holds, type_rules_are, TypeRuleModel};
use crate::webpack::{alias_for, helper_package_alias};

verus! {

/// `r` is a CSS module: by the configured condition, else by a `.module.css`
/// path or a `text/css+module` content type.
pub open spec fn module_css_holds(condition: Option<RuleCondition>, r: Resource) -> bool {
    match condition {
        Some(c) => cond_matches(c, r),
        None => suffix_or_type_holds(r, seq![".module.css"], seq!["text/css+module"]),
    }
}

/// `r` is plain CSS by path or content type.
pub open spec fn plain_css_holds(r: Resource) -> bool {
    suffix_or_type_holds(r, seq![".css"], seq!["text/css"])
}

/// External transforms may run on `r`: it is no CSS module, or it is reached
/// through the inner or analyze reference of a CSS module's script facade.
pub open spec fn facade_boundary_ok(condition: Option<RuleCondition>, r: Resource) -> bool {
    !module_css_holds(condition, r) || r.reference_type == ReferenceType::Css(
        CssReferenceSubType::Inner,
    ) || r.reference_type == ReferenceType::Css(CssReferenceSubType::Analyze)
}

/// The condition that selects CSS modules.
pub fn module_css_condition(css: &CssOptionsContext) -> (c: RuleCondition)
    ensures
        forall|r: Resource| #[trigger] cond_matches(c, r) == module_css_holds(css.module_css_condition, r),
{
    match &css.module_css_condition {
        Some(c) => c.duplicate(),
        None => {
            let s: [&str; 1] = [".module.css"];
            let p: [&str; 1] = ["text/css+module"];
            assert(s@ == seq![".module.css"]);
            assert(p@ == seq!["text/css+module"]);
            suffix_or_type(&s, &p)
        },
    }
}

/// The condition under which external transforms may run on a resource.
pub fn module_css_external_transform_conditions(
    css: &CssOptionsContext,
    module_css: &RuleCondition,
) -> (c: RuleCondition)
    requires
        forall|r: Resource| #[trigger] cond_matches(*module_css, r) == module_css_holds(css.module_css_condition, r),
    ensures
        forall|r: Resource| #[trigger] cond_matches(c, r) == facade_boundary_ok(css.module_css_condition, r),
{
    let dup = module_css.duplicate();
    let ghost gd = dup;
    let not_module = RuleCondition::not(dup);
    let ghost gn = not_module;
    let inner = RuleCondition::ReferenceType(ReferenceType::Css(CssReferenceSubType::Inner));
    let analyze = RuleCondition::ReferenceType(ReferenceType::Css(CssReferenceSubType::Analyze));
    let ghost (gi, ga) = (inner, analyze);
    let c = one_of_three(not_module, inner, analyze);
    assert forall|r: Resource| #[trigger] cond_matches(c, r) == facade_boundary_ok(css.module_css_condition, r) by {
        assert(cond_matches(*module_css, r) == module_css_holds(css.module_css_condition, r));
        assert(cond_matches(gd, r) == cond_matches(*module_css, r));
        assert(cond_matches(gn, r) == !cond_matches(gd, r));
        assert(cond_matches(gi, r) == (r.reference_type == ReferenceType::Css(CssReferenceSubType::Inner)));
        assert(cond_matches(ga, r) == (r.reference_type == ReferenceType::Css(CssReferenceSubType::Analyze)));
    }
    c
}

fn copy_environment(e: &Option<Rc<Environment>>) -> (r: Option<Rc<Environment>>)
    ensures
        r == *e,
{
    match e {
        Some(x) => Some(x.clone()),
        None => None,
    }
}

/// The CSS rules when only raw CSS is handled.
pub open spec fn raw_css_models(css: CssOptionsContext, environment: Option<Rc<Environment>>) -> Seq<
    TypeRuleModel,
> {
    seq![
        (
            MatchMode::NonInternal,
            |r: Resource| plain_css_holds(r),
            ModuleType::Css { ty: CssModuleAssetType::Default, environment },
        ),
        (
            MatchMode::NonInternal,
            |r: Resource| module_css_holds(css.module_css_condition, r),
            ModuleType::Css { ty: CssModuleAssetType::Module, environment },
        ),
    ]
}

/// The CSS rules when CSS is processed: a CSS module gets a script facade unless
/// it is `@import`ed from CSS, and the facade's own references reach the CSS.
pub open spec fn processed_css_models(
    css: CssOptionsContext,
    environment: Option<Rc<Environment>>,
) -> Seq<TypeRuleModel> {
    seq![
        (
            MatchMode::All,
            |r: Resource| plain_css_holds(r),
            ModuleType::Css { ty: CssModuleAssetType::Default, environment },
        ),
        (
            MatchMode::NonInternal,
            |r: Resource|
                module_css_holds(css.module_css_condition, r) && !(
                r.reference_type is Css && r.reference_type->Css_0 is AtImport),
            ModuleType::CssModule,
        ),
        (
            MatchMode::NonInternal,
            |r: Resource|
                module_css_holds(css.module_css_condition, r) && r.reference_type is Css
                    && r.reference_type->Css_0 is AtImport,
            ModuleType::Css { ty: CssModuleAssetType::Module, environment },
        ),
        (
            MatchMode::NonInternal,
            |r: Resource|
                r.reference_type == ReferenceType::Css(CssReferenceSubType::Inner)
                    && module_css_holds(css.module_css_condition, r),
            ModuleType::Css { ty: CssModuleAssetType::Module, environment },
        ),
        (
            MatchMode::NonInternal,
            |r: Resource|
                r.reference_type == ReferenceType::Css(CssReferenceSubType::Analyze)
                    && module_css_holds(css.module_css_condition, r),
            ModuleType::Css { ty: CssModuleAssetType::Module, environment },
        ),
    ]
}

fn css_type_rule(mode: MatchMode, condition: RuleCondition, t: ModuleType) -> (r: ModuleRule)
    ensures
        r.match_mode == mode,
        r.condition == condition,
        r.effects@ == seq![ModuleRuleEffect::ModuleType(t)],
{
    ModuleRule { condition, effects: vec![ModuleRuleEffect::ModuleType(t)], match_mode: mode }
}

/// The condition for plain CSS.
fn plain_css_condition() -> (c: RuleCondition)
    ensures
        forall|r: Resource| #[trigger] cond_matches(c, r) == plain_css_holds(r),
{
    let s: [&str; 1] = [".css"];
    let p: [&str; 1] = ["text/css"];
    assert(s@ == seq![".css"]);
    assert(p@ == seq!["text/css"]);
    suffix_or_type(&s, &p)
}

/// The module-type rules for CSS, raw or processed.
pub fn css_type_rules(
    css: &CssOptionsContext,
    module_css: &RuleCondition,
    environment: &Option<Rc<Environment>>,
) -> (rules: Vec<ModuleRule>)
    requires
        forall|r: Resource| #[trigger] cond_matches(*module_css, r) == module_css_holds(css.module_css_condition, r),
    ensures
        css.enable_raw_css ==> type_rules_are(rules@, raw_css_models(*css, *environment)),
        !css.enable_raw_css ==> type_rules_are(rules@, processed_css_models(*css, *environment)),
{
    let mut rules: Vec<ModuleRule> = Vec::new();
    if css.enable_raw_css {
        rules.push(
            css_type_rule(
                MatchMode::NonInternal,
                plain_css_condition(),
                ModuleType::Css {
                    ty: CssModuleAssetType::Default,
                    environment: copy_environment(environment),
                },
            ),
        );
        rules.push(
            css_type_rule(
                MatchMode::NonInternal,
                module_css.duplicate(),
                ModuleType::Css {
                    ty: CssModuleAssetType::Module,
                    environment: copy_environment(environment),
                },
            ),
        );
        return rules;
    }
    rules.push(
        css_type_rule(
            MatchMode::All,
            plain_css_condition(),
            ModuleType::Css {
                ty: CssModuleAssetType::Default,
                environment: copy_environment(environment),
            },
        ),
    );
    let at_import = RuleCondition::ReferenceType(ReferenceType::Css(CssReferenceSubType::AtImport(None)));
    proof {
        assert forall|r: Resource| #[trigger] cond_matches(at_import, r) == (r.reference_type is Css
            && r.reference_type->Css_0 is AtImport) by {}
    }
    let not_at_import = RuleCondition::not(
        RuleCondition::ReferenceType(ReferenceType::Css(CssReferenceSubType::AtImport(None))),
    );
    proof {
        assert forall|r: Resource| #[trigger] cond_matches(not_at_import, r) == !(r.reference_type is Css
            && r.reference_type->Css_0 is AtImport) by {
            assert(cond_matches(
                RuleCondition::ReferenceType(ReferenceType::Css(CssReferenceSubType::AtImport(None))),
                r,
            ) == cond_matches(at_import, r));
        }
    }
    rules.push(
        css_type_rule(
            MatchMode::NonInternal,
            both(module_css.duplicate(), not_at_import),
            ModuleType::CssModule,
        ),
    );
    rules.push(
        css_type_rule(
            MatchMode::NonInternal,
            both(module_css.duplicate(), at_import),
            ModuleType::Css {
                ty: CssModuleAssetType::Module,
                environment: copy_environment(environment),
            },
        ),
    );
    rules.push(
        css_type_rule(
            MatchMode::NonInternal,
            both(
                RuleCondition::ReferenceType(ReferenceType::Css(CssReferenceSubType::Inner)),
                module_css.duplicate(),
            ),
            ModuleType::Css {
                ty: CssModuleAssetType::Module,
                environment: copy_environment(environment),
            },
        ),
    );
    rules.push(
        css_type_rule(
            MatchMode::NonInternal,
            both(
                RuleCondition::ReferenceType(ReferenceType::Css(CssReferenceSubType::Analyze)),
                module_css.duplicate(),
            ),
            ModuleType::Css {
                ty: CssModuleAssetType::Module,
                environment: copy_environment(environment),
            },
        ),
    );
    rules
}

/// `rule` runs PostCSS, with `postcss` made resolvable as `package` and `path`
/// say, on CSS and CSS modules where external transforms may run.
pub open spec fn postcss_rule_ok(
    rule: ModuleRule,
    css: CssOptionsContext,
    options: PostCssTransformOptions,
    path: Option<String>,
) -> bool {
    &&& rule.match_mode == MatchMode::NonInternal
    &&& forall|r: Resource|
        #[trigger] cond_matches(rule.condition, r) == ((plain_css_holds(r) || module_css_holds(
            css.module_css_condition,
            r,
        )) && facade_boundary_ok(css.module_css_condition, r))
    &&& rule.effects@.len() == 1
    &&& rule.effects@[0] is SourceTransforms
    &&& rule.effects@[0]->SourceTransforms_0@.len() == 1
    &&& *rule.effects@[0]->SourceTransforms_0@[0] matches SourceTransform::PostCss {
        import_map,
        config_location,
        source_maps,
    } && alias_for(import_map, "postcss"@, options.postcss_package, path) && config_location
        == options.config_location && source_maps == (css.source_maps == SourceMapsType::Full)
}

/// The PostCSS rule; it needs an execution context, and the resource's path
/// unless the `postcss` package is configured.
pub fn postcss_rule(
    css: &CssOptionsContext,
    options: &PostCssTransformOptions,
    execution_context: &Option<ExecutionContext>,
    path: &Option<String>,
    module_css: &RuleCondition,
    external_ok: &RuleCondition,
) -> (r: Result<ModuleRule, ConfigError>)
    requires
        forall|x: Resource| #[trigger] cond_matches(*module_css, x) == module_css_holds(css.module_css_condition, x),
        forall|x: Resource| #[trigger] cond_matches(*external_ok, x) == facade_boundary_ok(css.module_css_condition, x),
    ensures
        execution_context is None ==> r == Err::<ModuleRule, _>(
            ConfigError::MissingExecutionContext { feature: Feature::PostCss },
        ),
        execution_context is Some ==> (options.postcss_package is None && path is None
            <==> r is Err),
        execution_context is Some && r is Err ==> r == Err::<ModuleRule, _>(
            ConfigError::MissingPath { package: Feature::PostCss },
        ),
        r matches Ok(rule) ==> postcss_rule_ok(rule, *css, *options, *path),
{
    if execution_context.is_none() {
        return Err(ConfigError::MissingExecutionContext { feature: Feature::PostCss });
    }
    let alias = match helper_package_alias("postcss", &options.postcss_package, path, Feature::PostCss) {
        Ok(a) => a,
        Err(e) => {
            return Err(e);
        },
    };
    let css_or_module = one_of_three(
        plain_css_condition(),
        module_css.duplicate(),
        module_css.duplicate(),
    );
    let condition = both(css_or_module, external_ok.duplicate());
    let transform = SourceTransform::PostCss {
        import_map: alias,
        config_location: options.config_location,
        source_maps: css.source_maps == SourceMapsType::Full,
    };
    let mut transforms: Vec<Rc<SourceTransform>> = Vec::new();
    transforms.push(Rc::new(transform));
    let mut effects: Vec<ModuleRuleEffect> = Vec::new();
    effects.push(ModuleRuleEffect::SourceTransforms(transforms));
    Ok(ModuleRule { condition, effects, match_mode: MatchMode::NonInternal })
}

} // verus!
