use vstd::prelude::*;

use std::rc::Rc;

use crate::condition::{
    cond_matches, lemma_all_elem, lemma_all_intro, Resource, RuleCondition,
};
use crate::context::{ConditionPath, ExecutionContext, LoaderRule, NamedCondition, WebpackLoadersOptions};
use crate::error::{ConfigError, Feature};
use crate::module_type::{ExternalType, ImportMapping, PackageAlias, SourceTransform};
use crate::pattern::{regex_accepts, regex_compiles};
use crate::rule::{MatchMode, ModuleRule, ModuleRuleEffect};
use crate::text::{has_char, str_equal, str_has_char};

verus! {

/// The directory under which helper packages are made resolvable.
pub open spec fn alias_request(package_name: Seq<char>) -> Seq<char> {
    "@vercel/turbopack/"@ + package_name
}

/// Makes `package_name` resolve through `package_mapping`.
pub fn package_import_map_from_import_mapping(
    package_name: &str,
    package_mapping: &Rc<ImportMapping>,
) -> (a: PackageAlias)
    ensures
        a.request@ == alias_request(package_name@),
        a.mapping == *package_mapping,
{
    PackageAlias {
        request: String::from_str("@vercel/turbopack/").concat(package_name),
        mapping: package_mapping.clone(),
    }
}

/// Makes `package_name` resolve to the package of that name found from
/// `context_path`.
pub fn package_import_map_from_context(package_name: &str, context_path: &String) -> (a:
    PackageAlias)
    ensures
        a.request@ == alias_request(package_name@),
        *a.mapping matches ImportMapping::PrimaryAlternative { name, context } && name@
            == package_name@ && context == Some(*context_path),
{
    PackageAlias {
        request: String::from_str("@vercel/turbopack/").concat(package_name),
        mapping: Rc::new(
            ImportMapping::PrimaryAlternative {
                name: String::from_str(package_name),
                context: Some(context_path.clone()),
            },
        ),
    }
}

/// `a` makes `package_name` resolvable: through `package` when one is
/// configured, else from the resource's directory `path`.
pub open spec fn alias_for(
    a: PackageAlias,
    package_name: Seq<char>,
    package: Option<Rc<ImportMapping>>,
    path: Option<String>,
) -> bool {
    &&& a.request@ == alias_request(package_name)
    &&& match package {
        Some(m) => a.mapping == m,
        None => *a.mapping matches ImportMapping::PrimaryAlternative { name, context } && name@
            == package_name && context == path,
    }
}

/// The alias for a helper package: `package` when configured, else the package
/// found next to the resource, which needs `path`.
pub fn helper_package_alias(
    package_name: &str,
    package: &Option<Rc<ImportMapping>>,
    path: &Option<String>,
    feature: Feature,
) -> (r: Result<PackageAlias, ConfigError>)
    ensures
        r is Err <==> (package is None && path is None),
        match r {
            Ok(a) => alias_for(a, package_name@, *package, *path),
            Err(e) => package is None && path is None && e == (ConfigError::MissingPath {
                package: feature,
            }),
        },
{
    match package {
        Some(m) => Ok(package_import_map_from_import_mapping(package_name, m)),
        None => match path {
            Some(p) => Ok(package_import_map_from_context(package_name, p)),
            None => Err(ConfigError::MissingPath { package: feature }),
        },
    }
}

/// The mapping that makes the bundled `loader-runner` resolvable.
pub fn loader_runner_package_mapping() -> (m: ImportMapping)
    ensures
        m matches ImportMapping::External { request, ty } && request@
            == "next/dist/compiled/loader-runner"@ && ty == ExternalType::CommonJs,
{
    ImportMapping::External {
        request: String::from_str("next/dist/compiled/loader-runner"),
        ty: ExternalType::CommonJs,
    }
}

/// The options of the loader layer for the selected `rules`: none without rules,
/// and the bundled `loader-runner` otherwise.
pub fn webpack_loader_options(
    rules: Option<Vec<LoaderRule>>,
    conditions: Option<Vec<NamedCondition>>,
) -> (r: Option<WebpackLoadersOptions>)
    ensures
        rules is None ==> r is None,
        rules is Some ==> r is Some,
        r matches Some(o) ==> {
            &&& Some(o.rules) == rules
            &&& o.conditions == conditions
            &&& o.loader_runner_package is Some
            &&& *o.loader_runner_package->0 matches ImportMapping::External { request, ty }
            &&& request@ == "next/dist/compiled/loader-runner"@
            &&& ty == ExternalType::CommonJs
        },
{
    match rules {
        Some(rules) => Some(
            WebpackLoadersOptions {
                rules,
                conditions,
                loader_runner_package: Some(Rc::new(loader_runner_package_mapping())),
            },
        ),
        None => None,
    }
}

/// A loader key that names a declared condition.
pub open spec fn is_named_key(key: Seq<char>) -> bool {
    key.len() > 0 && key[0] == '#'
}

/// A glob over the path below `base` when it holds a `/`, else over the last
/// path segment.
pub open spec fn glob_condition(glob: String, base: String) -> RuleCondition {
    if has_char(glob@, '/') {
        RuleCondition::ResourcePathGlob { base, glob }
    } else {
        RuleCondition::ResourceBasePathGlob(glob)
    }
}

/// The first condition of `s` declared under `key`.
pub open spec fn first_named(s: Seq<NamedCondition>, key: Seq<char>) -> Option<NamedCondition>
    decreases s.len(),
{
    if s.len() == 0 {
        None
    } else if s[0].key@ == key {
        Some(s[0])
    } else {
        first_named(s.skip(1), key)
    }
}

/// The conditions that a regular expression contributes.
pub open spec fn regex_part(
    pattern: String,
    make: spec_fn(String) -> RuleCondition,
) -> Result<Seq<RuleCondition>, ConfigError> {
    if regex_accepts(pattern@) {
        Ok(seq![make(pattern)])
    } else {
        Err(ConfigError::InvalidPattern { pattern })
    }
}

/// The conditions that the named condition `n` stands for.
pub open spec fn named_parts(n: NamedCondition, base: String) -> Result<
    Seq<RuleCondition>,
    ConfigError,
> {
    let path_part: Result<Seq<RuleCondition>, ConfigError> = match n.path {
        Some(ConditionPath::Glob(g)) => Ok(seq![glob_condition(g, base)]),
        Some(ConditionPath::Regex(re)) => regex_part(
            re,
            |p: String| RuleCondition::ResourcePathEsRegex(p),
        ),
        None => Ok(seq![]),
    };
    let content_part: Result<Seq<RuleCondition>, ConfigError> = match n.content {
        Some(re) => regex_part(re, |p: String| RuleCondition::ResourceContentEsRegex(p)),
        None => Ok(seq![]),
    };
    match (path_part, content_part) {
        (Err(e), _) => Err(e),
        (Ok(_), Err(e)) => Err(e),
        (Ok(a), Ok(b)) => Ok(a + b),
    }
}

/// The conditions that the loader key `key` stands for: a declared condition
/// for a `#` key, else a glob.
pub open spec fn key_parts(
    key: String,
    conditions: Option<Vec<NamedCondition>>,
    base: String,
) -> Result<Seq<RuleCondition>, ConfigError> {
    if is_named_key(key@) {
        let found = match conditions {
            Some(v) => first_named(v@, key@),
            None => None,
        };
        match found {
            Some(n) => named_parts(n, base),
            None => Err(ConfigError::MissingCondition { key }),
        }
    } else {
        Ok(seq![glob_condition(key, base)])
    }
}

fn make_glob_condition(glob: &String, base: &String) -> (c: RuleCondition)
    ensures
        c == glob_condition(*glob, *base),
{
    if str_has_char(glob.as_str(), '/') {
        RuleCondition::ResourcePathGlob { base: base.clone(), glob: glob.clone() }
    } else {
        RuleCondition::ResourceBasePathGlob(glob.clone())
    }
}

/// The first condition of `conditions` declared under `key`.
fn find_named<'a>(conditions: &'a Vec<NamedCondition>, key: &str) -> (r: Option<
    &'a NamedCondition,
>)
    ensures
        match r {
            Some(n) => first_named(conditions@, key@) == Some(*n),
            None => first_named(conditions@, key@) is None,
        },
{
    let mut i: usize = 0;
    assert(conditions@.skip(0) =~= conditions@);
    while i < conditions.len()
        invariant
            i <= conditions@.len(),
            first_named(conditions@, key@) == first_named(conditions@.skip(i as int), key@),
        decreases conditions@.len() - i,
    {
        assert(conditions@.skip(i as int)[0] == conditions@[i as int]);
        assert(conditions@.skip(i as int).skip(1) =~= conditions@.skip(i + 1));
        if str_equal(conditions[i].key.as_str(), key) {
            return Some(&conditions[i]);
        }
        i = i + 1;
    }
    None
}

/// Translates a loader key into the conditions that select its resources.
pub fn loader_key_conditions(
    key: &String,
    conditions: &Option<Vec<NamedCondition>>,
    base: &String,
) -> (r: Result<Vec<RuleCondition>, ConfigError>)
    ensures
        match r {
            Ok(v) => key_parts(*key, *conditions, *base) == Ok::<_, ConfigError>(v@),
            Err(e) => key_parts(*key, *conditions, *base) == Err::<Seq<RuleCondition>, _>(e),
        },
{
    let named = key.as_str().unicode_len() > 0 && key.as_str().get_char(0) == '#';
    if !named {
        let mut v: Vec<RuleCondition> = Vec::new();
        v.push(make_glob_condition(key, base));
        assert(v@ =~= seq![glob_condition(*key, *base)]);
        return Ok(v);
    }
    let found = match conditions {
        Some(v) => find_named(v, key.as_str()),
        None => None,
    };
    let n = match found {
        Some(n) => n,
        None => {
            return Err(ConfigError::MissingCondition { key: key.clone() });
        },
    };
    let mut parts: Vec<RuleCondition> = Vec::new();
    match &n.path {
        Some(ConditionPath::Glob(g)) => {
            parts.push(make_glob_condition(g, base));
        },
        Some(ConditionPath::Regex(re)) => {
            if !regex_compiles(re.as_str()) {
                return Err(ConfigError::InvalidPattern { pattern: re.clone() });
            }
            parts.push(RuleCondition::ResourcePathEsRegex(re.clone()));
        },
        None => {},
    }
    match &n.content {
        Some(re) => {
            if !regex_compiles(re.as_str()) {
                return Err(ConfigError::InvalidPattern { pattern: re.clone() });
            }
            parts.push(RuleCondition::ResourceContentEsRegex(re.clone()));
        },
        None => {},
    }
    assert(key_parts(*key, *conditions, *base) == Ok::<_, ConfigError>(parts@)) by {
        let path_part: Seq<RuleCondition> = match n.path {
            Some(ConditionPath::Glob(g)) => seq![glob_condition(g, *base)],
            Some(ConditionPath::Regex(re)) => seq![RuleCondition::ResourcePathEsRegex(re)],
            None => seq![],
        };
        let content_part: Seq<RuleCondition> = match n.content {
            Some(re) => seq![RuleCondition::ResourceContentEsRegex(re)],
            None => seq![],
        };
        assert(parts@ =~= path_part + content_part);
    }
    Ok(parts)
}

/// The first error among the keys of `rules`.
pub open spec fn first_key_error(
    rules: Seq<LoaderRule>,
    conditions: Option<Vec<NamedCondition>>,
    base: String,
) -> Option<ConfigError>
    decreases rules.len(),
{
    if rules.len() == 0 {
        None
    } else {
        match key_parts(rules[0].key, conditions, base) {
            Err(e) => Some(e),
            Ok(_) => first_key_error(rules.skip(1), conditions, base),
        }
    }
}

/// What a loader key selects: a key with a `/` becomes a glob over the
/// path below the project directory, any other plain key a glob over the last
/// path segment, and a `#` key without a declared condition is an error.
pub proof fn law_loader_key_conditions(
    key: String,
    conditions: Option<Vec<NamedCondition>>,
    base: String,
)
    ensures
        !is_named_key(key@) && has_char(key@, '/') ==> key_parts(key, conditions, base) == Ok::<
            _,
            ConfigError,
        >(seq![RuleCondition::ResourcePathGlob { base, glob: key }]),
        !is_named_key(key@) && !has_char(key@, '/') ==> key_parts(key, conditions, base) == Ok::<
            _,
            ConfigError,
        >(seq![RuleCondition::ResourceBasePathGlob(key)]),
        is_named_key(key@) && (conditions is None || first_named(conditions->0@, key@) is None)
            ==> key_parts(key, conditions, base) == Err::<Seq<RuleCondition>, _>(
            ConfigError::MissingCondition { key },
        ),
{
}

/// A loader key fails only for a missing named condition or a refused pattern.
pub proof fn lemma_key_errors(
    rules: Seq<LoaderRule>,
    conditions: Option<Vec<NamedCondition>>,
    base: String,
)
    ensures
        first_key_error(rules, conditions, base) matches Some(e) ==> (e is MissingCondition
            || e is InvalidPattern),
    decreases rules.len(),
{
    if rules.len() > 0 {
        lemma_key_errors(rules.skip(1), conditions, base);
    }
}

/// Every condition of `parts` holds of `r`.
pub open spec fn all_hold(parts: Seq<RuleCondition>, r: Resource) -> bool {
    forall|i: int| 0 <= i < parts.len() ==> cond_matches(#[trigger] parts[i], r)
}

/// `t` runs the loader chain of `rule` with `loader-runner` made resolvable as
/// `package` and `path` say.
pub open spec fn loader_transform_ok(
    t: SourceTransform,
    rule: LoaderRule,
    package: Option<Rc<ImportMapping>>,
    path: Option<String>,
    source_maps: bool,
) -> bool {
    &&& t is WebpackLoaders
    &&& alias_for(t->WebpackLoaders_import_map, "loader-runner"@, package, path)
    &&& t->WebpackLoaders_loaders == rule.loaders
    &&& t->WebpackLoaders_rename_as == rule.rename_as
    &&& t->WebpackLoaders_source_maps == source_maps
}

/// The effects are one transform list that holds the loader transform of `rule`.
pub open spec fn loader_effects_ok(
    e: Seq<ModuleRuleEffect>,
    rule: LoaderRule,
    package: Option<Rc<ImportMapping>>,
    path: Option<String>,
    source_maps: bool,
) -> bool {
    &&& e.len() == 1
    &&& e[0] is SourceTransforms
    &&& e[0]->SourceTransforms_0@.len() == 1
    &&& loader_transform_ok(*e[0]->SourceTransforms_0@[0], rule, package, path, source_maps)
}

/// The rule for the loader key `rule.key`, resolved to `parts`, holds of `r`: all
/// of `parts` hold, `r` is read from a file, and `external_ok` holds.
pub open spec fn loader_rule_holds(
    parts: Seq<RuleCondition>,
    external_ok: spec_fn(Resource) -> bool,
    r: Resource,
) -> bool {
    all_hold(parts, r) && !r.is_virtual && external_ok(r)
}

/// Builds the condition of a loader rule: `parts`, not a virtual source, and
/// `external_ok`.
fn loader_condition(parts: Vec<RuleCondition>, external_ok: &RuleCondition) -> (c: RuleCondition)
    ensures
        forall|x: Resource|
            #[trigger] cond_matches(c, x) == loader_rule_holds(parts@, |y: Resource| cond_matches(*external_ok, y), x),
{
    let ghost p = parts@;
    let n = parts.len();
    let mut w = parts;
    let not_virtual = RuleCondition::not(RuleCondition::ResourceIsVirtualSource);
    let external = external_ok.duplicate();
    let ghost nv = not_virtual;
    let ghost ex = external;
    w.push(not_virtual);
    w.push(external);
    let ghost wv = w;
    assert(wv@ == p.push(nv).push(ex));
    assert forall|x: Resource| #[trigger] cond_matches(nv, x) == !x.is_virtual by {
        assert(cond_matches(RuleCondition::ResourceIsVirtualSource, x) == x.is_virtual);
    }
    let c = RuleCondition::All(w);
    assert forall|x: Resource|
        #[trigger] cond_matches(c, x) == loader_rule_holds(p, |y: Resource| cond_matches(*external_ok, y), x) by {
        if loader_rule_holds(p, |y: Resource| cond_matches(*external_ok, y), x) {
            assert forall|j: int| 0 <= j < wv.len() implies cond_matches(#[trigger] wv[j], x) by {
                if j < n {
                    assert(wv[j] == p[j]);
                } else if j == n {
                    assert(wv[j] == nv);
                } else {
                    assert(wv[j] == ex);
                    assert(cond_matches(ex, x) == cond_matches(*external_ok, x));
                }
            }
            lemma_all_intro(wv, x);
        }
        if cond_matches(c, x) {
            assert forall|j: int| 0 <= j < p.len() implies cond_matches(#[trigger] p[j], x) by {
                lemma_all_elem(wv, x, j);
                assert(wv[j] == p[j]);
            }
            lemma_all_elem(wv, x, n as int);
            lemma_all_elem(wv, x, n + 1);
            assert(wv[n as int] == nv);
            assert(wv[n + 1] == ex);
            assert(cond_matches(ex, x) == cond_matches(*external_ok, x));
        }
    }
    c
}

/// One rule per user-declared loader chain, in declaration order. Each runs its
/// chain on the resources that its key selects, never on virtual sources, and
/// only where `external_ok` holds.
pub fn webpack_loader_rules(
    options: &WebpackLoadersOptions,
    execution_context: &ExecutionContext,
    path: &Option<String>,
    external_ok: &RuleCondition,
    source_maps: bool,
) -> (r: Result<Vec<ModuleRule>, ConfigError>)
    ensures
        (options.loader_runner_package is None && path is None) ==> r == Err::<Vec<ModuleRule>, _>(
            ConfigError::MissingPath { package: Feature::WebpackLoaders },
        ),
        !(options.loader_runner_package is None && path is None) ==> match r {
            Err(e) => first_key_error(
                options.rules@,
                options.conditions,
                execution_context.project_path,
            ) == Some(e),
            Ok(_) => first_key_error(
                options.rules@,
                options.conditions,
                execution_context.project_path,
            ) is None,
        },
        r matches Ok(v) ==> {
            &&& v.len() == options.rules.len()
            &&& forall|i: int|
                0 <= i < v.len() ==> {
                    &&& (#[trigger] v[i]).match_mode == MatchMode::NonInternal
                    &&& loader_effects_ok(
                        v[i].effects@,
                        options.rules[i],
                        options.loader_runner_package,
                        *path,
                        source_maps,
                    )
                    &&& forall|x: Resource|
                        #[trigger] cond_matches(v[i].condition, x) == loader_rule_holds(
                            key_parts(
                                options.rules[i].key,
                                options.conditions,
                                execution_context.project_path,
                            )->Ok_0,
                            |y: Resource| cond_matches(*external_ok, y),
                            x,
                        )
                }
        },
        r matches Ok(v) ==> forall|i: int, x: Resource|
            0 <= i < v.len() && x.is_virtual ==> !#[trigger] cond_matches(v[i].condition, x),
{
    let alias = match helper_package_alias(
        "loader-runner",
        &options.loader_runner_package,
        path,
        Feature::WebpackLoaders,
    ) {
        Ok(a) => a,
        Err(e) => {
            return Err(e);
        },
    };
    let base = &execution_context.project_path;
    let mut rules: Vec<ModuleRule> = Vec::new();
    let mut i: usize = 0;
    assert(options.rules@.skip(0) =~= options.rules@);
    while i < options.rules.len()
        invariant
            i <= options.rules@.len(),
            rules.len() == i,
            !(options.loader_runner_package is None && path is None),
            base == &execution_context.project_path,
            alias_for(alias, "loader-runner"@, options.loader_runner_package, *path),
            first_key_error(options.rules@, options.conditions, *base) == first_key_error(
                options.rules@.skip(i as int),
                options.conditions,
                *base,
            ),
            forall|j: int|
                0 <= j < i ==> {
                    &&& (#[trigger] rules[j]).match_mode == MatchMode::NonInternal
                    &&& loader_effects_ok(
                        rules[j].effects@,
                        options.rules[j],
                        options.loader_runner_package,
                        *path,
                        source_maps,
                    )
                    &&& forall|x: Resource|
                        #[trigger] cond_matches(rules[j].condition, x) == loader_rule_holds(
                            key_parts(options.rules[j].key, options.conditions, *base)->Ok_0,
                            |y: Resource| cond_matches(*external_ok, y),
                            x,
                        )
                },
            forall|j: int| 0 <= j < i ==> key_parts(options.rules[j].key, options.conditions, *base) is Ok,
        decreases options.rules@.len() - i,
    {
        let rule = &options.rules[i];
        assert(options.rules@.skip(i as int)[0] == options.rules@[i as int]);
        assert(options.rules@.skip(i as int).skip(1) =~= options.rules@.skip(i + 1));
        let parts = match loader_key_conditions(&rule.key, &options.conditions, base) {
            Ok(p) => p,
            Err(e) => {
                return Err(e);
            },
        };
        let condition = loader_condition(parts, external_ok);
        let transform = SourceTransform::WebpackLoaders {
            import_map: PackageAlias {
                request: alias.request.clone(),
                mapping: alias.mapping.clone(),
            },
            loaders: rule.loaders.clone(),
            rename_as: match &rule.rename_as {
                Some(s) => Some(s.clone()),
                None => None,
            },
            source_maps,
        };
        let mut transforms: Vec<Rc<SourceTransform>> = Vec::new();
        transforms.push(Rc::new(transform));
        let mut effects: Vec<ModuleRuleEffect> = Vec::new();
        effects.push(ModuleRuleEffect::SourceTransforms(transforms));
        rules.push(ModuleRule { condition, effects, match_mode: MatchMode::NonInternal });
        i = i + 1;
    }
    assert(first_key_error(options.rules@.skip(i as int), options.conditions, *base) is None);
    assert forall|j: int, x: Resource|
        0 <= j < rules.len() && x.is_virtual implies !#[trigger] cond_matches(rules[j].condition, x) by {
        assert(cond_matches(rules[j].condition, x) == loader_rule_holds(
            key_parts(options.rules[j].key, options.conditions, *base)->Ok_0,
            |y: Resource| cond_matches(*external_ok, y),
            x,
        ));
    }
    Ok(rules)
}

} // verus!
