use vstd::prelude::*;

use crate::chains::TransformChains;
use crate::condition::{
    cond_matches, lemma_any_intro, lemma_any_witness, lemma_all_elem, lemma_all_intro, ReferenceType,
    Resource, RuleCondition, UrlReferenceSubType,
};
use crate::module_type::{EcmascriptOptions, ModuleType, SpecifiedModuleType, WebAssemblySourceType};
use crate::rule::{MatchMode, ModuleRule, ModuleRuleEffect};
use crate::text::{basename, ends_with, has_char, starts_with};

verus! {

/// `rule` is evaluated in `mode`, holds exactly of the resources that `when`
/// accepts, and has effects that `effects_ok` accepts.
pub open spec fn rule_is(
    rule: ModuleRule,
    mode: MatchMode,
    when: spec_fn(Resource) -> bool,
    effects_ok: spec_fn(Seq<ModuleRuleEffect>) -> bool,
) -> bool {
    &&& rule.match_mode == mode
    &&& effects_ok(rule.effects@)
    &&& forall|r: Resource| #[trigger] cond_matches(rule.condition, r) == when(r)
}

/// The effects are exactly the assignment of `t`.
pub open spec fn assigns(t: ModuleType) -> spec_fn(Seq<ModuleRuleEffect>) -> bool {
    |e: Seq<ModuleRuleEffect>| e == seq![ModuleRuleEffect::ModuleType(t)]
}

/// The path of `r` ends with one of `suffixes`.
pub open spec fn path_ends_with_one_of(r: Resource, suffixes: Seq<&str>) -> bool {
    exists|i: int| 0 <= i < suffixes.len() && ends_with(r.path@, #[trigger] suffixes[i]@)
}

/// The content type of `r` starts with `prefix`.
pub open spec fn content_type_starts(r: Resource, prefix: Seq<char>) -> bool {
    match r.content_type {
        Some(ct) => starts_with(ct@, prefix),
        None => false,
    }
}

/// `o` with its module kind set to `kind`.
pub open spec fn with_kind(o: EcmascriptOptions, kind: SpecifiedModuleType) -> EcmascriptOptions {
    EcmascriptOptions { specified_module_type: kind, ..o }
}

pub open spec fn ecmascript_type(
    c: TransformChains,
    o: EcmascriptOptions,
) -> ModuleType {
    ModuleType::Ecmascript {
        preprocess: c.ecma_preprocess,
        main: c.main,
        postprocess: c.postprocess,
        options: o,
    }
}

pub open spec fn typescript_type(
    c: TransformChains,
    o: EcmascriptOptions,
    tsx: bool,
    analyze_types: bool,
) -> ModuleType {
    ModuleType::Typescript {
        preprocess: c.ts_preprocess,
        main: c.main,
        postprocess: c.postprocess,
        tsx,
        analyze_types,
        options: o,
    }
}

/// A condition that holds when the path ends with one of `suffixes` or the
/// content type starts with one of `prefixes`.
pub fn suffix_or_type(suffixes: &[&str], prefixes: &[&str]) -> (c: RuleCondition)
    ensures
        forall|r: Resource|
            #[trigger] cond_matches(c, r) == (path_ends_with_one_of(r, suffixes@) || exists|i: int|
                0 <= i < prefixes@.len() && content_type_starts(r, #[trigger] prefixes@[i]@)),
{
    let mut v: Vec<RuleCondition> = Vec::new();
    let mut i: usize = 0;
    while i < suffixes.len()
        invariant
            i <= suffixes@.len(),
            v@.len() == i,
            forall|j: int|
                0 <= j < i ==> #[trigger] v@[j] == RuleCondition::ResourcePathEndsWith(
                    v@[j]->ResourcePathEndsWith_0,
                ) && v@[j]->ResourcePathEndsWith_0@ == suffixes@[j]@,
        decreases suffixes@.len() - i,
    {
        v.push(RuleCondition::ResourcePathEndsWith(String::from_str(suffixes[i])));
        i = i + 1;
    }
    let n = suffixes.len();
    let mut k: usize = 0;
    while k < prefixes.len()
        invariant
            n == suffixes@.len(),
            k <= prefixes@.len(),
            v@.len() == n + k,
            forall|j: int|
                0 <= j < n ==> #[trigger] v@[j] == RuleCondition::ResourcePathEndsWith(
                    v@[j]->ResourcePathEndsWith_0,
                ) && v@[j]->ResourcePathEndsWith_0@ == suffixes@[j]@,
            forall|j: int|
                n <= j < n + k ==> #[trigger] v@[j] == RuleCondition::ContentTypeStartsWith(
                    v@[j]->ContentTypeStartsWith_0,
                ) && v@[j]->ContentTypeStartsWith_0@ == prefixes@[j - n]@,
        decreases prefixes@.len() - k,
    {
        v.push(RuleCondition::ContentTypeStartsWith(String::from_str(prefixes[k])));
        k = k + 1;
    }
    let ghost w = v;
    let c = RuleCondition::Any(v);
    assert forall|r: Resource|
        #[trigger] cond_matches(c, r) == (path_ends_with_one_of(r, suffixes@) || exists|i: int|
            0 <= i < prefixes@.len() && content_type_starts(r, #[trigger] prefixes@[i]@)) by {
        if cond_matches(c, r) {
            let j = lemma_any_witness(w, r);
            if j < n {
                assert(ends_with(r.path@, suffixes@[j]@));
            } else {
                assert(content_type_starts(r, prefixes@[j - n]@));
            }
        }
        if path_ends_with_one_of(r, suffixes@) {
            let j = choose|j: int| 0 <= j < suffixes@.len() && ends_with(r.path@, #[trigger] suffixes@[j]@);
            assert(cond_matches(w@[j], r));
            lemma_any_intro(w, r, j);
        }
        if exists|i: int| 0 <= i < prefixes@.len() && content_type_starts(r, #[trigger] prefixes@[i]@) {
            let j = choose|j: int| 0 <= j < prefixes@.len() && content_type_starts(r, #[trigger] prefixes@[j]@);
            assert(cond_matches(w@[n + j], r));
            lemma_any_intro(w, r, n + j);
        }
    }
    c
}

/// The path ends with one of `suffixes`, or the content type starts with one
/// of `prefixes`.
pub open spec fn suffix_or_type_holds(r: Resource, suffixes: Seq<&str>, prefixes: Seq<&str>) -> bool {
    path_ends_with_one_of(r, suffixes) || exists|i: int|
        0 <= i < prefixes.len() && content_type_starts(r, #[trigger] prefixes[i]@)
}

/// What a rule that assigns a module type is: its mode, the resources that it
/// holds of, and the type.
pub type TypeRuleModel = (MatchMode, spec_fn(Resource) -> bool, ModuleType);

/// `rules` are, one for one, the rules that `models` describe.
pub open spec fn type_rules_are(rules: Seq<ModuleRule>, models: Seq<TypeRuleModel>) -> bool {
    &&& rules.len() == models.len()
    &&& forall|i: int|
        0 <= i < rules.len() ==> rule_is(
            #[trigger] rules[i],
            models[i].0,
            models[i].1,
            assigns(models[i].2),
        )
}

/// The built-in rules that give each file extension its module type, in table
/// order; later rules override earlier ones (`.d.ts` after `.ts`).
pub open spec fn builtin_models(
    c: TransformChains,
    o: EcmascriptOptions,
    enable_types: bool,
) -> Seq<TypeRuleModel> {
    let esm = with_kind(o, SpecifiedModuleType::EcmaScript);
    let cjs = with_kind(o, SpecifiedModuleType::CommonJs);
    seq![
        (
            MatchMode::All,
            |r: Resource| suffix_or_type_holds(r, seq![".json"], seq!["application/json"]),
            ModuleType::Json,
        ),
        (
            MatchMode::All,
            |r: Resource|
                suffix_or_type_holds(
                    r,
                    seq![".js", ".jsx"],
                    seq!["application/javascript", "text/javascript"],
                ),
            ecmascript_type(c, o),
        ),
        (
            MatchMode::All,
            |r: Resource| suffix_or_type_holds(r, seq![".mjs"], seq![]),
            ecmascript_type(c, esm),
        ),
        (
            MatchMode::All,
            |r: Resource| suffix_or_type_holds(r, seq![".cjs"], seq![]),
            ecmascript_type(c, cjs),
        ),
        (
            MatchMode::All,
            |r: Resource| suffix_or_type_holds(r, seq![".ts"], seq![]),
            typescript_type(c, o, false, enable_types),
        ),
        (
            MatchMode::All,
            |r: Resource| suffix_or_type_holds(r, seq![".tsx"], seq![]),
            typescript_type(c, o, true, enable_types),
        ),
        (
            MatchMode::All,
            |r: Resource| suffix_or_type_holds(r, seq![".mts"], seq![]),
            typescript_type(c, esm, false, enable_types),
        ),
        (
            MatchMode::All,
            |r: Resource| suffix_or_type_holds(r, seq![".mtsx"], seq![]),
            typescript_type(c, esm, true, enable_types),
        ),
        (
            MatchMode::All,
            |r: Resource| suffix_or_type_holds(r, seq![".cts"], seq![]),
            typescript_type(c, cjs, false, enable_types),
        ),
        (
            MatchMode::All,
            |r: Resource| suffix_or_type_holds(r, seq![".ctsx"], seq![]),
            typescript_type(c, cjs, true, enable_types),
        ),
        (
            MatchMode::NonInternal,
            |r: Resource| suffix_or_type_holds(r, seq![".d.ts"], seq![]),
            ModuleType::TypescriptDeclaration {
                preprocess: c.empty,
                main: c.empty,
                postprocess: c.empty,
                options: o,
            },
        ),
        (
            MatchMode::NonInternal,
            |r: Resource| suffix_or_type_holds(r, seq![".node"], seq![]),
            ModuleType::Raw,
        ),
        (
            MatchMode::NonInternal,
            |r: Resource| suffix_or_type_holds(r, seq![".wasm"], seq!["application/wasm"]),
            ModuleType::WebAssembly { source_ty: WebAssemblySourceType::Binary },
        ),
        (
            MatchMode::NonInternal,
            |r: Resource| suffix_or_type_holds(r, seq![".wat"], seq![]),
            ModuleType::WebAssembly { source_ty: WebAssemblySourceType::Text },
        ),
        (
            MatchMode::NonInternal,
            |r: Resource| !has_char(basename(r.path@), '.') && r.content_type is None,
            ModuleType::Ecmascript {
                preprocess: c.empty,
                main: c.empty,
                postprocess: c.empty,
                options: o,
            },
        ),
        (
            MatchMode::NonInternal,
            |r: Resource|
                suffix_or_type_holds(
                    r,
                    seq![
                        ".apng",
                        ".avif",
                        ".gif",
                        ".ico",
                        ".jpg",
                        ".jpeg",
                        ".png",
                        ".svg",
                        ".webp",
                        ".woff2",
                    ],
                    seq![],
                ),
            ModuleType::StaticUrlJs,
        ),
        (MatchMode::NonInternal, |r: Resource| r.reference_type is Url, ModuleType::StaticUrlJs),
        (
            MatchMode::NonInternal,
            |r: Resource| r.reference_type == ReferenceType::Url(UrlReferenceSubType::CssUrl),
            ModuleType::StaticUrlCss,
        ),
    ]
}

/// A rule with the single effect of assigning `t`.
fn type_rule(mode: MatchMode, condition: RuleCondition, t: ModuleType) -> (r: ModuleRule)
    ensures
        r.match_mode == mode,
        r.condition == condition,
        r.effects@ == seq![ModuleRuleEffect::ModuleType(t)],
{
    ModuleRule { condition, effects: vec![ModuleRuleEffect::ModuleType(t)], match_mode: mode }
}

/// A rule that holds of the paths that end with one of `suffixes` or whose
/// content type starts with one of `prefixes`.
fn suffix_rule(mode: MatchMode, suffixes: &[&str], prefixes: &[&str], t: ModuleType) -> (r:
    ModuleRule)
    ensures
        r.match_mode == mode,
        r.effects@ == seq![ModuleRuleEffect::ModuleType(t)],
        forall|x: Resource|
            #[trigger] cond_matches(r.condition, x) == suffix_or_type_holds(x, suffixes@, prefixes@),
{
    type_rule(mode, suffix_or_type(suffixes, prefixes), t)
}

/// The built-in rules for script, data, WebAssembly and static asset files.
pub fn builtin_rules(c: &TransformChains, o: EcmascriptOptions, enable_types: bool) -> (rules: Vec<
    ModuleRule,
>)
    ensures
        type_rules_are(rules@, builtin_models(*c, o, enable_types)),
{
    let esm = EcmascriptOptions { specified_module_type: SpecifiedModuleType::EcmaScript, ..o };
    let cjs = EcmascriptOptions { specified_module_type: SpecifiedModuleType::CommonJs, ..o };
    let none: [&str; 0] = [];
    assert(none@ =~= seq![]);
    let ecma = |opts: EcmascriptOptions| -> (t: ModuleType)
        ensures
            t == ecmascript_type(*c, opts),
        {
            ModuleType::Ecmascript {
                preprocess: c.ecma_preprocess.clone(),
                main: c.main.clone(),
                postprocess: c.postprocess.clone(),
                options: opts,
            }
        };
    let ts = |opts: EcmascriptOptions, tsx: bool| -> (t: ModuleType)
        ensures
            t == typescript_type(*c, opts, tsx, enable_types),
        {
            ModuleType::Typescript {
                preprocess: c.ts_preprocess.clone(),
                main: c.main.clone(),
                postprocess: c.postprocess.clone(),
                tsx,
                analyze_types: enable_types,
                options: opts,
            }
        };
    let json_s: [&str; 1] = [".json"];
    let json_p: [&str; 1] = ["application/json"];
    let js_s: [&str; 2] = [".js", ".jsx"];
    let js_p: [&str; 2] = ["application/javascript", "text/javascript"];
    let mjs: [&str; 1] = [".mjs"];
    let cjs_s: [&str; 1] = [".cjs"];
    let ts_s: [&str; 1] = [".ts"];
    let tsx_s: [&str; 1] = [".tsx"];
    let mts: [&str; 1] = [".mts"];
    let mtsx: [&str; 1] = [".mtsx"];
    let cts: [&str; 1] = [".cts"];
    let ctsx: [&str; 1] = [".ctsx"];
    let dts: [&str; 1] = [".d.ts"];
    let node: [&str; 1] = [".node"];
    let wasm_s: [&str; 1] = [".wasm"];
    let wasm_p: [&str; 1] = ["application/wasm"];
    let wat: [&str; 1] = [".wat"];
    let assets: [&str; 10] = [
        ".apng",
        ".avif",
        ".gif",
        ".ico",
        ".jpg",
        ".jpeg",
        ".png",
        ".svg",
        ".webp",
        ".woff2",
    ];
    assert(json_s@ == seq![".json"]);
    assert(json_p@ == seq!["application/json"]);
    assert(js_s@ == seq![".js", ".jsx"]);
    assert(js_p@ == seq!["application/javascript", "text/javascript"]);
    assert(mjs@ == seq![".mjs"]);
    assert(cjs_s@ == seq![".cjs"]);
    assert(ts_s@ == seq![".ts"]);
    assert(tsx_s@ == seq![".tsx"]);
    assert(mts@ == seq![".mts"]);
    assert(mtsx@ == seq![".mtsx"]);
    assert(cts@ == seq![".cts"]);
    assert(ctsx@ == seq![".ctsx"]);
    assert(dts@ == seq![".d.ts"]);
    assert(node@ == seq![".node"]);
    assert(wasm_s@ == seq![".wasm"]);
    assert(wasm_p@ == seq!["application/wasm"]);
    assert(wat@ == seq![".wat"]);
    assert(assets@ == seq![
        ".apng",
        ".avif",
        ".gif",
        ".ico",
        ".jpg",
        ".jpeg",
        ".png",
        ".svg",
        ".webp",
        ".woff2",
    ]);

    let mut rules: Vec<ModuleRule> = Vec::new();
    rules.push(suffix_rule(MatchMode::All, &json_s, &json_p, ModuleType::Json));
    rules.push(suffix_rule(MatchMode::All, &js_s, &js_p, ecma(o)));
    rules.push(suffix_rule(MatchMode::All, &mjs, &none, ecma(esm)));
    rules.push(suffix_rule(MatchMode::All, &cjs_s, &none, ecma(cjs)));
    rules.push(suffix_rule(MatchMode::All, &ts_s, &none, ts(o, false)));
    rules.push(suffix_rule(MatchMode::All, &tsx_s, &none, ts(o, true)));
    rules.push(suffix_rule(MatchMode::All, &mts, &none, ts(esm, false)));
    rules.push(suffix_rule(MatchMode::All, &mtsx, &none, ts(esm, true)));
    rules.push(suffix_rule(MatchMode::All, &cts, &none, ts(cjs, false)));
    rules.push(suffix_rule(MatchMode::All, &ctsx, &none, ts(cjs, true)));
    rules.push(
        suffix_rule(
            MatchMode::NonInternal,
            &dts,
            &none,
            ModuleType::TypescriptDeclaration {
                preprocess: c.empty.clone(),
                main: c.empty.clone(),
                postprocess: c.empty.clone(),
                options: o,
            },
        ),
    );
    rules.push(suffix_rule(MatchMode::NonInternal, &node, &none, ModuleType::Raw));
    rules.push(
        suffix_rule(
            MatchMode::NonInternal,
            &wasm_s,
            &wasm_p,
            ModuleType::WebAssembly { source_ty: WebAssemblySourceType::Binary },
        ),
    );
    rules.push(
        suffix_rule(
            MatchMode::NonInternal,
            &wat,
            &none,
            ModuleType::WebAssembly { source_ty: WebAssemblySourceType::Text },
        ),
    );
    let no_ext = RuleCondition::all(
        vec![RuleCondition::ResourcePathHasNoExtension, RuleCondition::ContentTypeEmpty],
    );
    proof {
        let w = no_ext->All_0;
        assert forall|r: Resource|
            #[trigger] cond_matches(no_ext, r) == (!has_char(basename(r.path@), '.')
                && r.content_type is None) by {
            if !has_char(basename(r.path@), '.') && r.content_type is None {
                assert(cond_matches(w@[0], r));
                assert(cond_matches(w@[1], r));
                lemma_all_intro(w, r);
            }
            if cond_matches(no_ext, r) {
                lemma_all_elem(w, r, 0);
                lemma_all_elem(w, r, 1);
            }
        }
    }
    rules.push(
        type_rule(
            MatchMode::NonInternal,
            no_ext,
            ModuleType::Ecmascript {
                preprocess: c.empty.clone(),
                main: c.empty.clone(),
                postprocess: c.empty.clone(),
                options: o,
            },
        ),
    );
    rules.push(suffix_rule(MatchMode::NonInternal, &assets, &none, ModuleType::StaticUrlJs));
    rules.push(
        type_rule(
            MatchMode::NonInternal,
            RuleCondition::ReferenceType(ReferenceType::Url(UrlReferenceSubType::Undefined)),
            ModuleType::StaticUrlJs,
        ),
    );
    rules.push(
        type_rule(
            MatchMode::NonInternal,
            RuleCondition::ReferenceType(ReferenceType::Url(UrlReferenceSubType::CssUrl)),
            ModuleType::StaticUrlCss,
        ),
    );
    assert(rules@.len() == 18);
    rules
}

} // verus!
