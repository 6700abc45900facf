use vstd::prelude::*;

use std::rc::Rc;

use crate::context::{DecoratorsKind, EcmascriptOptionsContext};
use crate::module_type::{EcmascriptInputTransform, Environment, TransformChain};

verus! {

/// The transform lists shared by the script module types.
pub struct TransformChains {
    /// Before parsing TypeScript: decorators, then type stripping.
    pub ts_preprocess: TransformChain,
    /// Before parsing JavaScript: decorators.
    pub ecma_preprocess: TransformChain,
    pub main: TransformChain,
    /// After parsing: JSX, then preset-env, then `typeof window` inlining.
    pub postprocess: TransformChain,
    pub empty: TransformChain,
}

pub open spec fn react_spec(ecma: EcmascriptOptionsContext) -> Seq<EcmascriptInputTransform> {
    match ecma.enable_jsx {
        Some(jsx) => seq![
            EcmascriptInputTransform::React {
                development: jsx.development,
                refresh: jsx.react_refresh,
                import_source: jsx.import_source,
                runtime: jsx.runtime,
            },
        ],
        None => seq![],
    }
}

pub open spec fn preset_env_spec(environment: Option<Rc<Environment>>) -> Seq<
    EcmascriptInputTransform,
> {
    match environment {
        Some(e) => seq![EcmascriptInputTransform::PresetEnv(e)],
        None => seq![],
    }
}

pub open spec fn typeof_spec(ecma: EcmascriptOptionsContext) -> Seq<EcmascriptInputTransform> {
    match ecma.enable_typeof_window_inlining {
        Some(w) => seq![EcmascriptInputTransform::GlobalTypeofs { window_value: w }],
        None => seq![],
    }
}

/// JSX, then preset-env, then `typeof window` inlining, each when enabled.
pub open spec fn postprocess_spec(
    ecma: EcmascriptOptionsContext,
    environment: Option<Rc<Environment>>,
) -> Seq<EcmascriptInputTransform> {
    react_spec(ecma) + preset_env_spec(environment) + typeof_spec(ecma)
}

pub open spec fn typescript_spec(ecma: EcmascriptOptionsContext) -> Option<
    EcmascriptInputTransform,
> {
    match ecma.enable_typescript_transform {
        Some(o) => Some(
            EcmascriptInputTransform::TypeScript {
                use_define_for_class_fields: o.use_define_for_class_fields,
            },
        ),
        None => None,
    }
}

pub open spec fn decorators_spec(ecma: EcmascriptOptionsContext) -> Option<
    EcmascriptInputTransform,
> {
    match ecma.enable_decorators {
        Some(o) => match o.decorators_kind {
            Some(kind) => Some(
                EcmascriptInputTransform::Decorators {
                    is_legacy: kind == DecoratorsKind::Legacy,
                    is_ecma: kind == DecoratorsKind::Ecma,
                    emit_decorators_metadata: o.emit_decorators_metadata,
                    use_define_for_class_fields: o.use_define_for_class_fields,
                },
            ),
            None => None,
        },
        None => None,
    }
}

/// Decorators, then type stripping; nothing without type stripping.
pub open spec fn ts_preprocess_spec(ecma: EcmascriptOptionsContext) -> Seq<
    EcmascriptInputTransform,
> {
    match (decorators_spec(ecma), typescript_spec(ecma)) {
        (Some(d), Some(t)) => seq![d, t],
        (None, Some(t)) => seq![t],
        _ => seq![],
    }
}

/// Decorators, when enabled.
pub open spec fn ecma_preprocess_spec(ecma: EcmascriptOptionsContext) -> Seq<
    EcmascriptInputTransform,
> {
    match decorators_spec(ecma) {
        Some(d) => seq![d],
        None => seq![],
    }
}

/// The chains hold what the toggles of `ecma` and `environment` ask for.
pub open spec fn chains_built_from(
    c: TransformChains,
    ecma: EcmascriptOptionsContext,
    environment: Option<Rc<Environment>>,
) -> bool {
    &&& c.ts_preprocess@ == ts_preprocess_spec(ecma)
    &&& c.ecma_preprocess@ == ecma_preprocess_spec(ecma)
    &&& c.main@ == Seq::<EcmascriptInputTransform>::empty()
    &&& c.postprocess@ == postprocess_spec(ecma, environment)
    &&& c.empty@ == Seq::<EcmascriptInputTransform>::empty()
}

fn copy_text(s: &Option<String>) -> (r: Option<String>)
    ensures
        r == *s,
{
    match s {
        Some(t) => Some(t.clone()),
        None => None,
    }
}

/// Builds the shared transform lists from the script toggles.
pub fn build_transform_chains(
    ecma: &EcmascriptOptionsContext,
    environment: &Option<Rc<Environment>>,
) -> (c: TransformChains)
    ensures
        chains_built_from(c, *ecma, *environment),
{
    let mut postprocess: Vec<EcmascriptInputTransform> = Vec::new();
    if let Some(jsx) = &ecma.enable_jsx {
        postprocess.push(
            EcmascriptInputTransform::React {
                development: jsx.development,
                refresh: jsx.react_refresh,
                import_source: copy_text(&jsx.import_source),
                runtime: copy_text(&jsx.runtime),
            },
        );
    }
    assert(postprocess@ == react_spec(*ecma));
    if let Some(e) = environment {
        postprocess.push(EcmascriptInputTransform::PresetEnv(e.clone()));
    }
    assert(postprocess@ =~= react_spec(*ecma) + preset_env_spec(*environment));
    if let Some(w) = ecma.enable_typeof_window_inlining {
        postprocess.push(EcmascriptInputTransform::GlobalTypeofs { window_value: w });
    }
    assert(postprocess@ =~= postprocess_spec(*ecma, *environment));

    let ts_transform = match &ecma.enable_typescript_transform {
        Some(o) => Some(
            EcmascriptInputTransform::TypeScript {
                use_define_for_class_fields: o.use_define_for_class_fields,
            },
        ),
        None => None,
    };
    let decorators_transform = match &ecma.enable_decorators {
        Some(o) => match o.decorators_kind {
            Some(kind) => Some(
                EcmascriptInputTransform::Decorators {
                    is_legacy: kind == DecoratorsKind::Legacy,
                    is_ecma: kind == DecoratorsKind::Ecma,
                    emit_decorators_metadata: o.emit_decorators_metadata,
                    use_define_for_class_fields: o.use_define_for_class_fields,
                },
            ),
            None => None,
        },
        None => None,
    };

    let mut ts_preprocess: Vec<EcmascriptInputTransform> = Vec::new();
    let mut ecma_preprocess: Vec<EcmascriptInputTransform> = Vec::new();
    // Decorators have to be lowered before type stripping drops their syntax.
    if let Some(t) = ts_transform {
        if let Some(d) = &decorators_transform {
            ts_preprocess.push(copy_transform(d));
        }
        ts_preprocess.push(t);
    }
    if let Some(d) = decorators_transform {
        ecma_preprocess.push(d);
    }
    assert(ts_preprocess@ =~= ts_preprocess_spec(*ecma));
    assert(ecma_preprocess@ =~= ecma_preprocess_spec(*ecma));
    TransformChains {
        ts_preprocess: Rc::new(ts_preprocess),
        ecma_preprocess: Rc::new(ecma_preprocess),
        main: Rc::new(Vec::new()),
        postprocess: Rc::new(postprocess),
        empty: Rc::new(Vec::new()),
    }
}

/// An exact copy of a decorators or type-stripping transform.
fn copy_transform(t: &EcmascriptInputTransform) -> (r: EcmascriptInputTransform)
    ensures
        r == *t,
{
    match t {
        EcmascriptInputTransform::React { development, refresh, import_source, runtime } => {
            EcmascriptInputTransform::React {
                development: *development,
                refresh: *refresh,
                import_source: copy_text(import_source),
                runtime: copy_text(runtime),
            }
        },
        EcmascriptInputTransform::PresetEnv(e) => EcmascriptInputTransform::PresetEnv(e.clone()),
        EcmascriptInputTransform::GlobalTypeofs { window_value } => {
            EcmascriptInputTransform::GlobalTypeofs { window_value: *window_value }
        },
        EcmascriptInputTransform::TypeScript { use_define_for_class_fields } => {
            EcmascriptInputTransform::TypeScript {
                use_define_for_class_fields: *use_define_for_class_fields,
            }
        },
        EcmascriptInputTransform::Decorators {
            is_legacy,
            is_ecma,
            emit_decorators_metadata,
            use_define_for_class_fields,
        } => EcmascriptInputTransform::Decorators {
            is_legacy: *is_legacy,
            is_ecma: *is_ecma,
            emit_decorators_metadata: *emit_decorators_metadata,
            use_define_for_class_fields: *use_define_for_class_fields,
        },
    }
}

/// In the TypeScript preprocess chain, a decorators transform always comes
/// before a type-stripping transform.
pub proof fn law_decorators_before_type_stripping(ecma: EcmascriptOptionsContext, i: int, j: int)
    requires
        0 <= i < ts_preprocess_spec(ecma).len(),
        0 <= j < ts_preprocess_spec(ecma).len(),
        ts_preprocess_spec(ecma)[i] is Decorators,
        ts_preprocess_spec(ecma)[j] is TypeScript,
    ensures
        i < j,
{
}

} // verus!
