use vstd::prelude::*;

use std::rc::Rc;

use crate::condition::{cond_matches, ReferenceType, Resource, RuleCondition};
use crate::module_type::{ModuleType, SourceTransform};

verus! {

/// Which reference kinds a rule is evaluated for.
#[derive(PartialEq, Eq, Structural, Clone, Copy, Debug)]
pub enum MatchMode {
    /// Every reference kind.
    All,
    /// Every reference kind but `ReferenceType::Internal`.
    NonInternal,
}

/// One unit of a rule's output.
pub enum ModuleRuleEffect {
    /// Assigns the module type; a later assignment replaces an earlier one.
    ModuleType(ModuleType),
    /// Appends source transforms.
    SourceTransforms(Vec<Rc<SourceTransform>>),
}

/// A condition with the effects that it triggers.
pub struct ModuleRule {
    pub condition: RuleCondition,
    pub effects: Vec<ModuleRuleEffect>,
    pub match_mode: MatchMode,
}

/// The outcome of evaluating a rule table against one resource.
pub struct Resolution {
    pub module_type: Option<ModuleType>,
    pub transforms: Vec<Rc<SourceTransform>>,
}

pub open spec fn mode_admits(mode: MatchMode, rt: ReferenceType) -> bool {
    match mode {
        MatchMode::All => true,
        MatchMode::NonInternal => !(rt is Internal),
    }
}

/// Rule `rule` fires for resource `r`.
pub open spec fn rule_applies(rule: ModuleRule, r: Resource) -> bool {
    mode_admits(rule.match_mode, r.reference_type) && cond_matches(rule.condition, r)
}

/// The module type after applying `effects` in order, starting from `current`.
pub open spec fn effects_module_type(
    effects: Seq<ModuleRuleEffect>,
    current: Option<ModuleType>,
) -> Option<ModuleType>
    decreases effects.len(),
{
    if effects.len() == 0 {
        current
    } else {
        match effects.last() {
            ModuleRuleEffect::ModuleType(t) => Some(t),
            _ => effects_module_type(effects.drop_last(), current),
        }
    }
}

/// The transforms that `effects` append, in order.
pub open spec fn effects_transforms(effects: Seq<ModuleRuleEffect>) -> Seq<Rc<SourceTransform>>
    decreases effects.len(),
{
    if effects.len() == 0 {
        seq![]
    } else {
        effects_transforms(effects.drop_last()) + match effects.last() {
            ModuleRuleEffect::SourceTransforms(ts) => ts@,
            _ => seq![],
        }
    }
}

/// Some effect of the list assigns a module type.
pub open spec fn assigns_module_type(effects: Seq<ModuleRuleEffect>) -> bool {
    exists|i: int| 0 <= i < effects.len() && #[trigger] effects[i] is ModuleType
}

/// The module type that the table `rules` gives resource `r`.
pub open spec fn resolved_module_type(rules: Seq<ModuleRule>, r: Resource) -> Option<ModuleType>
    decreases rules.len(),
{
    if rules.len() == 0 {
        None
    } else {
        let before = resolved_module_type(rules.drop_last(), r);
        if rule_applies(rules.last(), r) {
            effects_module_type(rules.last().effects@, before)
        } else {
            before
        }
    }
}

/// The source transforms that the table `rules` gives resource `r`, in order.
pub open spec fn resolved_transforms(rules: Seq<ModuleRule>, r: Resource) -> Seq<
    Rc<SourceTransform>,
>
    decreases rules.len(),
{
    if rules.len() == 0 {
        seq![]
    } else {
        resolved_transforms(rules.drop_last(), r) + if rule_applies(rules.last(), r) {
            effects_transforms(rules.last().effects@)
        } else {
            seq![]
        }
    }
}

impl MatchMode {
    /// Whether rules of this mode are evaluated for references of kind `rt`.
    pub fn admits(&self, rt: &ReferenceType) -> (r: bool)
        ensures
            r == mode_admits(*self, *rt),
    {
        match self {
            MatchMode::All => true,
            MatchMode::NonInternal => !rt.is_internal(),
        }
    }
}

impl ModuleRule {
    /// A rule evaluated for every reference kind but internal ones.
    pub fn new(condition: RuleCondition, effects: Vec<ModuleRuleEffect>) -> (r: ModuleRule)
        ensures
            r == (ModuleRule { condition, effects, match_mode: MatchMode::NonInternal }),
    {
        ModuleRule { condition, effects, match_mode: MatchMode::NonInternal }
    }

    /// A rule evaluated for every reference kind.
    pub fn new_all(condition: RuleCondition, effects: Vec<ModuleRuleEffect>) -> (r: ModuleRule)
        ensures
            r == (ModuleRule { condition, effects, match_mode: MatchMode::All }),
    {
        ModuleRule { condition, effects, match_mode: MatchMode::All }
    }

    /// Whether this rule fires for `resource`.
    pub fn applies(&self, resource: &Resource) -> (r: bool)
        ensures
            r == rule_applies(*self, *resource),
    {
        self.match_mode.admits(&resource.reference_type) && self.condition.matches(resource)
    }
}

/// Evaluates the rule table `rules` against `resource`: every rule that fires
/// applies its effects in order.
pub fn resolve(rules: &Vec<ModuleRule>, resource: &Resource) -> (res: Resolution)
    ensures
        res.module_type == resolved_module_type(rules@, *resource),
        res.transforms@ == resolved_transforms(rules@, *resource),
{
    let mut module_type: Option<ModuleType> = None;
    let mut transforms: Vec<Rc<SourceTransform>> = Vec::new();
    let mut i: usize = 0;
    while i < rules.len()
        invariant
            i <= rules.len(),
            module_type == resolved_module_type(rules@.subrange(0, i as int), *resource),
            transforms@ == resolved_transforms(rules@.subrange(0, i as int), *resource),
        decreases rules.len() - i,
    {
        let rule = &rules[i];
        let ghost prefix = rules@.subrange(0, i + 1);
        assert(prefix.drop_last() =~= rules@.subrange(0, i as int));
        assert(prefix.last() == *rule);
        if rule.applies(resource) {
            let ghost before_t = transforms@;
            let ghost before_m = module_type;
            let mut k: usize = 0;
            while k < rule.effects.len()
                invariant
                    k <= rule.effects.len(),
                    module_type == effects_module_type(
                        rule.effects@.subrange(0, k as int),
                        before_m,
                    ),
                    transforms@ == before_t + effects_transforms(
                        rule.effects@.subrange(0, k as int),
                    ),
                decreases rule.effects.len() - k,
            {
                let ghost effs = rule.effects@.subrange(0, k + 1);
                assert(effs.drop_last() =~= rule.effects@.subrange(0, k as int));
                match &rule.effects[k] {
                    ModuleRuleEffect::ModuleType(t) => {
                        module_type = Some(t.duplicate());
                        assert(transforms@ =~= before_t + effects_transforms(effs));
                    },
                    ModuleRuleEffect::SourceTransforms(ts) => {
                        let ghost mid = transforms@;
                        let mut j: usize = 0;
                        while j < ts.len()
                            invariant
                                j <= ts.len(),
                                transforms@ == mid + ts@.subrange(0, j as int),
                            decreases ts.len() - j,
                        {
                            transforms.push(ts[j].clone());
                            j = j + 1;
                            assert(transforms@ =~= mid + ts@.subrange(0, j as int));
                        }
                        assert(ts@.subrange(0, j as int) =~= ts@);
                        assert(transforms@ =~= before_t + effects_transforms(effs));
                    },
                }
                k = k + 1;
            }
            assert(rule.effects@.subrange(0, k as int) =~= rule.effects@);
        } else {
            assert(transforms@ =~= resolved_transforms(prefix, *resource));
        }
        i = i + 1;
    }
    assert(rules@.subrange(0, i as int) =~= rules@);
    Resolution { module_type, transforms }
}

/// Once a list of effects assigns a module type, what came before it no longer
/// matters.
pub proof fn lemma_assignment_forgets_current(
    effects: Seq<ModuleRuleEffect>,
    c1: Option<ModuleType>,
    c2: Option<ModuleType>,
)
    requires
        assigns_module_type(effects),
    ensures
        effects_module_type(effects, c1) == effects_module_type(effects, c2),
    decreases effects.len(),
{
    if !(effects.last() is ModuleType) {
        let i = choose|i: int| 0 <= i < effects.len() && #[trigger] effects[i] is ModuleType;
        assert(effects.drop_last()[i] == effects[i]);
        lemma_assignment_forgets_current(effects.drop_last(), c1, c2);
    }
}

/// Effects with no module type assignment leave the module type as it was.
pub proof fn lemma_no_assignment_keeps(effects: Seq<ModuleRuleEffect>, current: Option<ModuleType>)
    requires
        !assigns_module_type(effects),
    ensures
        effects_module_type(effects, current) == current,
    decreases effects.len(),
{
    if effects.len() > 0 {
        assert(!(effects[effects.len() - 1] is ModuleType));
        assert forall|i: int| 0 <= i < effects.drop_last().len() implies !(
        #[trigger] effects.drop_last()[i] is ModuleType) by {
            assert(effects.drop_last()[i] == effects[i]);
        }
        lemma_no_assignment_keeps(effects.drop_last(), current);
    }
}

/// When rule `k` fires and assigns `t`, and no later rule that fires assigns a
/// module type, the table resolves to `t`.
pub proof fn lemma_last_assignment_wins(rules: Seq<ModuleRule>, r: Resource, k: int, t: ModuleType)
    requires
        0 <= k < rules.len(),
        rule_applies(rules[k], r),
        rules[k].effects@ == seq![ModuleRuleEffect::ModuleType(t)],
        forall|j: int|
            k < j < rules.len() && rule_applies(#[trigger] rules[j], r) ==> !assigns_module_type(
                rules[j].effects@,
            ),
    ensures
        resolved_module_type(rules, r) == Some(t),
    decreases rules.len(),
{
    let last = rules.len() - 1;
    assert(rules.drop_last().len() == last);
    if k < last {
        assert forall|j: int|
            k < j < rules.drop_last().len() && rule_applies(
                #[trigger] rules.drop_last()[j],
                r,
            ) implies !assigns_module_type(rules.drop_last()[j].effects@) by {
            assert(rules.drop_last()[j] == rules[j]);
        }
        assert(rules.drop_last()[k] == rules[k]);
        lemma_last_assignment_wins(rules.drop_last(), r, k, t);
        if rule_applies(rules.last(), r) {
            lemma_no_assignment_keeps(rules.last().effects@, resolved_module_type(rules.drop_last(), r));
        }
    } else {
        let e = rules.last().effects@;
        assert(e.last() == ModuleRuleEffect::ModuleType(t));
    }
}

/// Resolution is deterministic: the same table evaluated against the same
/// resource gives the same module type and the same transforms.
pub proof fn law_resolution_deterministic(
    t1: Seq<ModuleRule>,
    t2: Seq<ModuleRule>,
    r1: Resource,
    r2: Resource,
)
    requires
        t1 == t2,
        r1 == r2,
    ensures
        resolved_module_type(t1, r1) == resolved_module_type(t2, r2),
        resolved_transforms(t1, r1) == resolved_transforms(t2, r2),
{
}

/// When rule `a` precedes rule `b`, both fire and both assign a module type,
/// and `b` ends the table, the resolved module type is `b`'s assignment.
pub proof fn law_later_assignment_wins(
    before: Seq<ModuleRule>,
    a: ModuleRule,
    between: Seq<ModuleRule>,
    b: ModuleRule,
    r: Resource,
)
    requires
        rule_applies(a, r),
        rule_applies(b, r),
        assigns_module_type(a.effects@),
        assigns_module_type(b.effects@),
    ensures
        resolved_module_type(before.push(a) + between.push(b), r) == effects_module_type(
            b.effects@,
            None,
        ),
{
    let t = before.push(a) + between.push(b);
    assert(t.last() == b);
    lemma_assignment_forgets_current(
        b.effects@,
        resolved_module_type(t.drop_last(), r),
        None,
    );
}

/// The transforms of two tables placed one after the other are the transforms
/// of the first followed by those of the second.
pub proof fn law_transforms_concatenate(t1: Seq<ModuleRule>, t2: Seq<ModuleRule>, r: Resource)
    ensures
        resolved_transforms(t1 + t2, r) == resolved_transforms(t1, r) + resolved_transforms(t2, r),
    decreases t2.len(),
{
    if t2.len() == 0 {
        assert(t1 + t2 =~= t1);
        assert(resolved_transforms(t1, r) + resolved_transforms(t2, r) =~= resolved_transforms(
            t1,
            r,
        ));
    } else {
        assert((t1 + t2).drop_last() =~= t1 + t2.drop_last());
        assert((t1 + t2).last() == t2.last());
        law_transforms_concatenate(t1, t2.drop_last(), r);
        let tail = if rule_applies(t2.last(), r) {
            effects_transforms(t2.last().effects@)
        } else {
            seq![]
        };
        assert(resolved_transforms(t1, r) + resolved_transforms(t2.drop_last(), r) + tail
            =~= resolved_transforms(t1, r) + (resolved_transforms(t2.drop_last(), r) + tail));
    }
}

/// When rules `a` and `b` both fire, in that order, the transforms are `a`'s
/// followed by `b`'s, neither reordered nor deduplicated.
pub proof fn law_transforms_in_table_order(a: ModuleRule, b: ModuleRule, r: Resource)
    requires
        rule_applies(a, r),
        rule_applies(b, r),
    ensures
        resolved_transforms(seq![a, b], r) == effects_transforms(a.effects@) + effects_transforms(
            b.effects@,
        ),
{
    let t = seq![a, b];
    assert(t.drop_last() =~= seq![a]);
    assert(seq![a].drop_last() =~= Seq::<ModuleRule>::empty());
    assert(seq![a].last() == a);
    assert(t.last() == b);
    assert(resolved_transforms(Seq::<ModuleRule>::empty(), r) =~= seq![]);
    assert(resolved_transforms(seq![a], r) =~= effects_transforms(a.effects@));
    assert(resolved_transforms(t, r) == resolved_transforms(seq![a], r) + effects_transforms(
        b.effects@,
    ));
}

} // verus!
