use vstd::prelude::*;

use crate::glob::{glob_match, glob_matches};
use crate::pattern::{regex_finds, regex_is_match};
use crate::text::{
    basename, ends_with, str_equal, has_char, starts_with, str_basename, str_ends_with, str_has_char,
    str_starts_with,
};

verus! {

broadcast use vstd::std_specs::vec::group_vec_axioms;

/// Sub-kinds of a reference made from CSS.
pub enum CssReferenceSubType {
    /// An `@import`, with the import context when one is known.
    AtImport(Option<String>),
    /// A `composes` reference between CSS modules.
    Compose,
    /// The script facade of a CSS module including the module itself.
    Inner,
    /// The script facade of a CSS module listing the module's class names.
    Analyze,
    Undefined,
}

/// Sub-kinds of a URL reference.
#[derive(PartialEq, Eq, Structural, Clone, Copy, Debug)]
pub enum UrlReferenceSubType {
    EcmaScriptNewUrl,
    CssUrl,
    Undefined,
}

/// Why a resource is being loaded.
pub enum ReferenceType {
    /// A plain import whose kind is not known.
    Undefined,
    EcmaScriptModules,
    CommonJs,
    Css(CssReferenceSubType),
    Url(UrlReferenceSubType),
    /// A reference made by the bundler for its own purposes.
    Internal,
}

/// The identity of a resource that conditions are evaluated against.
pub struct Resource {
    /// Path of the resource, relative to the root of its file system.
    pub path: String,
    /// The negotiated content type, if any.
    pub content_type: Option<String>,
    /// Why the resource is being loaded.
    pub reference_type: ReferenceType,
    /// The resource is synthesized rather than read from a file.
    pub is_virtual: bool,
    /// The text of the resource, when the caller has read it.
    pub content: Option<String>,
}

/// A predicate over a resource.
pub enum RuleCondition {
    All(Vec<RuleCondition>),
    Any(Vec<RuleCondition>),
    Not(Box<RuleCondition>),
    ReferenceType(ReferenceType),
    ResourceIsVirtualSource,
    ResourcePathHasNoExtension,
    ResourcePathEndsWith(String),
    /// A glob over the path relative to the directory `base`.
    ResourcePathGlob { base: String, glob: String },
    /// A glob over the last segment of the path.
    ResourceBasePathGlob(String),
    ResourcePathEsRegex(String),
    ResourceContentEsRegex(String),
    ContentTypeStartsWith(String),
    ContentTypeEmpty,
}

/// The CSS sub-kind `cond` admits `sub`: `Undefined` admits every sub-kind and an
/// `@import` without a context every `@import`.
pub open spec fn css_sub_includes(cond: CssReferenceSubType, sub: CssReferenceSubType) -> bool {
    match cond {
        CssReferenceSubType::Undefined => true,
        CssReferenceSubType::AtImport(None) => sub is AtImport,
        CssReferenceSubType::AtImport(Some(a)) => match sub {
            CssReferenceSubType::AtImport(Some(b)) => a@ == b@,
            _ => false,
        },
        _ => cond == sub,
    }
}

/// The reference kind `cond` admits `rt`; an `Undefined` sub-kind is a wildcard.
pub open spec fn reference_includes(cond: ReferenceType, rt: ReferenceType) -> bool {
    match (cond, rt) {
        (ReferenceType::Css(c), ReferenceType::Css(s)) => css_sub_includes(c, s),
        (ReferenceType::Url(c), ReferenceType::Url(s)) => c == UrlReferenceSubType::Undefined
            || c == s,
        (ReferenceType::Css(_), _) => false,
        (ReferenceType::Url(_), _) => false,
        _ => cond == rt,
    }
}

/// The part of `path` below the directory `base`, when `path` lies below it.
pub open spec fn relative_to(base: Seq<char>, path: Seq<char>) -> Option<Seq<char>> {
    if base.len() == 0 {
        Some(path)
    } else if starts_with(path, base) && path.len() > base.len() && path[base.len() as int]
        == '/' {
        Some(path.skip(base.len() as int + 1))
    } else {
        None
    }
}

/// Whether condition `c` holds of resource `r`.
pub open spec fn cond_matches(c: RuleCondition, r: Resource) -> bool
    decreases c,
{
    match c {
        RuleCondition::All(v) => forall|i: int| 0 <= i < v.len() ==> cond_matches(#[trigger] v[i], r),
        RuleCondition::Any(v) => exists|i: int| 0 <= i < v.len() && cond_matches(#[trigger] v[i], r),
        RuleCondition::Not(b) => !cond_matches(*b, r),
        RuleCondition::ReferenceType(rt) => reference_includes(rt, r.reference_type),
        RuleCondition::ResourceIsVirtualSource => r.is_virtual,
        RuleCondition::ResourcePathHasNoExtension => !has_char(basename(r.path@), '.'),
        RuleCondition::ResourcePathEndsWith(s) => ends_with(r.path@, s@),
        RuleCondition::ResourcePathGlob { base, glob } => match relative_to(base@, r.path@) {
            Some(rel) => glob_matches(glob@, rel),
            None => false,
        },
        RuleCondition::ResourceBasePathGlob(glob) => glob_matches(glob@, basename(r.path@)),
        RuleCondition::ResourcePathEsRegex(re) => regex_finds(re@, r.path@),
        RuleCondition::ResourceContentEsRegex(re) => match r.content {
            Some(text) => regex_finds(re@, text@),
            None => false,
        },
        RuleCondition::ContentTypeStartsWith(s) => match r.content_type {
            Some(ct) => starts_with(ct@, s@),
            None => false,
        },
        RuleCondition::ContentTypeEmpty => r.content_type is None,
    }
}

/// Two conditions hold of the same resources.
pub open spec fn cond_equiv(a: RuleCondition, b: RuleCondition) -> bool {
    forall|r: Resource| #[trigger] cond_matches(a, r) == cond_matches(b, r)
}

impl RuleCondition {
    /// All of `conditions` hold.
    pub fn all(conditions: Vec<RuleCondition>) -> (r: RuleCondition)
        ensures
            r == RuleCondition::All(conditions),
    {
        RuleCondition::All(conditions)
    }

    /// Any of `conditions` holds.
    pub fn any(conditions: Vec<RuleCondition>) -> (r: RuleCondition)
        ensures
            r == RuleCondition::Any(conditions),
    {
        RuleCondition::Any(conditions)
    }

    /// `condition` does not hold.
    pub fn not(condition: RuleCondition) -> (r: RuleCondition)
        ensures
            r == RuleCondition::Not(Box::new(condition)),
    {
        RuleCondition::Not(Box::new(condition))
    }

    /// Whether this condition holds of `resource`.
    pub fn matches(&self, resource: &Resource) -> (r: bool)
        ensures
            r == cond_matches(*self, *resource),
        decreases self,
    {
        match self {
            RuleCondition::All(v) => {
                let mut i: usize = 0;
                while i < v.len()
                    invariant
                        *self == RuleCondition::All(*v),
                        i <= v.len(),
                        forall|j: int| 0 <= j < i ==> cond_matches(#[trigger] v[j], *resource),
                    decreases v.len() - i,
                {
                    proof {
                        vstd::std_specs::vec::axiom_vec_index_decreases(*v, i as int);
                        assert(decreases_to!(*self => self->All_0));
                        assert(decreases_to!(*self => v[i as int]));
                    }
                    if !v[i].matches(resource) {
                        assert(!cond_matches(v[i as int], *resource));
                        assert(!cond_matches(*self, *resource));
                        return false;
                    }
                    i = i + 1;
                }
                true
            },
            RuleCondition::Any(v) => {
                let mut i: usize = 0;
                while i < v.len()
                    invariant
                        *self == RuleCondition::Any(*v),
                        i <= v.len(),
                        forall|j: int| 0 <= j < i ==> !cond_matches(#[trigger] v[j], *resource),
                    decreases v.len() - i,
                {
                    proof {
                        vstd::std_specs::vec::axiom_vec_index_decreases(*v, i as int);
                        assert(decreases_to!(*self => self->Any_0));
                        assert(decreases_to!(*self => v[i as int]));
                    }
                    if v[i].matches(resource) {
                        return true;
                    }
                    i = i + 1;
                }
                false
            },
            RuleCondition::Not(b) => !b.matches(resource),
            RuleCondition::ReferenceType(rt) => reference_type_includes(rt, &resource.reference_type),
            RuleCondition::ResourceIsVirtualSource => resource.is_virtual,
            RuleCondition::ResourcePathHasNoExtension => {
                !str_has_char(str_basename(resource.path.as_str()), '.')
            },
            RuleCondition::ResourcePathEndsWith(s) => str_ends_with(
                resource.path.as_str(),
                s.as_str(),
            ),
            RuleCondition::ResourcePathGlob { base, glob } => {
                match path_relative_to(base.as_str(), resource.path.as_str()) {
                    Some(rel) => glob_match(glob.as_str(), rel),
                    None => false,
                }
            },
            RuleCondition::ResourceBasePathGlob(glob) => glob_match(
                glob.as_str(),
                str_basename(resource.path.as_str()),
            ),
            RuleCondition::ResourcePathEsRegex(re) => regex_is_match(
                re.as_str(),
                resource.path.as_str(),
            ),
            RuleCondition::ResourceContentEsRegex(re) => match &resource.content {
                Some(text) => regex_is_match(re.as_str(), text.as_str()),
                None => false,
            },
            RuleCondition::ContentTypeStartsWith(s) => match &resource.content_type {
                Some(ct) => str_starts_with(ct.as_str(), s.as_str()),
                None => false,
            },
            RuleCondition::ContentTypeEmpty => resource.content_type.is_none(),
        }
    }

    /// A copy of this condition that holds of the same resources.
    pub fn duplicate(&self) -> (r: RuleCondition)
        ensures
            cond_equiv(r, *self),
        decreases self,
    {
        match self {
            RuleCondition::All(v) => {
                let w = duplicate_all(v);
                proof {
                    assert forall|x: Resource| #[trigger]
                        cond_matches(RuleCondition::All(w), x) == cond_matches(*self, x) by {
                        if cond_matches(*self, x) {
                            assert forall|j: int| 0 <= j < w.len() implies cond_matches(
                                #[trigger] w[j],
                                x,
                            ) by {
                                assert(cond_matches(v[j], x));
                            }
                        }
                        if cond_matches(RuleCondition::All(w), x) {
                            assert forall|j: int| 0 <= j < v.len() implies cond_matches(
                                #[trigger] v[j],
                                x,
                            ) by {
                                lemma_all_elem(w, x, j);
                            }
                        }
                    }
                }
                RuleCondition::All(w)
            },
            RuleCondition::Any(v) => {
                let w = duplicate_all(v);
                proof {
                    assert forall|x: Resource| #[trigger]
                        cond_matches(RuleCondition::Any(w), x) == cond_matches(*self, x) by {
                        if cond_matches(*self, x) {
                            let j = lemma_any_witness(*v, x);
                            assert(cond_matches(w[j], x));
                            lemma_any_intro(w, x, j);
                        }
                        if cond_matches(RuleCondition::Any(w), x) {
                            let j = lemma_any_witness(w, x);
                            assert(cond_matches(v[j], x));
                            lemma_any_intro(*v, x, j);
                        }
                    }
                }
                RuleCondition::Any(w)
            },
            RuleCondition::Not(b) => {
                let c = b.duplicate();
                let r = RuleCondition::Not(Box::new(c));
                assert forall|x: Resource| #[trigger] cond_matches(r, x) == cond_matches(*self, x) by {
                    assert(cond_matches(c, x) == cond_matches(**b, x));
                }
                r
            },
            RuleCondition::ReferenceType(rt) => RuleCondition::ReferenceType(rt.duplicate()),
            RuleCondition::ResourceIsVirtualSource => RuleCondition::ResourceIsVirtualSource,
            RuleCondition::ResourcePathHasNoExtension => RuleCondition::ResourcePathHasNoExtension,
            RuleCondition::ResourcePathEndsWith(s) => RuleCondition::ResourcePathEndsWith(s.clone()),
            RuleCondition::ResourcePathGlob { base, glob } => RuleCondition::ResourcePathGlob {
                base: base.clone(),
                glob: glob.clone(),
            },
            RuleCondition::ResourceBasePathGlob(g) => RuleCondition::ResourceBasePathGlob(g.clone()),
            RuleCondition::ResourcePathEsRegex(s) => RuleCondition::ResourcePathEsRegex(s.clone()),
            RuleCondition::ResourceContentEsRegex(s) => RuleCondition::ResourceContentEsRegex(
                s.clone(),
            ),
            RuleCondition::ContentTypeStartsWith(s) => RuleCondition::ContentTypeStartsWith(
                s.clone(),
            ),
            RuleCondition::ContentTypeEmpty => RuleCondition::ContentTypeEmpty,
        }
    }
}

pub proof fn lemma_all_elem(v: Vec<RuleCondition>, r: Resource, j: int)
    requires
        0 <= j < v.len(),
        cond_matches(RuleCondition::All(v), r),
    ensures
        cond_matches(v[j], r),
{
    vstd::std_specs::vec::axiom_vec_index_decreases(v, j);
    let c = RuleCondition::All(v);
    assert(decreases_to!(c => c->All_0));
    assert(decreases_to!(c => v[j]));
}

pub proof fn lemma_all_intro(v: Vec<RuleCondition>, r: Resource)
    requires
        forall|j: int| 0 <= j < v.len() ==> cond_matches(#[trigger] v[j], r),
    ensures
        cond_matches(RuleCondition::All(v), r),
{
    let c = RuleCondition::All(v);
    assert forall|j: int| 0 <= j < v.len() implies cond_matches(#[trigger] c->All_0[j], r) by {
        vstd::std_specs::vec::axiom_vec_index_decreases(v, j);
    }
}

pub proof fn lemma_any_witness(v: Vec<RuleCondition>, r: Resource) -> (j: int)
    requires
        cond_matches(RuleCondition::Any(v), r),
    ensures
        0 <= j < v.len(),
        cond_matches(v[j], r),
{
    let c = RuleCondition::Any(v);
    let j = choose|j: int| 0 <= j < v.len() && cond_matches(#[trigger] c->Any_0[j], r);
    vstd::std_specs::vec::axiom_vec_index_decreases(v, j);
    j
}

pub proof fn lemma_any_intro(v: Vec<RuleCondition>, r: Resource, j: int)
    requires
        0 <= j < v.len(),
        cond_matches(v[j], r),
    ensures
        cond_matches(RuleCondition::Any(v), r),
{
    vstd::std_specs::vec::axiom_vec_index_decreases(v, j);
    let c = RuleCondition::Any(v);
    assert(cond_matches(c->Any_0[j], r));
}

/// Both conditions hold.
pub fn both(a: RuleCondition, b: RuleCondition) -> (c: RuleCondition)
    ensures
        forall|r: Resource| #[trigger] cond_matches(c, r) == (cond_matches(a, r) && cond_matches(b, r)),
{
    let ghost (ga, gb) = (a, b);
    let v = vec![a, b];
    let ghost w = v;
    assert(w@ == seq![ga, gb]);
    let c = RuleCondition::All(v);
    assert forall|r: Resource| #[trigger] cond_matches(c, r) == (cond_matches(ga, r) && cond_matches(gb, r)) by {
        if cond_matches(ga, r) && cond_matches(gb, r) {
            assert(cond_matches(w[0], r));
            assert(cond_matches(w[1], r));
            lemma_all_intro(w, r);
        }
        if cond_matches(c, r) {
            lemma_all_elem(w, r, 0);
            lemma_all_elem(w, r, 1);
        }
    }
    c
}

/// At least one of three conditions holds.
pub fn one_of_three(a: RuleCondition, b: RuleCondition, d: RuleCondition) -> (c: RuleCondition)
    ensures
        forall|r: Resource|
            #[trigger] cond_matches(c, r) == (cond_matches(a, r) || cond_matches(b, r) || cond_matches(
                d,
                r,
            )),
{
    let ghost (ga, gb, gd) = (a, b, d);
    let v = vec![a, b, d];
    let ghost w = v;
    assert(w@ == seq![ga, gb, gd]);
    let c = RuleCondition::Any(v);
    assert forall|r: Resource|
        #[trigger] cond_matches(c, r) == (cond_matches(ga, r) || cond_matches(gb, r) || cond_matches(
            gd,
            r,
        )) by {
        if cond_matches(ga, r) {
            lemma_any_intro(w, r, 0);
        }
        if cond_matches(gb, r) {
            lemma_any_intro(w, r, 1);
        }
        if cond_matches(gd, r) {
            lemma_any_intro(w, r, 2);
        }
        if cond_matches(c, r) {
            let j = lemma_any_witness(w, r);
        }
    }
    c
}

/// Element-wise copies of `v`.
fn duplicate_all(v: &Vec<RuleCondition>) -> (w: Vec<RuleCondition>)
    ensures
        w.len() == v.len(),
        forall|j: int| 0 <= j < v.len() ==> cond_equiv(#[trigger] w[j], v[j]),
    decreases v,
{
    let mut w: Vec<RuleCondition> = Vec::new();
    let mut i: usize = 0;
    while i < v.len()
        invariant
            i <= v.len(),
            w.len() == i,
            forall|j: int| 0 <= j < i ==> cond_equiv(#[trigger] w[j], v[j]),
        decreases v.len() - i,
    {
        w.push(v[i].duplicate());
        i = i + 1;
    }
    w
}

impl CssReferenceSubType {
    /// An exact copy.
    pub fn duplicate(&self) -> (r: CssReferenceSubType)
        ensures
            r == *self,
    {
        match self {
            CssReferenceSubType::AtImport(None) => CssReferenceSubType::AtImport(None),
            CssReferenceSubType::AtImport(Some(s)) => CssReferenceSubType::AtImport(Some(s.clone())),
            CssReferenceSubType::Compose => CssReferenceSubType::Compose,
            CssReferenceSubType::Inner => CssReferenceSubType::Inner,
            CssReferenceSubType::Analyze => CssReferenceSubType::Analyze,
            CssReferenceSubType::Undefined => CssReferenceSubType::Undefined,
        }
    }
}

impl ReferenceType {
    /// An exact copy.
    pub fn duplicate(&self) -> (r: ReferenceType)
        ensures
            r == *self,
    {
        match self {
            ReferenceType::Undefined => ReferenceType::Undefined,
            ReferenceType::EcmaScriptModules => ReferenceType::EcmaScriptModules,
            ReferenceType::CommonJs => ReferenceType::CommonJs,
            ReferenceType::Css(s) => ReferenceType::Css(s.duplicate()),
            ReferenceType::Url(s) => ReferenceType::Url(*s),
            ReferenceType::Internal => ReferenceType::Internal,
        }
    }

    /// Whether this is a reference made by the bundler for its own purposes.
    pub fn is_internal(&self) -> (r: bool)
        ensures
            r == (*self is Internal),
    {
        matches!(self, ReferenceType::Internal)
    }
}

/// Whether the reference kind `cond` admits `rt`.
fn reference_type_includes(cond: &ReferenceType, rt: &ReferenceType) -> (r: bool)
    ensures
        r == reference_includes(*cond, *rt),
{
    match (cond, rt) {
        (ReferenceType::Css(c), ReferenceType::Css(s)) => match (c, s) {
            (CssReferenceSubType::Undefined, _) => true,
            (CssReferenceSubType::AtImport(None), CssReferenceSubType::AtImport(_)) => true,
            (CssReferenceSubType::AtImport(Some(x)), CssReferenceSubType::AtImport(Some(y))) => {
                str_equal(x.as_str(), y.as_str())
            },
            (CssReferenceSubType::Compose, CssReferenceSubType::Compose) => true,
            (CssReferenceSubType::Inner, CssReferenceSubType::Inner) => true,
            (CssReferenceSubType::Analyze, CssReferenceSubType::Analyze) => true,
            _ => false,
        },
        (ReferenceType::Url(c), ReferenceType::Url(s)) => *c == UrlReferenceSubType::Undefined
            || *c == *s,
        (ReferenceType::Undefined, ReferenceType::Undefined) => true,
        (ReferenceType::EcmaScriptModules, ReferenceType::EcmaScriptModules) => true,
        (ReferenceType::CommonJs, ReferenceType::CommonJs) => true,
        (ReferenceType::Internal, ReferenceType::Internal) => true,
        _ => false,
    }
}

/// The part of `path` below the directory `base`, when `path` lies below it.
fn path_relative_to<'a>(base: &str, path: &'a str) -> (r: Option<&'a str>)
    ensures
        match r {
            Some(s) => relative_to(base@, path@) == Some(s@),
            None => relative_to(base@, path@) is None,
        },
{
    let nb = base.unicode_len();
    let np = path.unicode_len();
    if nb == 0 {
        return Some(path);
    }
    if str_starts_with(path, base) && np > nb && path.get_char(nb) == '/' {
        Some(path.substring_char(nb + 1, np))
    } else {
        None
    }
}

} // verus!
