//! The per-type rules, type inference and the resolver.

use vstd::prelude::*;
use crate::cli::ProjectType;
use crate::context::{is_prefix, has_entry, listed, scan_from, ResolveError, WorkingContext};
use crate::manifest::{lists_dependency, manifest_lists_dependency};

verus! {

/// What one type's rule says of a working context.
#[derive(Clone, Copy, Debug, PartialEq, Eq, Structural)]
pub enum Validation {
    /// The project root lies this many levels above the working directory.
    Found(usize),
    /// The type has no marker: the working directory serves as root when the
    /// type is asserted, and the type is never inferred.
    Anywhere,
    /// The rule does not hold, for this reason.
    Rejected(ResolveError),
}

/// The order in which inference tries the types.
pub open spec fn type_order() -> Seq<ProjectType> {
    seq![
        ProjectType::RustNvimConfig,
        ProjectType::Cargo,
        ProjectType::Rust,
        ProjectType::Zenn,
        ProjectType::Markdown,
        ProjectType::LuaNvimConfig,
        ProjectType::Lua,
        ProjectType::TypeScript,
        ProjectType::GAS,
        ProjectType::WebSite,
        ProjectType::C,
        ProjectType::CPP,
        ProjectType::Swift,
        ProjectType::Python,
    ]
}

/// A rule that holds where the upward scan finds the marker `m`.
pub open spec fn marker_rule(ctx: &WorkingContext, m: Seq<char>, t: ProjectType) -> Validation {
    match ctx.scan(m) {
        Ok(Some(k)) => Validation::Found(k),
        Ok(None) => Validation::Rejected(ResolveError::TypeMismatch(t)),
        Err(e) => Validation::Rejected(e),
    }
}

/// The deeper of two candidate roots; the second on a tie.
pub open spec fn deeper(a: usize, b: usize) -> usize {
    if a < b { a } else { b }
}

/// The Zenn rule without a manifest: with the tool installed, the nearest
/// `articles` or `books` directory's parent, the deeper one when both are
/// found.
pub open spec fn zenn_content_rule(ctx: &WorkingContext) -> Validation {
    let t = ProjectType::Zenn;
    if !ctx.zenn_installed {
        Validation::Rejected(ResolveError::TypeMismatch(t))
    } else {
        match ctx.scan("articles"@) {
            Err(e) => Validation::Rejected(e),
            Ok(a) => match ctx.scan("books"@) {
                Err(e) => Validation::Rejected(e),
                Ok(b) => match (a, b) {
                    (Some(ka), Some(kb)) => Validation::Found(deeper(ka, kb)),
                    (Some(k), None) => Validation::Found(k),
                    (None, Some(k)) => Validation::Found(k),
                    (None, None) => Validation::Rejected(ResolveError::TypeMismatch(t)),
                },
            },
        }
    }
}

/// The Zenn rule: the nearest `package.json` decides when there is one, by
/// whether it lists `zenn-cli` among its dependencies.
pub open spec fn zenn_rule(ctx: &WorkingContext) -> Validation {
    match ctx.scan("package.json"@) {
        Err(e) => Validation::Rejected(e),
        Ok(Some(k)) => match ctx.listings@[k as int].package_json {
            None => Validation::Rejected(ResolveError::IoFailure(k)),
            Some(text) => if lists_dependency(text@, "zenn-cli"@) {
                Validation::Found(k)
            } else {
                Validation::Rejected(ResolveError::TypeMismatch(ProjectType::Zenn))
            },
        },
        Ok(None) => zenn_content_rule(ctx),
    }
}

/// A rule that first asks for the working directory to lie in the
/// configuration home.
pub open spec fn config_rule(ctx: &WorkingContext, t: ProjectType, then: Validation) -> Validation {
    if !ctx.in_config_home() {
        Validation::Rejected(ResolveError::OutsideConfigHome(t))
    } else {
        then
    }
}

/// What the rule of type `t` says of `ctx`.
pub open spec fn validate_spec(ctx: &WorkingContext, t: ProjectType) -> Validation {
    match t {
        ProjectType::RustNvimConfig => config_rule(ctx, t, marker_rule(ctx, "Cargo.toml"@, t)),
        ProjectType::LuaNvimConfig => config_rule(
            ctx,
            t,
            Validation::Rejected(ResolveError::TypeMismatch(t)),
        ),
        ProjectType::Cargo => marker_rule(ctx, "Cargo.toml"@, t),
        ProjectType::Rust => marker_rule(ctx, "main.rs"@, t),
        ProjectType::Zenn => zenn_rule(ctx),
        ProjectType::TypeScript => marker_rule(ctx, "package.json"@, t),
        ProjectType::GAS => marker_rule(ctx, "appscript.json"@, t),
        ProjectType::WebSite => marker_rule(ctx, "index.html"@, t),
        ProjectType::Markdown | ProjectType::Lua | ProjectType::Python => Validation::Anywhere,
        ProjectType::C | ProjectType::CPP | ProjectType::Swift => Validation::Rejected(
            ResolveError::TypeMismatch(t),
        ),
    }
}

/// Inference from position `i` of the type order on: the first type whose
/// rule finds a root.
pub open spec fn infer_from(ctx: &WorkingContext, i: int) -> Result<(ProjectType, usize), ResolveError>
    decreases type_order().len() - i,
{
    if i < 0 || i >= type_order().len() {
        Err(ResolveError::Indeterminate)
    } else {
        match validate_spec(ctx, type_order()[i]) {
            Validation::Found(k) => Ok((type_order()[i], k)),
            _ => infer_from(ctx, i + 1),
        }
    }
}

/// The resolution of `ctx`, with the type the user asserted if any.
pub open spec fn resolve_spec(ctx: &WorkingContext, asserted: Option<ProjectType>) -> Result<(ProjectType, usize), ResolveError> {
    match asserted {
        Some(t) => match validate_spec(ctx, t) {
            Validation::Found(k) => Ok((t, k)),
            Validation::Anywhere => Ok((t, 0)),
            Validation::Rejected(ResolveError::TypeMismatch(_)) => Err(ResolveError::AssertedTypeIncorrect(t)),
            Validation::Rejected(e) => Err(e),
        },
        None => infer_from(ctx, 0),
    }
}

/// The types in the order in which inference tries them.
pub fn all_types() -> (r: Vec<ProjectType>)
    ensures
        r@ == type_order(),
{
    let r = vec![
        ProjectType::RustNvimConfig,
        ProjectType::Cargo,
        ProjectType::Rust,
        ProjectType::Zenn,
        ProjectType::Markdown,
        ProjectType::LuaNvimConfig,
        ProjectType::Lua,
        ProjectType::TypeScript,
        ProjectType::GAS,
        ProjectType::WebSite,
        ProjectType::C,
        ProjectType::CPP,
        ProjectType::Swift,
        ProjectType::Python,
    ];
    assert(r@ =~= type_order());
    r
}

/// Applies a marker rule: the nearest ancestor holding `marker` is the root.
fn by_marker(ctx: &WorkingContext, marker: &str, t: ProjectType) -> (r: Validation)
    ensures
        r == marker_rule(ctx, marker@, t),
{
    match ctx.lookup(marker) {
        Ok(Some(k)) => Validation::Found(k),
        Ok(None) => Validation::Rejected(ResolveError::TypeMismatch(t)),
        Err(e) => Validation::Rejected(e),
    }
}

/// Applies the Zenn rule where no `package.json` was found.
fn by_zenn_content(ctx: &WorkingContext) -> (r: Validation)
    ensures
        r == zenn_content_rule(ctx),
{
    let t = ProjectType::Zenn;
    if !ctx.zenn_installed {
        return Validation::Rejected(ResolveError::TypeMismatch(t));
    }
    let a = match ctx.lookup("articles") {
        Err(e) => {
            return Validation::Rejected(e);
        },
        Ok(a) => a,
    };
    let b = match ctx.lookup("books") {
        Err(e) => {
            return Validation::Rejected(e);
        },
        Ok(b) => b,
    };
    match (a, b) {
        (Some(ka), Some(kb)) => Validation::Found(if ka < kb { ka } else { kb }),
        (Some(k), None) => Validation::Found(k),
        (None, Some(k)) => Validation::Found(k),
        (None, None) => Validation::Rejected(ResolveError::TypeMismatch(t)),
    }
}

/// Applies the Zenn rule.
fn by_zenn(ctx: &WorkingContext) -> (r: Validation)
    ensures
        r == zenn_rule(ctx),
{
    match ctx.lookup("package.json") {
        Err(e) => Validation::Rejected(e),
        Ok(Some(k)) => {
            match &ctx.listings[k].package_json {
                None => Validation::Rejected(ResolveError::IoFailure(k)),
                Some(text) => {
                    if manifest_lists_dependency(text, "zenn-cli") {
                        Validation::Found(k)
                    } else {
                        Validation::Rejected(ResolveError::TypeMismatch(ProjectType::Zenn))
                    }
                },
            }
        },
        Ok(None) => by_zenn_content(ctx),
    }
}

/// Applies the rule of type `t` to `ctx`.
pub fn validate(ctx: &WorkingContext, t: ProjectType) -> (r: Validation)
    ensures
        r == validate_spec(ctx, t),
{
    match t {
        ProjectType::RustNvimConfig => {
            if !crate::context::prefix_of(&ctx.config_home, &ctx.work_dir) {
                Validation::Rejected(ResolveError::OutsideConfigHome(t))
            } else {
                by_marker(ctx, "Cargo.toml", t)
            }
        },
        ProjectType::LuaNvimConfig => {
            if !crate::context::prefix_of(&ctx.config_home, &ctx.work_dir) {
                Validation::Rejected(ResolveError::OutsideConfigHome(t))
            } else {
                Validation::Rejected(ResolveError::TypeMismatch(t))
            }
        },
        ProjectType::Cargo => by_marker(ctx, "Cargo.toml", t),
        ProjectType::Rust => by_marker(ctx, "main.rs", t),
        ProjectType::Zenn => by_zenn(ctx),
        ProjectType::TypeScript => by_marker(ctx, "package.json", t),
        ProjectType::GAS => by_marker(ctx, "appscript.json", t),
        ProjectType::WebSite => by_marker(ctx, "index.html", t),
        ProjectType::Markdown | ProjectType::Lua | ProjectType::Python => Validation::Anywhere,
        ProjectType::C | ProjectType::CPP | ProjectType::Swift => Validation::Rejected(
            ResolveError::TypeMismatch(t),
        ),
    }
}

/// Tries every type in order and commits to the first whose rule finds a
/// root; `Indeterminate` when none does.
pub fn infer(ctx: &WorkingContext) -> (r: Result<(ProjectType, usize), ResolveError>)
    ensures
        r == infer_from(ctx, 0),
{
    let order = all_types();
    let mut i: usize = 0;
    while i < order.len()
        invariant
            0 <= i <= order@.len(),
            order@ == type_order(),
            infer_from(ctx, 0) == infer_from(ctx, i as int),
        decreases order@.len() - i,
    {
        let t = order[i];
        if let Validation::Found(k) = validate(ctx, t) {
            return Ok((t, k));
        }
        i = i + 1;
    }
    Err(ResolveError::Indeterminate)
}

/// Resolves the project type and root of `ctx`. An asserted type is checked
/// alone and kept; a mismatch then names it. Without one, the type is
/// inferred.
pub fn resolve(ctx: &WorkingContext, asserted: Option<ProjectType>) -> (r: Result<(ProjectType, usize), ResolveError>)
    ensures
        r == resolve_spec(ctx, asserted),
{
    match asserted {
        Some(t) => match validate(ctx, t) {
            Validation::Found(k) => Ok((t, k)),
            Validation::Anywhere => Ok((t, 0)),
            Validation::Rejected(ResolveError::TypeMismatch(_)) => Err(ResolveError::AssertedTypeIncorrect(t)),
            Validation::Rejected(e) => Err(e),
        },
        None => infer(ctx),
    }
}

/// Resolving with an asserted type keeps that type: the result is the type
/// with a root, or an error that names it, or an error of the
/// surroundings (a directory that could not be read).
pub proof fn lemma_asserted_type_kept(ctx: &WorkingContext, t: ProjectType)
    ensures
        match resolve_spec(ctx, Some(t)) {
            Ok((u, _)) => u == t,
            Err(ResolveError::AssertedTypeIncorrect(u)) => u == t,
            Err(ResolveError::OutsideConfigHome(u)) => u == t,
            Err(e) => e is IoFailure,
        },
{
    lemma_scan_fails_on_io(ctx, "Cargo.toml"@, 0);
    lemma_scan_fails_on_io(ctx, "main.rs"@, 0);
    lemma_scan_fails_on_io(ctx, "package.json"@, 0);
    lemma_scan_fails_on_io(ctx, "appscript.json"@, 0);
    lemma_scan_fails_on_io(ctx, "index.html"@, 0);
    lemma_scan_fails_on_io(ctx, "articles"@, 0);
    lemma_scan_fails_on_io(ctx, "books"@, 0);
}

/// The upward scan fails only on a directory it could not list.
proof fn lemma_scan_fails_on_io(ctx: &WorkingContext, m: Seq<char>, i: int)
    ensures
        scan_from(ctx.listings@, m, i) matches Err(e) ==> e is IoFailure,
    decreases ctx.listings@.len() - i,
{
    if 0 <= i < ctx.listings@.len() {
        lemma_scan_fails_on_io(ctx, m, i + 1);
    }
}

/// Inference commits to the first type in the order whose rule finds a
/// root, whatever later types would find; when no rule finds one, the
/// result is `Indeterminate`.
pub proof fn lemma_inference_first(ctx: &WorkingContext, i: int)
    ensures
        0 <= i < type_order().len() && validate_spec(ctx, type_order()[i]) is Found && (forall|j: int|
            0 <= j < i ==> !(#[trigger] validate_spec(ctx, type_order()[j]) is Found)) ==> resolve_spec(ctx, None)
            == Ok::<(ProjectType, usize), ResolveError>(
            (type_order()[i], validate_spec(ctx, type_order()[i])->Found_0),
        ),
        (forall|j: int| 0 <= j < type_order().len() ==> !(#[trigger] validate_spec(ctx, type_order()[j]) is Found))
            ==> resolve_spec(ctx, None) == Err::<(ProjectType, usize), ResolveError>(ResolveError::Indeterminate),
{
    lemma_infer_skips(ctx, 0, i);
}

/// Inference from `s` on passes over types whose rules find no root.
proof fn lemma_infer_skips(ctx: &WorkingContext, s: int, i: int)
    requires
        0 <= s,
    ensures
        s <= i < type_order().len() && validate_spec(ctx, type_order()[i]) is Found && (forall|j: int|
            s <= j < i ==> !(#[trigger] validate_spec(ctx, type_order()[j]) is Found)) ==> infer_from(ctx, s)
            == Ok::<(ProjectType, usize), ResolveError>(
            (type_order()[i], validate_spec(ctx, type_order()[i])->Found_0),
        ),
        (forall|j: int| s <= j < type_order().len() ==> !(#[trigger] validate_spec(ctx, type_order()[j]) is Found))
            ==> infer_from(ctx, s) == Err::<(ProjectType, usize), ResolveError>(ResolveError::Indeterminate),
    decreases type_order().len() - s,
{
    if s < type_order().len() {
        lemma_infer_skips(ctx, s + 1, i);
    }
}

/// A resolved root is an ancestor of the working directory, or the working
/// directory itself, and never lies above the home directory when the
/// working directory is under it.
pub proof fn lemma_root_on_path(ctx: &WorkingContext, asserted: Option<ProjectType>)
    requires
        ctx.wf(),
    ensures
        resolve_spec(ctx, asserted) matches Ok((_, k)) ==> is_prefix(ctx.ancestor(k as int), ctx.work_dir@)
            && (is_prefix(ctx.home@, ctx.work_dir@) ==> is_prefix(ctx.home@, ctx.ancestor(k as int))),
{
    lemma_root_within_scan(ctx, asserted);
}

/// A resolved root lies within the scan range: at or below the working
/// directory's top, so `k` levels up is a directory on the way to home.
pub proof fn lemma_root_within_scan(ctx: &WorkingContext, asserted: Option<ProjectType>)
    requires
        ctx.wf(),
    ensures
        resolve_spec(ctx, asserted) matches Ok((_, k)) ==> k < ctx.listings@.len()
            && k <= ctx.work_dir@.len(),
{
    if let Ok((t, k)) = resolve_spec(ctx, asserted) {
        match asserted {
            Some(a) => lemma_validate_in_range(ctx, a),
            None => lemma_infer_in_range(ctx, 0),
        }
    }
}

/// A root found by one type's rule lies within the listings.
pub proof fn lemma_validate_in_range(ctx: &WorkingContext, t: ProjectType)
    requires
        ctx.listings@.len() <= usize::MAX,
    ensures
        validate_spec(ctx, t) matches Validation::Found(k) ==> k < ctx.listings@.len(),
{
    lemma_scan_in_range(ctx, "Cargo.toml"@, 0);
    lemma_scan_in_range(ctx, "main.rs"@, 0);
    lemma_scan_in_range(ctx, "package.json"@, 0);
    lemma_scan_in_range(ctx, "appscript.json"@, 0);
    lemma_scan_in_range(ctx, "index.html"@, 0);
    lemma_scan_in_range(ctx, "articles"@, 0);
    lemma_scan_in_range(ctx, "books"@, 0);
}

/// A root found by inference lies within the listings.
pub proof fn lemma_infer_in_range(ctx: &WorkingContext, i: int)
    requires
        ctx.listings@.len() <= usize::MAX,
    ensures
        infer_from(ctx, i) matches Ok((_, k)) ==> k < ctx.listings@.len(),
    decreases type_order().len() - i,
{
    if 0 <= i < type_order().len() {
        lemma_validate_in_range(ctx, type_order()[i]);
        lemma_infer_in_range(ctx, i + 1);
    }
}

/// A level that the upward scan finds lies within the listings, and its
/// listing holds the marker.
pub proof fn lemma_scan_in_range(ctx: &WorkingContext, m: Seq<char>, i: int)
    requires
        0 <= i,
        ctx.listings@.len() <= usize::MAX,
    ensures
        scan_from(ctx.listings@, m, i) matches Ok(Some(k)) ==> i <= k < ctx.listings@.len()
            && has_entry(ctx.listings@[k as int], m),
        scan_from(ctx.listings@, m, i) matches Err(ResolveError::IoFailure(k)) ==> i <= k
            < ctx.listings@.len(),
    decreases ctx.listings@.len() - i,
{
    if i < ctx.listings@.len() && listed(ctx.listings@[i]) && !has_entry(ctx.listings@[i], m) {
        lemma_scan_in_range(ctx, m, i + 1);
    }
}

} // verus!
