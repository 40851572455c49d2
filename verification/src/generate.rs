//! The output mapper and the full generation pipeline.
//!
//! Each rendered template has one fixed destination path inside the
//! scaffolded tree, fully determined by the feature name and the logical
//! template name. Rendering is all-or-nothing: the eight renders are
//! collected first, and only a run in which every one succeeded hands any
//! rendered file out — a failed render, like a missing template, yields an
//! error and no rendered file at all.
use vstd::prelude::*;
use vstd::string::*;
use vstd::pervasive::unreached;
use crate::names::{derive_context, NameContext, NameView};
use crate::registry::{
    first_missing_from, logical_name, logical_names, lookup, registry_complete, Template,
    TemplateLoadError, TemplateRegistry,
};
use crate::render::{render, render_rec, RenderError, RenderErrorKind, RenderIssue};
use crate::schema::{files_match, scaffold_plan, strings_match, subfolder_dir, GeneratedFile};
use crate::text::{concat2, concat4};

verus! {

/// The destination path of one rendered logical template.
pub open spec fn rendered_path(snake: Seq<char>, k: int) -> Seq<char> {
    if k == 0 {
        subfolder_dir(snake, 0, 0) + "/container.rs"@
    } else if k == 1 {
        subfolder_dir(snake, 0, 1) + "/i_"@ + snake + "_interactor.rs"@
    } else if k == 2 {
        subfolder_dir(snake, 0, 2) + "/"@ + snake + "_use_case.rs"@
    } else if k == 3 {
        subfolder_dir(snake, 1, 1) + "/i_"@ + snake + "_repository.rs"@
    } else if k == 4 {
        subfolder_dir(snake, 1, 0) + "/"@ + snake + "_interactor_impl.rs"@
    } else if k == 5 {
        subfolder_dir(snake, 2, 0) + "/"@ + snake + "_data_source.rs"@
    } else if k == 6 {
        subfolder_dir(snake, 2, 4) + "/"@ + snake + "_repository_impl.rs"@
    } else {
        subfolder_dir(snake, 3, 0) + "/"@ + snake + "_controller.rs"@
    }
}

/// The body of the logical template at position `k` (empty when missing;
/// a complete registry always has it).
pub open spec fn template_body(ts: Seq<Template>, k: int) -> Seq<char> {
    match lookup(ts, logical_name(k)) {
        Some(b) => b,
        None => Seq::<char>::empty(),
    }
}

/// The outcome of rendering the logical template at position `k`.
pub open spec fn render_of(ts: Seq<Template>, nv: NameView, k: int) -> Result<
    Seq<char>,
    RenderIssue,
> {
    render_rec(template_body(ts, k), nv)
}

/// Whether all eight renders succeed.
pub open spec fn all_renders_ok(ts: Seq<Template>, nv: NameView) -> bool {
    forall|k: int| 0 <= k < 8 ==> (#[trigger] render_of(ts, nv, k)) is Ok
}

/// The first position at or after `k` whose render fails; 8 when none
/// does.
pub open spec fn first_render_issue_from(ts: Seq<Template>, nv: NameView, k: int) -> int
    decreases 8 - k,
{
    if k < 0 || k >= 8 {
        8
    } else if render_of(ts, nv, k) is Err {
        k
    } else {
        first_render_issue_from(ts, nv, k + 1)
    }
}

/// The text of the render at position `k`, where it succeeds.
pub open spec fn rendered_content(ts: Seq<Template>, nv: NameView, k: int) -> Seq<char> {
    match render_of(ts, nv, k) {
        Ok(s) => s,
        Err(_) => Seq::<char>::empty(),
    }
}

/// The eight rendered files, in logical-name order, each at its fixed
/// destination path.
pub open spec fn rendered_files(ts: Seq<Template>, nv: NameView, snake: Seq<char>) -> Seq<
    (Seq<char>, Seq<char>),
> {
    Seq::new(8, |k: int| (rendered_path(snake, k), rendered_content(ts, nv, k)))
}

/// Whether a render error reports exactly the given issue of the given
/// template.
pub open spec fn render_error_matches(re: RenderError, name: Seq<char>, issue: RenderIssue) -> bool {
    re.template@ == name && match issue {
        RenderIssue::Undefined { symbol } => re.kind == RenderErrorKind::UndefinedSymbol
            && re.symbol@ == symbol,
        RenderIssue::Unclosed => re.kind == RenderErrorKind::UnclosedPlaceholder && re.symbol@
            == Seq::<char>::empty(),
    }
}

/// Why a generation run failed.
#[derive(Debug)]
pub enum GenerateError {
    /// A logical template had no source; nothing was rendered.
    TemplateLoad(TemplateLoadError),
    /// A template failed to render; no rendered file was produced.
    Render(RenderError),
}

/// A full generation run's output, ready to persist: every directory to
/// create, every aggregator file, and the eight rendered files.
pub struct Generation {
    /// Every directory to create, in creation order.
    pub dirs: Vec<String>,
    /// Every aggregator file, one per directory, in the same order.
    pub aggregators: Vec<GeneratedFile>,
    /// The eight rendered files, in logical-name order.
    pub rendered: Vec<GeneratedFile>,
}

/// The destination paths of the eight logical templates, in order.
fn rendered_paths(ctx: &NameContext) -> (v: Vec<String>)
    ensures
        v@.len() == 8,
        forall|k: int| 0 <= k < 8 ==> v@[k]@ == rendered_path(ctx.snake@, k),
{
    let snake = ctx.snake.as_str();
    let root = concat2("src/features/", snake);
    let d_app = concat4(root.as_str(), "/", "application", "/");
    let d_dom = concat4(root.as_str(), "/", "domain", "/");
    let d_inf = concat4(root.as_str(), "/", "infrastructure", "/");
    let d_int = concat4(root.as_str(), "/", "interface", "/");
    let mut v: Vec<String> = Vec::new();
    v.push(concat2(concat2(d_app.as_str(), "di").as_str(), "/container.rs"));
    v.push(concat4(concat2(d_app.as_str(), "interactor").as_str(), "/i_", snake, "_interactor.rs"));
    v.push(concat4(concat2(d_app.as_str(), "use_case").as_str(), "/", snake, "_use_case.rs"));
    v.push(concat4(concat2(d_dom.as_str(), "repository").as_str(), "/i_", snake, "_repository.rs"));
    v.push(
        concat4(concat2(d_dom.as_str(), "interactor").as_str(), "/", snake, "_interactor_impl.rs"),
    );
    v.push(
        concat4(concat2(d_inf.as_str(), "data_access").as_str(), "/", snake, "_data_source.rs"),
    );
    v.push(
        concat4(concat2(d_inf.as_str(), "repository").as_str(), "/", snake, "_repository_impl.rs"),
    );
    v.push(concat4(concat2(d_int.as_str(), "controller").as_str(), "/", snake, "_controller.rs"));
    proof {
        assert forall|k: int| 0 <= k < 8 implies v@[k]@ == rendered_path(ctx.snake@, k) by {
            assert(v@[k]@ =~= rendered_path(ctx.snake@, k));
        }
    }
    v
}

/// Renders every logical template and binds each result to its
/// destination path.
///
/// All-or-nothing: succeeds, with the eight rendered files in order,
/// exactly when every render succeeds; a failed render yields the error of
/// the first failing template, naming it, and no file.
pub fn render_all(reg: &TemplateRegistry, ctx: &NameContext) -> (r: Result<
    Vec<GeneratedFile>,
    RenderError,
>)
    requires
        reg.complete(),
    ensures
        r is Ok <==> all_renders_ok(reg.templates@, ctx@),
        r matches Ok(files) ==> files_match(
            files@,
            rendered_files(reg.templates@, ctx@, ctx.snake@),
        ),
        r matches Err(re) ==> ({
            let bad = first_render_issue_from(reg.templates@, ctx@, 0);
            &&& render_of(reg.templates@, ctx@, bad) matches Err(issue)
                && render_error_matches(re, logical_name(bad), issue)
        }),
{
    let names = logical_names();
    let paths = rendered_paths(ctx);
    let mut files: Vec<GeneratedFile> = Vec::new();
    let mut k: usize = 0;
    while k < 8
        invariant
            k <= 8,
            reg.complete(),
            names@.len() == 8,
            forall|j: int| 0 <= j < 8 ==> names@[j]@ == logical_name(j),
            paths@.len() == 8,
            forall|j: int| 0 <= j < 8 ==> paths@[j]@ == rendered_path(ctx.snake@, j),
            forall|j: int| 0 <= j < k ==> (#[trigger] render_of(reg.templates@, ctx@, j)) is Ok,
            files@.len() == k,
            forall|j: int|
                0 <= j < k ==> (#[trigger] files@[j]).path@ == rendered_path(ctx.snake@, j)
                    && files@[j].content@ == rendered_content(reg.templates@, ctx@, j),
        decreases 8 - k,
    {
        let name = &names[k];
        let body = match reg.get(name) {
            Some(b) => b,
            None => {
                proof {
                    assert(registry_complete(reg.templates@));
                    assert(lookup(reg.templates@, logical_name(k as int)) is Some);
                }
                unreached()
            },
        };
        proof {
            assert(body@ == template_body(reg.templates@, k as int));
        }
        match render(name.as_str(), body.as_str(), ctx) {
            Ok(text) => {
                files.push(GeneratedFile { path: paths[k].clone(), content: text });
            },
            Err(re) => {
                proof {
                    lemma_first_render_issue_here(reg.templates@, ctx@, 0, k as int);
                }
                return Err(re);
            },
        }
        k = k + 1;
    }
    proof {
        assert(files_match(files@, rendered_files(reg.templates@, ctx@, ctx.snake@)));
    }
    Ok(files)
}

/// When every render before `k` succeeds and `k`'s fails, `k` is the
/// first failing position.
proof fn lemma_first_render_issue_here(ts: Seq<Template>, nv: NameView, m: int, k: int)
    requires
        0 <= m <= k < 8,
        forall|j: int| m <= j < k ==> (#[trigger] render_of(ts, nv, j)) is Ok,
        render_of(ts, nv, k) is Err,
    ensures
        first_render_issue_from(ts, nv, m) == k,
    decreases k - m,
{
    if m < k {
        lemma_first_render_issue_here(ts, nv, m + 1, k);
    }
}

/// One full generation run, as a pure function: derive the name variants,
/// check the template registry, lay out the scaffold, render every
/// template and bind it to its destination path.
///
/// Fail-fast and all-or-nothing: a missing logical template fails the run
/// before anything is rendered, naming the first missing template; a
/// failed render fails the run with nothing handed out, naming the first
/// failing template. On success the output holds exactly the scaffold
/// directories, their aggregator files, and the eight rendered files.
pub fn generate(raw: &str, templates: Vec<Template>) -> (r: Result<Generation, GenerateError>)
    requires
        raw@.len() > 0,
        raw.is_ascii(),
    ensures
        ({
            let nv = spec_context(raw@);
            let snake = crate::names::snake_of(raw@);
            &&& !registry_complete(templates@) ==> (r matches Err(GenerateError::TemplateLoad(e))
                && e.missing@ == logical_name(first_missing_from(templates@, 0)))
            &&& registry_complete(templates@) && all_renders_ok(templates@, nv) ==> (r matches Ok(
                g,
            ) && strings_match(g.dirs@, crate::schema::dir_paths(snake)) && files_match(
                g.aggregators@,
                crate::schema::aggregator_files(snake),
            ) && files_match(g.rendered@, rendered_files(templates@, nv, snake)))
            &&& registry_complete(templates@) && !all_renders_ok(templates@, nv) ==> (r matches Err(
                GenerateError::Render(re),
            ) && ({
                let bad = first_render_issue_from(templates@, nv, 0);
                &&& render_of(templates@, nv, bad) matches Err(issue)
                    && render_error_matches(re, logical_name(bad), issue)
            }))
        }),
{
    let ctx = derive_context(raw);
    let reg = match TemplateRegistry::load(templates) {
        Ok(reg) => reg,
        Err(e) => {
            return Err(GenerateError::TemplateLoad(e));
        },
    };
    let plan = scaffold_plan(&ctx);
    let rendered = match render_all(&reg, &ctx) {
        Ok(files) => files,
        Err(re) => {
            return Err(GenerateError::Render(re));
        },
    };
    Ok(Generation { dirs: plan.dirs, aggregators: plan.files, rendered })
}

/// Whether two file lists hold the same paths and the same contents, in
/// the same order.
pub open spec fn files_agree(a: Seq<GeneratedFile>, b: Seq<GeneratedFile>) -> bool {
    a.len() == b.len() && forall|i: int|
        0 <= i < a.len() ==> (#[trigger] a[i]).path@ == b[i].path@ && a[i].content@
            == b[i].content@
}

/// Re-running generation for the same feature name and the same templates
/// yields the same directories and the same files, path for path and byte
/// for byte: two successful runs agree everywhere, so a caller that
/// persists the second run's output overwrites the first run's files —
/// there is no merge. `generate` pins every successful run's output to the
/// one outcome both runs here satisfy.
pub proof fn lemma_regeneration_overwrites(raw: Seq<char>, ts: Seq<Template>, g1: Generation, g2: Generation)
    requires
        strings_match(g1.dirs@, crate::schema::dir_paths(crate::names::snake_of(raw))),
        strings_match(g2.dirs@, crate::schema::dir_paths(crate::names::snake_of(raw))),
        files_match(g1.aggregators@, crate::schema::aggregator_files(crate::names::snake_of(raw))),
        files_match(g2.aggregators@, crate::schema::aggregator_files(crate::names::snake_of(raw))),
        files_match(
            g1.rendered@,
            rendered_files(ts, spec_context(raw), crate::names::snake_of(raw)),
        ),
        files_match(
            g2.rendered@,
            rendered_files(ts, spec_context(raw), crate::names::snake_of(raw)),
        ),
    ensures
        g1.dirs@.len() == g2.dirs@.len(),
        forall|i: int| 0 <= i < g1.dirs@.len() ==> (#[trigger] g1.dirs@[i])@ == g2.dirs@[i]@,
        files_agree(g1.aggregators@, g2.aggregators@),
        files_agree(g1.rendered@, g2.rendered@),
{
    assert forall|i: int| 0 <= i < g1.aggregators@.len() implies (#[trigger] g1.aggregators@[i]).path@
        == g2.aggregators@[i].path@ && g1.aggregators@[i].content@ == g2.aggregators@[i].content@ by {
        assert(g1.aggregators@[i].path@ == crate::schema::aggregator_files(
            crate::names::snake_of(raw),
        )[i].0);
        assert(g2.aggregators@[i].path@ == crate::schema::aggregator_files(
            crate::names::snake_of(raw),
        )[i].0);
    }
    assert forall|i: int| 0 <= i < g1.rendered@.len() implies (#[trigger] g1.rendered@[i]).path@
        == g2.rendered@[i].path@ && g1.rendered@[i].content@ == g2.rendered@[i].content@ by {
        assert(g1.rendered@[i].path@ == rendered_files(
            ts,
            spec_context(raw),
            crate::names::snake_of(raw),
        )[i].0);
        assert(g2.rendered@[i].path@ == rendered_files(
            ts,
            spec_context(raw),
            crate::names::snake_of(raw),
        )[i].0);
    }
}

/// The name context a feature name determines.
pub open spec fn spec_context(raw: Seq<char>) -> NameView {
    NameView {
        raw: raw,
        snake: crate::names::snake_of(raw),
        pascal: crate::names::pascal_of(raw),
    }
}

} // verus!
