//! The renderer: simple variable substitution of the three name variants.
//!
//! A template is literal text with placeholders of the form
//! `{{feature_name}}`, `{{snake_case_feature_name}}` or
//! `{{capitalize_feature_name}}`; a placeholder is replaced by the matching
//! name variant. No other construct exists: a placeholder naming anything
//! else fails the render, as does a `{{` that is never closed by `}}`.
//! Rendering is a pure function of the template text and the name context
//! and has no side effects.
use vstd::prelude::*;
use vstd::string::*;
use crate::names::{NameContext, NameView};
use crate::text::{chars_eq, chars_of, chars_to_string};

verus! {

/// Why a render fails.
pub enum RenderIssue {
    /// A placeholder names a symbol the context does not define.
    Undefined { symbol: Seq<char> },
    /// A `{{` placeholder is never closed by `}}`.
    Unclosed,
}

/// The defined symbols and the name variant each one stands for.
pub open spec fn subst(sym: Seq<char>, ctx: NameView) -> Option<Seq<char>> {
    if sym == "feature_name"@ {
        Some(ctx.raw)
    } else if sym == "snake_case_feature_name"@ {
        Some(ctx.snake)
    } else if sym == "capitalize_feature_name"@ {
        Some(ctx.pascal)
    } else {
        None
    }
}

/// Whether the text starts with the placeholder opener `{{`.
pub open spec fn starts_open(t: Seq<char>) -> bool {
    t.len() >= 2 && t[0] == '{' && t[1] == '{'
}

/// Whether the text starts with the placeholder closer `}}`.
pub open spec fn starts_close(t: Seq<char>) -> bool {
    t.len() >= 2 && t[0] == '}' && t[1] == '}'
}

/// The rendering of the text still to process: literal characters pass
/// through, `{{` enters a placeholder.
pub open spec fn render_rec(t: Seq<char>, ctx: NameView) -> Result<Seq<char>, RenderIssue>
    decreases t.len(), 1int,
{
    if starts_open(t) {
        scan_rec(t.skip(2), Seq::empty(), ctx)
    } else if t.len() == 0 {
        Ok(Seq::<char>::empty())
    } else {
        match render_rec(t.drop_first(), ctx) {
            Ok(rest) => Ok(seq![t[0]] + rest),
            Err(e) => Err(e),
        }
    }
}

/// Inside a placeholder: `sym` holds the symbol text read so far; the first
/// `}}` closes the placeholder and substitutes the symbol's variant.
pub open spec fn scan_rec(t: Seq<char>, sym: Seq<char>, ctx: NameView) -> Result<
    Seq<char>,
    RenderIssue,
>
    decreases t.len(), 0int,
{
    if starts_close(t) {
        match subst(sym, ctx) {
            Some(v) => match render_rec(t.skip(2), ctx) {
                Ok(rest) => Ok(v + rest),
                Err(e) => Err(e),
            },
            None => Err(RenderIssue::Undefined { symbol: sym }),
        }
    } else if t.len() == 0 {
        Err(RenderIssue::Unclosed)
    } else {
        scan_rec(t.drop_first(), sym.push(t[0]), ctx)
    }
}

/// What kind of failure a render reported.
#[derive(PartialEq, Eq, Structural, Clone, Copy, Debug)]
pub enum RenderErrorKind {
    /// A placeholder names a symbol the context does not define.
    UndefinedSymbol,
    /// A `{{` placeholder is never closed by `}}`.
    UnclosedPlaceholder,
}

/// A failed render, naming the offending template.
#[derive(Debug)]
pub struct RenderError {
    /// The logical name of the template that failed to render.
    pub template: String,
    /// The undefined symbol; empty for an unclosed placeholder.
    pub symbol: String,
    /// What went wrong.
    pub kind: RenderErrorKind,
}

/// The name variants and symbol names in executable form, prepared once per
/// render.
struct RenderCtx {
    raw: Vec<char>,
    snake: Vec<char>,
    pascal: Vec<char>,
    sym_raw: Vec<char>,
    sym_snake: Vec<char>,
    sym_pascal: Vec<char>,
}

impl RenderCtx {
    /// The name context the prepared vectors stand for.
    spec fn nv(&self) -> NameView {
        NameView { raw: self.raw@, snake: self.snake@, pascal: self.pascal@ }
    }

    /// The symbol vectors hold the three defined symbol names.
    spec fn wf(&self) -> bool {
        self.sym_raw@ == "feature_name"@ && self.sym_snake@ == "snake_case_feature_name"@
            && self.sym_pascal@ == "capitalize_feature_name"@
    }
}

/// A render failure before the offending template's name is attached.
enum Issue {
    Undefined { symbol: Vec<char> },
    Unclosed,
}

/// Appends every character of `src` to `out`.
fn push_all(out: &mut Vec<char>, src: &Vec<char>)
    ensures
        final(out)@ == old(out)@ + src@,
{
    let n = src.len();
    let mut i: usize = 0;
    proof {
        assert(out@ =~= old(out)@ + src@.subrange(0, 0));
    }
    while i < n
        invariant
            n == src@.len(),
            i <= n,
            out@ == old(out)@ + src@.subrange(0, i as int),
        decreases n - i,
    {
        out.push(src[i]);
        i = i + 1;
        proof {
            assert(out@ =~= old(out)@ + src@.subrange(0, i as int));
        }
    }
    proof {
        assert(out@ =~= old(out)@ + src@);
    }
}

/// Renders the literal text from position `i` on, appending to `out`.
fn render_at(t: &Vec<char>, i: usize, rc: &RenderCtx, out: &mut Vec<char>) -> (r: Result<
    (),
    Issue,
>)
    requires
        i <= t@.len(),
        rc.wf(),
    ensures
        match render_rec(t@.skip(i as int), rc.nv()) {
            Ok(s) => r is Ok && final(out)@ == old(out)@ + s,
            Err(RenderIssue::Undefined { symbol }) => (r matches Err(Issue::Undefined {
                symbol: sy,
            }) && sy@ == symbol),
            Err(RenderIssue::Unclosed) => r matches Err(Issue::Unclosed),
        },
    decreases t@.len() - i, 1int,
{
    let ghost rest = t@.skip(i as int);
    let n = t.len();
    if i < n && t[i] == '{' && i + 1 < n && t[i + 1] == '{' {
        proof {
            assert(rest[0] == t@[i as int]);
            assert(rest[1] == t@[i as int + 1]);
            assert(starts_open(rest));
            assert(rest.skip(2) =~= t@.skip(i as int + 2));
        }
        scan_at(t, i + 2, Vec::new(), rc, out)
    } else if i == n {
        proof {
            assert(rest =~= Seq::<char>::empty());
            assert(final(out)@ =~= old(out)@ + Seq::<char>::empty());
        }
        Ok(())
    } else {
        proof {
            assert(rest[0] == t@[i as int]);
            assert(!starts_open(rest)) by {
                if rest.len() >= 2 {
                    assert(rest[1] == t@[i as int + 1]);
                }
            }
            assert(rest.drop_first() =~= t@.skip(i as int + 1));
        }
        out.push(t[i]);
        let r = render_at(t, i + 1, rc, out);
        proof {
            if r is Ok {
                if let Ok(s) = render_rec(t@.skip(i as int + 1), rc.nv()) {
                    assert(out@ =~= old(out)@ + (seq![rest[0]] + s));
                }
            }
        }
        r
    }
}

/// Reads a placeholder's symbol from position `j` on; `sym` holds what was
/// read so far.
fn scan_at(t: &Vec<char>, j: usize, sym: Vec<char>, rc: &RenderCtx, out: &mut Vec<char>) -> (r:
    Result<(), Issue>)
    requires
        j <= t@.len(),
        rc.wf(),
    ensures
        match scan_rec(t@.skip(j as int), sym@, rc.nv()) {
            Ok(s) => r is Ok && final(out)@ == old(out)@ + s,
            Err(RenderIssue::Undefined { symbol }) => (r matches Err(Issue::Undefined {
                symbol: sy,
            }) && sy@ == symbol),
            Err(RenderIssue::Unclosed) => r matches Err(Issue::Unclosed),
        },
    decreases t@.len() - j, 0int,
{
    let ghost rest = t@.skip(j as int);
    let n = t.len();
    if j < n && t[j] == '}' && j + 1 < n && t[j + 1] == '}' {
        proof {
            assert(rest[0] == t@[j as int]);
            assert(rest[1] == t@[j as int + 1]);
            assert(starts_close(rest));
            assert(rest.skip(2) =~= t@.skip(j as int + 2));
        }
        let chosen: &Vec<char> = if chars_eq(&sym, &rc.sym_raw) {
            &rc.raw
        } else if chars_eq(&sym, &rc.sym_snake) {
            &rc.snake
        } else if chars_eq(&sym, &rc.sym_pascal) {
            &rc.pascal
        } else {
            return Err(Issue::Undefined { symbol: sym });
        };
        proof {
            assert(subst(sym@, rc.nv()) == Some(chosen@));
        }
        push_all(out, chosen);
        let r = render_at(t, j + 2, rc, out);
        proof {
            if r is Ok {
                if let Ok(s) = render_rec(t@.skip(j as int + 2), rc.nv()) {
                    assert(out@ =~= old(out)@ + (chosen@ + s));
                }
            }
        }
        r
    } else if j == n {
        proof {
            assert(rest =~= Seq::<char>::empty());
        }
        Err(Issue::Unclosed)
    } else {
        proof {
            assert(rest[0] == t@[j as int]);
            assert(!starts_close(rest)) by {
                if rest.len() >= 2 {
                    assert(rest[1] == t@[j as int + 1]);
                }
            }
            assert(rest.drop_first() =~= t@.skip(j as int + 1));
            assert(sym@.push(t@[j as int]) =~= sym@ + seq![t@[j as int]]);
        }
        let c = t[j];
        let mut sym2 = sym;
        sym2.push(c);
        scan_at(t, j + 1, sym2, rc, out)
    }
}

/// Rendering is a pure function: the outcome is fully determined by the
/// template text and the name context, so two renders of the same template
/// against the same context yield byte-identical output. `render` below
/// pins every call's result to this one outcome.
pub proof fn lemma_render_deterministic(
    t: Seq<char>,
    ctx: NameView,
    r1: Result<Seq<char>, RenderIssue>,
    r2: Result<Seq<char>, RenderIssue>,
)
    requires
        r1 == render_rec(t, ctx),
        r2 == render_rec(t, ctx),
    ensures
        r1 == r2,
{
}

/// Renders one template against a name context.
///
/// The result is a pure function of the template text and the context: the
/// same template and context always render to the same text. On failure the
/// error names the template and, for an undefined symbol, the symbol.
pub fn render(name: &str, template: &str, ctx: &NameContext) -> (r: Result<String, RenderError>)
    ensures
        match render_rec(template@, ctx@) {
            Ok(s) => r matches Ok(text) && text@ == s,
            Err(RenderIssue::Undefined { symbol }) => (r matches Err(e) && e.template@ == name@
                && e.symbol@ == symbol && e.kind == RenderErrorKind::UndefinedSymbol),
            Err(RenderIssue::Unclosed) => (r matches Err(e) && e.template@ == name@ && e.symbol@
                == Seq::<char>::empty() && e.kind == RenderErrorKind::UnclosedPlaceholder),
        },
{
    let t = chars_of(template);
    let rc = RenderCtx {
        raw: chars_of(ctx.raw.as_str()),
        snake: chars_of(ctx.snake.as_str()),
        pascal: chars_of(ctx.pascal.as_str()),
        sym_raw: chars_of("feature_name"),
        sym_snake: chars_of("snake_case_feature_name"),
        sym_pascal: chars_of("capitalize_feature_name"),
    };
    proof {
        assert(rc.nv() == ctx@);
        assert(t@.skip(0) =~= t@);
    }
    let mut out: Vec<char> = Vec::new();
    match render_at(&t, 0, &rc, &mut out) {
        Ok(()) => Ok(chars_to_string(&out)),
        Err(Issue::Undefined { symbol }) => Err(
            RenderError {
                template: name.to_owned(),
                symbol: chars_to_string(&symbol),
                kind: RenderErrorKind::UndefinedSymbol,
            },
        ),
        Err(Issue::Unclosed) => Err(
            RenderError {
                template: name.to_owned(),
                symbol: String::new(),
                kind: RenderErrorKind::UnclosedPlaceholder,
            },
        ),
    }
}

} // verus!
