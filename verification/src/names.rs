//! Name derivation: the three name variants every template render consumes.
//!
//! A feature name is a non-empty ASCII identifier fragment whose word
//! separator is `_` (the caller may also hand in `-`, which only the
//! snake-case variant folds). From it the deriver builds:
//! - `snake`: the name lower-cased, with every `-` replaced by `_`;
//! - `pascal`: the name split on `_`, each non-empty segment's first
//!   character upper-cased, the segments concatenated with no separator.
//!
//! The split for `pascal` is on `_` alone: a `-` affects snake-casing but
//! not the pascal-case segmentation.
use vstd::prelude::*;
use vstd::string::*;
use crate::text::{chars_of, chars_to_string};

verus! {

/// ASCII lower-casing of one character; every other character is unchanged.
pub open spec fn lower_char(c: char) -> char {
    if 'A' <= c && c <= 'Z' {
        ((c as u32) + 32) as char
    } else {
        c
    }
}

/// ASCII upper-casing of one character; every other character is unchanged.
pub open spec fn upper_char(c: char) -> char {
    if 'a' <= c && c <= 'z' {
        ((c as u32) - 32) as char
    } else {
        c
    }
}

/// One character of the snake-case variant: `-` becomes `_`, letters are
/// lower-cased.
pub open spec fn snake_char(c: char) -> char {
    if c == '-' {
        '_'
    } else {
        lower_char(c)
    }
}

/// The snake-case variant: the name lower-cased with `-` folded to `_`.
pub open spec fn snake_of(s: Seq<char>) -> Seq<char> {
    Seq::new(s.len(), |i: int| snake_char(s[i]))
}

/// Lower-casing applied to every character.
pub open spec fn lower_of(s: Seq<char>) -> Seq<char> {
    Seq::new(s.len(), |i: int| lower_char(s[i]))
}

/// `-` folded to `_` in every position, with no change of case.
pub open spec fn fold_dashes(s: Seq<char>) -> Seq<char> {
    Seq::new(s.len(), |i: int| if s[i] == '-' { '_' } else { s[i] })
}

/// The pascal-case variant of the text still to process. `boundary` is true
/// exactly when the next character starts a segment (at the start of the
/// name and right after each `_`): that character is upper-cased; a `_` is
/// dropped and re-opens a boundary; everything else passes unchanged.
pub open spec fn pascal_rec(s: Seq<char>, boundary: bool) -> Seq<char>
    decreases s.len(),
{
    if s.len() == 0 {
        Seq::empty()
    } else if s[0] == '_' {
        pascal_rec(s.drop_first(), true)
    } else if boundary {
        seq![upper_char(s[0])] + pascal_rec(s.drop_first(), false)
    } else {
        seq![s[0]] + pascal_rec(s.drop_first(), false)
    }
}

/// Whether a segment boundary is open after processing `s` starting from
/// boundary state `boundary`.
pub open spec fn pascal_end(s: Seq<char>, boundary: bool) -> bool
    decreases s.len(),
{
    if s.len() == 0 {
        boundary
    } else if s[0] == '_' {
        pascal_end(s.drop_first(), true)
    } else {
        pascal_end(s.drop_first(), false)
    }
}

/// The pascal-case variant: segments split on `_`, each non-empty segment's
/// first character upper-cased, concatenated with no separator.
pub open spec fn pascal_of(s: Seq<char>) -> Seq<char> {
    pascal_rec(s, true)
}

/// The three name variants derived from one feature name, consumed by every
/// template render. Created once per generation run and never changed.
pub struct NameContext {
    /// The feature name as given.
    pub raw: String,
    /// The feature name lower-cased, with `-` folded to `_`.
    pub snake: String,
    /// The feature name in pascal case, segmented on `_`.
    pub pascal: String,
}

/// The view of a name context: the three variant texts.
pub struct NameView {
    pub raw: Seq<char>,
    pub snake: Seq<char>,
    pub pascal: Seq<char>,
}

impl View for NameContext {
    type V = NameView;

    open spec fn view(&self) -> NameView {
        NameView { raw: self.raw@, snake: self.snake@, pascal: self.pascal@ }
    }
}

impl NameContext {
    /// The variants agree with the raw name they were derived from.
    pub open spec fn wf(self) -> bool {
        self.snake@ == snake_of(self.raw@) && self.pascal@ == pascal_of(self.raw@)
    }
}

/// Lower-cases one character, ASCII-only, as `lower_char` states.
fn lower_char_exec(c: char) -> (r: char)
    ensures
        r == lower_char(c),
{
    let u = c as u32;
    if 65 <= u && u <= 90 {
        ((u + 32) as u8) as char
    } else {
        c
    }
}

/// Upper-cases one character, ASCII-only, as `upper_char` states.
fn upper_char_exec(c: char) -> (r: char)
    ensures
        r == upper_char(c),
{
    let u = c as u32;
    if 97 <= u && u <= 122 {
        ((u - 32) as u8) as char
    } else {
        c
    }
}

/// Derives the three name variants of a feature name.
///
/// The feature name must be non-empty ASCII; it is assumed to already be a
/// legal identifier fragment and is not normalized here. A segment of length
/// zero (a leading, trailing or doubled `_`) contributes nothing to the
/// pascal-case variant and is skipped, never indexed.
pub fn derive_context(raw: &str) -> (ctx: NameContext)
    requires
        raw@.len() > 0,
        raw.is_ascii(),
    ensures
        ctx.raw@ == raw@,
        ctx.wf(),
{
    let chars = chars_of(raw);
    let n = chars.len();

    let mut snake: Vec<char> = Vec::new();
    let mut i: usize = 0;
    while i < n
        invariant
            n == chars@.len(),
            i <= n,
            snake@.len() == i,
            forall|j: int| 0 <= j < i ==> snake@[j] == snake_char(chars@[j]),
        decreases n - i,
    {
        let c = chars[i];
        if c == '-' {
            snake.push('_');
        } else {
            snake.push(lower_char_exec(c));
        }
        i = i + 1;
    }
    proof {
        assert(snake@ =~= snake_of(chars@));
    }

    let mut pascal: Vec<char> = Vec::new();
    let mut boundary: bool = true;
    let mut k: usize = 0;
    proof {
        assert(chars@.skip(0) =~= chars@);
        assert(pascal@ + pascal_rec(chars@, true) =~= pascal_rec(chars@, true));
    }
    while k < n
        invariant
            n == chars@.len(),
            k <= n,
            pascal_of(chars@) == pascal@ + pascal_rec(chars@.skip(k as int), boundary),
        decreases n - k,
    {
        let ghost rest = chars@.skip(k as int);
        proof {
            assert(rest[0] == chars@[k as int]);
            assert(rest.drop_first() =~= chars@.skip(k as int + 1));
        }
        let c = chars[k];
        if c == '_' {
            boundary = true;
        } else {
            if boundary {
                pascal.push(upper_char_exec(c));
            } else {
                pascal.push(c);
            }
            boundary = false;
        }
        k = k + 1;
        proof {
            assert(pascal_of(chars@) =~= pascal@ + pascal_rec(chars@.skip(k as int), boundary));
        }
    }
    proof {
        assert(chars@.skip(n as int) =~= Seq::<char>::empty());
        assert(pascal_of(chars@) =~= pascal@);
    }

    NameContext {
        raw: raw.to_owned(),
        snake: chars_to_string(&snake),
        pascal: chars_to_string(&pascal),
    }
}

/// The snake-case variant is exactly the lower-casing of the name with `-`
/// folded to `_`: folding separators and lower-casing commute into the
/// single pointwise definition, for every name.
pub proof fn lemma_snake_is_lower_of_folded(s: Seq<char>)
    ensures
        snake_of(s) == lower_of(fold_dashes(s)),
{
    assert forall|i: int| 0 <= i < s.len() implies snake_of(s)[i] == lower_of(fold_dashes(s))[i]
    by {
        if s[i] == '-' {
            assert(lower_char('_') == '_');
        }
    }
    assert(snake_of(s) =~= lower_of(fold_dashes(s)));
}

/// The pascal-case variant never contains the separator `_`, for every name.
pub proof fn lemma_pascal_no_separator(s: Seq<char>, boundary: bool)
    ensures
        forall|i: int| 0 <= i < pascal_rec(s, boundary).len() ==> pascal_rec(s, boundary)[i] != '_',
    decreases s.len(),
{
    if s.len() == 0 {
    } else if s[0] == '_' {
        lemma_pascal_no_separator(s.drop_first(), true);
        assert(pascal_rec(s, boundary) == pascal_rec(s.drop_first(), true));
        assert forall|i: int| 0 <= i < pascal_rec(s, boundary).len() implies pascal_rec(
            s,
            boundary,
        )[i] != '_' by {
            assert(pascal_rec(s, boundary)[i] == pascal_rec(s.drop_first(), true)[i]);
        }
    } else {
        lemma_pascal_no_separator(s.drop_first(), false);
        let head = if boundary { upper_char(s[0]) } else { s[0] };
        let tail = pascal_rec(s.drop_first(), false);
        assert(head != '_') by {
            if 'a' <= s[0] && s[0] <= 'z' {
                assert(((s[0] as u32) - 32) as char != '_');
            }
        }
        assert(pascal_rec(s, boundary) == seq![head] + tail);
        assert forall|i: int| 0 <= i < pascal_rec(s, boundary).len() implies pascal_rec(
            s,
            boundary,
        )[i] != '_' by {
            if i > 0 {
                assert(pascal_rec(s, boundary)[i] == tail[i - 1]);
            }
        }
    }
}

/// Processing a concatenation processes the left part first, then the right
/// part from the boundary state the left part leaves behind.
pub proof fn lemma_pascal_rec_concat(a: Seq<char>, b: Seq<char>, boundary: bool)
    ensures
        pascal_rec(a + b, boundary) == pascal_rec(a, boundary) + pascal_rec(b, pascal_end(a, boundary)),
        pascal_end(a + b, boundary) == pascal_end(b, pascal_end(a, boundary)),
    decreases a.len(),
{
    if a.len() == 0 {
        assert(a + b =~= b);
        assert(pascal_rec(a, boundary) =~= Seq::<char>::empty());
        assert(pascal_rec(a + b, boundary) =~= pascal_rec(a, boundary) + pascal_rec(b, pascal_end(a, boundary)));
    } else {
        assert((a + b).drop_first() =~= a.drop_first() + b);
        assert((a + b)[0] == a[0]);
        if a[0] == '_' {
            lemma_pascal_rec_concat(a.drop_first(), b, true);
        } else {
            lemma_pascal_rec_concat(a.drop_first(), b, false);
            assert(pascal_rec(a + b, boundary) =~= pascal_rec(a, boundary) + pascal_rec(b, pascal_end(a, boundary)));
        }
    }
}

/// A lone `_` contributes no output character and opens a boundary.
proof fn lemma_pascal_rec_lone_separator(boundary: bool)
    ensures
        pascal_rec(seq!['_'], boundary) == Seq::<char>::empty(),
        pascal_end(seq!['_'], boundary) == true,
{
    let s = seq!['_'];
    assert(s.len() == 1 && s[0] == '_');
    assert(s.drop_first() =~= Seq::<char>::empty());
    assert(pascal_rec(Seq::<char>::empty(), true) == Seq::<char>::empty());
    assert(pascal_rec(s, boundary) == pascal_rec(s.drop_first(), true));
    assert(pascal_end(Seq::<char>::empty(), true) == true);
    assert(pascal_end(s, boundary) == pascal_end(s.drop_first(), true));
}

/// Splitting law of the pascal-case variant: a `_` between two parts
/// contributes nothing itself and starts the right part on a fresh segment,
/// so the variant of the whole is the variant of each part, concatenated.
pub proof fn lemma_pascal_splits_on_separator(a: Seq<char>, b: Seq<char>)
    ensures
        pascal_of(a + seq!['_'] + b) == pascal_of(a) + pascal_of(b),
{
    lemma_pascal_rec_concat(a + seq!['_'], b, true);
    lemma_pascal_rec_concat(a, seq!['_'], true);
    lemma_pascal_rec_lone_separator(pascal_end(a, true));
    assert(pascal_rec(a + seq!['_'], true) =~= pascal_of(a));
    assert(pascal_end(a + seq!['_'], true) == true);
    assert(pascal_of(a + seq!['_'] + b) =~= pascal_of(a) + pascal_of(b));
}

/// Capitalization law of one segment: on a non-empty part free of `_`, the
/// pascal-case variant upper-cases the first character and keeps the rest
/// unchanged.
pub proof fn lemma_pascal_of_segment(seg: Seq<char>)
    requires
        seg.len() > 0,
        forall|i: int| 0 <= i < seg.len() ==> seg[i] != '_',
    ensures
        pascal_of(seg) == seq![upper_char(seg[0])] + seg.drop_first(),
{
    lemma_pascal_rec_keeps_tail(seg.drop_first());
}

/// On a part free of `_` and with no boundary open, processing changes
/// nothing.
proof fn lemma_pascal_rec_keeps_tail(s: Seq<char>)
    requires
        forall|i: int| 0 <= i < s.len() ==> s[i] != '_',
    ensures
        pascal_rec(s, false) == s,
    decreases s.len(),
{
    if s.len() == 0 {
        assert(pascal_rec(s, false) =~= s);
    } else {
        lemma_pascal_rec_keeps_tail(s.drop_first());
        assert(pascal_rec(s, false) =~= s);
    }
}

} // verus!
