//! The template registry: the fixed set of named template sources.
//!
//! A generation run needs exactly eight logical templates. Whatever the
//! caller loaded them from — a compiled-in bundle or files a configuration
//! names — the registry receives plain `(logical name, template text)`
//! pairs and checks, before anything is rendered or written, that every
//! logical name resolves. A missing name fails the whole run at once: there
//! is no partial template set.
use vstd::prelude::*;
use vstd::string::*;

verus! {

/// One named template source: a logical name and its template text.
#[derive(Debug)]
pub struct Template {
    /// The logical name the template is looked up by.
    pub name: String,
    /// The template text.
    pub body: String,
}

/// The fixed logical template names, in their fixed order.
pub open spec fn logical_name(k: int) -> Seq<char> {
    if k == 0 {
        "container"@
    } else if k == 1 {
        "i_interactor"@
    } else if k == 2 {
        "use_case"@
    } else if k == 3 {
        "i_repository"@
    } else if k == 4 {
        "interactor_impl"@
    } else if k == 5 {
        "data_source"@
    } else if k == 6 {
        "repository_impl"@
    } else {
        "controller"@
    }
}

/// The body of the first template with the given name, if any.
pub open spec fn lookup(ts: Seq<Template>, name: Seq<char>) -> Option<Seq<char>>
    decreases ts.len(),
{
    if ts.len() == 0 {
        None
    } else if ts[0].name@ == name {
        Some(ts[0].body@)
    } else {
        lookup(ts.drop_first(), name)
    }
}

/// Whether a template with the given name exists.
pub open spec fn has_template(ts: Seq<Template>, name: Seq<char>) -> bool {
    lookup(ts, name) is Some
}

/// Whether every one of the eight logical templates has a source.
pub open spec fn registry_complete(ts: Seq<Template>) -> bool {
    forall|k: int| 0 <= k < 8 ==> has_template(ts, #[trigger] logical_name(k))
}

/// The first position at or after `k` whose logical template is missing;
/// 8 when none is.
pub open spec fn first_missing_from(ts: Seq<Template>, k: int) -> int
    decreases 8 - k,
{
    if k < 0 || k >= 8 {
        8
    } else if !has_template(ts, logical_name(k)) {
        k
    } else {
        first_missing_from(ts, k + 1)
    }
}

/// A failed template load: a logical template has no source.
#[derive(Debug)]
pub struct TemplateLoadError {
    /// The first logical name with no source.
    pub missing: String,
}

/// The eight logical names a run must resolve, in their fixed order.
pub fn logical_names() -> (v: Vec<String>)
    ensures
        v@.len() == 8,
        forall|k: int| 0 <= k < 8 ==> v@[k]@ == logical_name(k),
{
    let mut v: Vec<String> = Vec::new();
    v.push("container".to_owned());
    v.push("i_interactor".to_owned());
    v.push("use_case".to_owned());
    v.push("i_repository".to_owned());
    v.push("interactor_impl".to_owned());
    v.push("data_source".to_owned());
    v.push("repository_impl".to_owned());
    v.push("controller".to_owned());
    v
}

/// The body of the first template with the given name, if any.
pub fn find_template(ts: &Vec<Template>, name: &String) -> (r: Option<String>)
    ensures
        match lookup(ts@, name@) {
            Some(body) => r matches Some(b) && b@ == body,
            None => r is None,
        },
{
    let n = ts.len();
    let mut i: usize = 0;
    proof {
        assert(ts@.skip(0) =~= ts@);
    }
    while i < n
        invariant
            n == ts@.len(),
            i <= n,
            lookup(ts@.skip(i as int), name@) == lookup(ts@, name@),
        decreases n - i,
    {
        proof {
            assert(ts@.skip(i as int)[0] == ts@[i as int]);
            assert(ts@.skip(i as int).drop_first() =~= ts@.skip(i as int + 1));
        }
        let t = &ts[i];
        if t.name == *name {
            return Some(t.body.clone());
        }
        i = i + 1;
    }
    proof {
        assert(ts@.skip(n as int) =~= Seq::<Template>::empty());
    }
    None
}

/// The registry: the template sources of one generation run, checked to
/// resolve every logical name.
#[derive(Debug)]
pub struct TemplateRegistry {
    /// The `(logical name, template text)` pairs the run was given.
    pub templates: Vec<Template>,
}

impl TemplateRegistry {
    /// Every logical template resolves in this registry.
    pub open spec fn complete(self) -> bool {
        registry_complete(self.templates@)
    }

    /// Checks the given template sources and builds the registry.
    ///
    /// Succeeds exactly when every one of the eight logical names has a
    /// source; otherwise fails naming the first missing logical name,
    /// before anything is rendered or written.
    pub fn load(templates: Vec<Template>) -> (r: Result<TemplateRegistry, TemplateLoadError>)
        ensures
            r is Ok <==> registry_complete(templates@),
            r matches Ok(reg) ==> reg.templates@ == templates@ && reg.complete(),
            r matches Err(e) ==> e.missing@ == logical_name(first_missing_from(templates@, 0)),
    {
        let names = logical_names();
        let mut k: usize = 0;
        while k < 8
            invariant
                k <= 8,
                names@.len() == 8,
                forall|j: int| 0 <= j < 8 ==> names@[j]@ == logical_name(j),
                forall|j: int| 0 <= j < k ==> has_template(templates@, #[trigger] logical_name(j)),
            decreases 8 - k,
        {
            let found = find_template(&templates, &names[k]);
            if found.is_none() {
                proof {
                    assert(names@[k as int]@ == logical_name(k as int));
                    assert(lookup(templates@, logical_name(k as int)) is None);
                    assert(!has_template(templates@, logical_name(k as int)));
                    assert(!registry_complete(templates@));
                    lemma_first_missing_here(templates@, 0, k as int);
                }
                return Err(TemplateLoadError { missing: names[k].clone() });
            }
            k = k + 1;
        }
        Ok(TemplateRegistry { templates })
    }

    /// The body of the template with the given logical name, if any.
    pub fn get(&self, name: &String) -> (r: Option<String>)
        ensures
            match lookup(self.templates@, name@) {
                Some(body) => r matches Some(b) && b@ == body,
                None => r is None,
            },
    {
        find_template(&self.templates, name)
    }
}

/// When every logical name before `k` resolves and `k`'s does not, `k` is
/// the first missing position.
proof fn lemma_first_missing_here(ts: Seq<Template>, m: int, k: int)
    requires
        0 <= m <= k < 8,
        forall|j: int| m <= j < k ==> has_template(ts, #[trigger] logical_name(j)),
        !has_template(ts, logical_name(k)),
    ensures
        first_missing_from(ts, m) == k,
    decreases k - m,
{
    if m < k {
        lemma_first_missing_here(ts, m + 1, k);
    }
}

} // verus!
