//! The layer schema and the scaffolder.
//!
//! The schema is a fixed table: four layers, each with an ordered set of
//! subfolders, and for some subfolders the content of that subfolder's
//! aggregator file. It is configuration data — it never changes at runtime.
//! The scaffolder walks the table and produces, for a feature, the
//! directories to create and every aggregator file to write: one per
//! directory, empty where the table lists no content. Re-running the
//! scaffolder for the same feature yields the same paths, so a caller that
//! persists the plan overwrites the previous run's files unconditionally;
//! that overwrite-on-regenerate behaviour is deliberate.
use vstd::prelude::*;
use vstd::string::*;
use crate::names::NameContext;
use crate::text::{concat2, concat3, concat4};

verus! {

/// A file ready to persist: its destination path and its full content.
pub struct GeneratedFile {
    /// The destination path, relative to the working directory.
    pub path: String,
    /// The content to write.
    pub content: String,
}

/// The four layer names, in their fixed order.
pub open spec fn layer_names() -> Seq<Seq<char>> {
    seq!["application"@, "domain"@, "infrastructure"@, "interface"@]
}

/// The ordered subfolder names of one layer.
pub open spec fn subfolders_of(l: int) -> Seq<Seq<char>> {
    if l == 0 {
        seq!["di"@, "interactor"@, "use_case"@, "model"@, "util"@]
    } else if l == 1 {
        seq!["interactor"@, "repository"@, "entity"@]
    } else if l == 2 {
        seq!["data_access"@, "dto"@, "enum"@, "mapper"@, "repository"@]
    } else {
        seq!["controller"@, "model"@]
    }
}

/// One re-export declaration per given name, one line each.
pub open spec fn mod_decls(names: Seq<Seq<char>>) -> Seq<char>
    decreases names.len(),
{
    if names.len() == 0 {
        Seq::<char>::empty()
    } else if names.len() == 1 {
        "pub mod "@ + names[0] + ";"@
    } else {
        "pub mod "@ + names[0] + ";\n"@ + mod_decls(names.drop_first())
    }
}

/// The content of one subfolder's aggregator file: a re-export of the
/// feature's source file there, or empty where the table lists none.
pub open spec fn subfolder_aggregator(l: int, s: int, snake: Seq<char>) -> Seq<char> {
    if l == 0 && s == 0 {
        "pub mod container;"@
    } else if l == 0 && s == 1 {
        "pub mod i_"@ + snake + "_interactor;"@
    } else if l == 0 && s == 2 {
        "pub mod "@ + snake + "_use_case;"@
    } else if l == 1 && s == 0 {
        "pub mod "@ + snake + "_interactor_impl;"@
    } else if l == 1 && s == 1 {
        "pub mod i_"@ + snake + "_repository;"@
    } else if l == 2 && s == 0 {
        "pub mod "@ + snake + "_data_source;"@
    } else if l == 2 && s == 4 {
        "pub mod "@ + snake + "_repository_impl;"@
    } else if l == 3 && s == 0 {
        "pub mod "@ + snake + "_controller;"@
    } else {
        Seq::<char>::empty()
    }
}

/// The feature's root directory.
pub open spec fn root_of(snake: Seq<char>) -> Seq<char> {
    "src/features/"@ + snake
}

/// One layer's directory.
pub open spec fn layer_dir(snake: Seq<char>, l: int) -> Seq<char> {
    root_of(snake) + "/"@ + layer_names()[l]
}

/// One subfolder's directory.
pub open spec fn subfolder_dir(snake: Seq<char>, l: int, s: int) -> Seq<char> {
    layer_dir(snake, l) + "/"@ + subfolders_of(l)[s]
}

/// An aggregator file's path inside its directory.
pub open spec fn aggregator_path(dir: Seq<char>) -> Seq<char> {
    dir + "/mod.rs"@
}

/// Every directory the scaffolder creates, in creation order: the feature
/// root, then each layer in order, each followed by its subfolders in
/// order.
pub open spec fn dir_paths(snake: Seq<char>) -> Seq<Seq<char>> {
    seq![
        root_of(snake),
        layer_dir(snake, 0),
        subfolder_dir(snake, 0, 0),
        subfolder_dir(snake, 0, 1),
        subfolder_dir(snake, 0, 2),
        subfolder_dir(snake, 0, 3),
        subfolder_dir(snake, 0, 4),
        layer_dir(snake, 1),
        subfolder_dir(snake, 1, 0),
        subfolder_dir(snake, 1, 1),
        subfolder_dir(snake, 1, 2),
        layer_dir(snake, 2),
        subfolder_dir(snake, 2, 0),
        subfolder_dir(snake, 2, 1),
        subfolder_dir(snake, 2, 2),
        subfolder_dir(snake, 2, 3),
        subfolder_dir(snake, 2, 4),
        layer_dir(snake, 3),
        subfolder_dir(snake, 3, 0),
        subfolder_dir(snake, 3, 1),
    ]
}

/// The aggregator file of each directory of `dir_paths`, in the same
/// order: the feature root re-exports the four layers, a layer re-exports
/// its subfolders, a subfolder re-exports the feature's source file there
/// or is empty.
pub open spec fn aggregator_files(snake: Seq<char>) -> Seq<(Seq<char>, Seq<char>)> {
    seq![
        (aggregator_path(root_of(snake)), mod_decls(layer_names())),
        (aggregator_path(layer_dir(snake, 0)), mod_decls(subfolders_of(0))),
        (aggregator_path(subfolder_dir(snake, 0, 0)), subfolder_aggregator(0, 0, snake)),
        (aggregator_path(subfolder_dir(snake, 0, 1)), subfolder_aggregator(0, 1, snake)),
        (aggregator_path(subfolder_dir(snake, 0, 2)), subfolder_aggregator(0, 2, snake)),
        (aggregator_path(subfolder_dir(snake, 0, 3)), subfolder_aggregator(0, 3, snake)),
        (aggregator_path(subfolder_dir(snake, 0, 4)), subfolder_aggregator(0, 4, snake)),
        (aggregator_path(layer_dir(snake, 1)), mod_decls(subfolders_of(1))),
        (aggregator_path(subfolder_dir(snake, 1, 0)), subfolder_aggregator(1, 0, snake)),
        (aggregator_path(subfolder_dir(snake, 1, 1)), subfolder_aggregator(1, 1, snake)),
        (aggregator_path(subfolder_dir(snake, 1, 2)), subfolder_aggregator(1, 2, snake)),
        (aggregator_path(layer_dir(snake, 2)), mod_decls(subfolders_of(2))),
        (aggregator_path(subfolder_dir(snake, 2, 0)), subfolder_aggregator(2, 0, snake)),
        (aggregator_path(subfolder_dir(snake, 2, 1)), subfolder_aggregator(2, 1, snake)),
        (aggregator_path(subfolder_dir(snake, 2, 2)), subfolder_aggregator(2, 2, snake)),
        (aggregator_path(subfolder_dir(snake, 2, 3)), subfolder_aggregator(2, 3, snake)),
        (aggregator_path(subfolder_dir(snake, 2, 4)), subfolder_aggregator(2, 4, snake)),
        (aggregator_path(layer_dir(snake, 3)), mod_decls(subfolders_of(3))),
        (aggregator_path(subfolder_dir(snake, 3, 0)), subfolder_aggregator(3, 0, snake)),
        (aggregator_path(subfolder_dir(snake, 3, 1)), subfolder_aggregator(3, 1, snake)),
    ]
}

/// Whether the strings hold exactly the given texts, in order.
pub open spec fn strings_match(v: Seq<String>, s: Seq<Seq<char>>) -> bool {
    v.len() == s.len() && forall|i: int| 0 <= i < v.len() ==> v[i]@ == s[i]
}

/// Whether the files hold exactly the given `(path, content)` pairs, in
/// order.
pub open spec fn files_match(v: Seq<GeneratedFile>, s: Seq<(Seq<char>, Seq<char>)>) -> bool {
    v.len() == s.len() && forall|i: int|
        0 <= i < v.len() ==> (#[trigger] v[i]).path@ == s[i].0 && v[i].content@ == s[i].1
}

/// The scaffolder's output for one feature: the directories to create and
/// the aggregator files to write, in order.
pub struct ScaffoldPlan {
    /// Every directory to create, in creation order.
    pub dirs: Vec<String>,
    /// Every aggregator file to write, one per directory, in the same
    /// order.
    pub files: Vec<GeneratedFile>,
}

/// Walks the layer schema and produces the scaffold of a feature: every
/// directory and every aggregator file, exactly as `dir_paths` and
/// `aggregator_files` state.
pub fn scaffold_plan(ctx: &NameContext) -> (p: ScaffoldPlan)
    ensures
        strings_match(p.dirs@, dir_paths(ctx.snake@)),
        files_match(p.files@, aggregator_files(ctx.snake@)),
{
    let root = concat2("src/features/", ctx.snake.as_str());
    let d_app = concat3(root.as_str(), "/", "application");
    let d_app_di = concat3(d_app.as_str(), "/", "di");
    let d_app_interactor = concat3(d_app.as_str(), "/", "interactor");
    let d_app_use_case = concat3(d_app.as_str(), "/", "use_case");
    let d_app_model = concat3(d_app.as_str(), "/", "model");
    let d_app_util = concat3(d_app.as_str(), "/", "util");
    let d_dom = concat3(root.as_str(), "/", "domain");
    let d_dom_interactor = concat3(d_dom.as_str(), "/", "interactor");
    let d_dom_repository = concat3(d_dom.as_str(), "/", "repository");
    let d_dom_entity = concat3(d_dom.as_str(), "/", "entity");
    let d_inf = concat3(root.as_str(), "/", "infrastructure");
    let d_inf_data_access = concat3(d_inf.as_str(), "/", "data_access");
    let d_inf_dto = concat3(d_inf.as_str(), "/", "dto");
    let d_inf_enum = concat3(d_inf.as_str(), "/", "enum");
    let d_inf_mapper = concat3(d_inf.as_str(), "/", "mapper");
    let d_inf_repository = concat3(d_inf.as_str(), "/", "repository");
    let d_int = concat3(root.as_str(), "/", "interface");
    let d_int_controller = concat3(d_int.as_str(), "/", "controller");
    let d_int_model = concat3(d_int.as_str(), "/", "model");

    let snake = ctx.snake.as_str();
    let mut files: Vec<GeneratedFile> = Vec::new();
    files.push(
        GeneratedFile {
            path: concat2(root.as_str(), "/mod.rs"),
            content: layer_list_content(),
        },
    );
    files.push(
        GeneratedFile {
            path: concat2(d_app.as_str(), "/mod.rs"),
            content: application_list_content(),
        },
    );
    files.push(
        GeneratedFile {
            path: concat2(d_app_di.as_str(), "/mod.rs"),
            content: "pub mod container;".to_owned(),
        },
    );
    files.push(
        GeneratedFile {
            path: concat2(d_app_interactor.as_str(), "/mod.rs"),
            content: concat3("pub mod i_", snake, "_interactor;"),
        },
    );
    files.push(
        GeneratedFile {
            path: concat2(d_app_use_case.as_str(), "/mod.rs"),
            content: concat3("pub mod ", snake, "_use_case;"),
        },
    );
    files.push(
        GeneratedFile { path: concat2(d_app_model.as_str(), "/mod.rs"), content: String::new() },
    );
    files.push(
        GeneratedFile { path: concat2(d_app_util.as_str(), "/mod.rs"), content: String::new() },
    );
    files.push(
        GeneratedFile {
            path: concat2(d_dom.as_str(), "/mod.rs"),
            content: domain_list_content(),
        },
    );
    files.push(
        GeneratedFile {
            path: concat2(d_dom_interactor.as_str(), "/mod.rs"),
            content: concat3("pub mod ", snake, "_interactor_impl;"),
        },
    );
    files.push(
        GeneratedFile {
            path: concat2(d_dom_repository.as_str(), "/mod.rs"),
            content: concat3("pub mod i_", snake, "_repository;"),
        },
    );
    files.push(
        GeneratedFile { path: concat2(d_dom_entity.as_str(), "/mod.rs"), content: String::new() },
    );
    files.push(
        GeneratedFile {
            path: concat2(d_inf.as_str(), "/mod.rs"),
            content: infrastructure_list_content(),
        },
    );
    files.push(
        GeneratedFile {
            path: concat2(d_inf_data_access.as_str(), "/mod.rs"),
            content: concat3("pub mod ", snake, "_data_source;"),
        },
    );
    files.push(
        GeneratedFile { path: concat2(d_inf_dto.as_str(), "/mod.rs"), content: String::new() },
    );
    files.push(
        GeneratedFile { path: concat2(d_inf_enum.as_str(), "/mod.rs"), content: String::new() },
    );
    files.push(
        GeneratedFile { path: concat2(d_inf_mapper.as_str(), "/mod.rs"), content: String::new() },
    );
    files.push(
        GeneratedFile {
            path: concat2(d_inf_repository.as_str(), "/mod.rs"),
            content: concat3("pub mod ", snake, "_repository_impl;"),
        },
    );
    files.push(
        GeneratedFile {
            path: concat2(d_int.as_str(), "/mod.rs"),
            content: interface_list_content(),
        },
    );
    files.push(
        GeneratedFile {
            path: concat2(d_int_controller.as_str(), "/mod.rs"),
            content: concat3("pub mod ", snake, "_controller;"),
        },
    );
    files.push(
        GeneratedFile { path: concat2(d_int_model.as_str(), "/mod.rs"), content: String::new() },
    );

    let mut dirs: Vec<String> = Vec::new();
    dirs.push(root);
    dirs.push(d_app);
    dirs.push(d_app_di);
    dirs.push(d_app_interactor);
    dirs.push(d_app_use_case);
    dirs.push(d_app_model);
    dirs.push(d_app_util);
    dirs.push(d_dom);
    dirs.push(d_dom_interactor);
    dirs.push(d_dom_repository);
    dirs.push(d_dom_entity);
    dirs.push(d_inf);
    dirs.push(d_inf_data_access);
    dirs.push(d_inf_dto);
    dirs.push(d_inf_enum);
    dirs.push(d_inf_mapper);
    dirs.push(d_inf_repository);
    dirs.push(d_int);
    dirs.push(d_int_controller);
    dirs.push(d_int_model);

    proof {
        assert(strings_match(dirs@, dir_paths(ctx.snake@)));
        assert(files_match(files@, aggregator_files(ctx.snake@)));
    }
    ScaffoldPlan { dirs, files }
}

/// The feature root's aggregator content: a re-export per layer.
fn layer_list_content() -> (r: String)
    ensures
        r@ == mod_decls(layer_names()),
{
    let tail = concat3("pub mod ", "interface", ";");
    let tail = concat4("pub mod ", "infrastructure", ";\n", tail.as_str());
    let tail = concat4("pub mod ", "domain", ";\n", tail.as_str());
    let r = concat4("pub mod ", "application", ";\n", tail.as_str());
    proof {
        lemma_mod_decls_unfold(layer_names());
        lemma_mod_decls_unfold(layer_names().drop_first());
        lemma_mod_decls_unfold(layer_names().drop_first().drop_first());
        lemma_mod_decls_unfold(layer_names().drop_first().drop_first().drop_first());
    }
    r
}

/// The application layer's aggregator content: a re-export per subfolder.
fn application_list_content() -> (r: String)
    ensures
        r@ == mod_decls(subfolders_of(0)),
{
    let tail = concat3("pub mod ", "util", ";");
    let tail = concat4("pub mod ", "model", ";\n", tail.as_str());
    let tail = concat4("pub mod ", "use_case", ";\n", tail.as_str());
    let tail = concat4("pub mod ", "interactor", ";\n", tail.as_str());
    let r = concat4("pub mod ", "di", ";\n", tail.as_str());
    proof {
        lemma_mod_decls_unfold(subfolders_of(0));
        lemma_mod_decls_unfold(subfolders_of(0).drop_first());
        lemma_mod_decls_unfold(subfolders_of(0).drop_first().drop_first());
        lemma_mod_decls_unfold(subfolders_of(0).drop_first().drop_first().drop_first());
        lemma_mod_decls_unfold(subfolders_of(0).drop_first().drop_first().drop_first().drop_first());
    }
    r
}

/// The domain layer's aggregator content: a re-export per subfolder.
fn domain_list_content() -> (r: String)
    ensures
        r@ == mod_decls(subfolders_of(1)),
{
    let tail = concat3("pub mod ", "entity", ";");
    let tail = concat4("pub mod ", "repository", ";\n", tail.as_str());
    let r = concat4("pub mod ", "interactor", ";\n", tail.as_str());
    proof {
        lemma_mod_decls_unfold(subfolders_of(1));
        lemma_mod_decls_unfold(subfolders_of(1).drop_first());
        lemma_mod_decls_unfold(subfolders_of(1).drop_first().drop_first());
    }
    r
}

/// The infrastructure layer's aggregator content: a re-export per
/// subfolder.
fn infrastructure_list_content() -> (r: String)
    ensures
        r@ == mod_decls(subfolders_of(2)),
{
    let tail = concat3("pub mod ", "repository", ";");
    let tail = concat4("pub mod ", "mapper", ";\n", tail.as_str());
    let tail = concat4("pub mod ", "enum", ";\n", tail.as_str());
    let tail = concat4("pub mod ", "dto", ";\n", tail.as_str());
    let r = concat4("pub mod ", "data_access", ";\n", tail.as_str());
    proof {
        lemma_mod_decls_unfold(subfolders_of(2));
        lemma_mod_decls_unfold(subfolders_of(2).drop_first());
        lemma_mod_decls_unfold(subfolders_of(2).drop_first().drop_first());
        lemma_mod_decls_unfold(subfolders_of(2).drop_first().drop_first().drop_first());
        lemma_mod_decls_unfold(subfolders_of(2).drop_first().drop_first().drop_first().drop_first());
    }
    r
}

/// The interface layer's aggregator content: a re-export per subfolder.
fn interface_list_content() -> (r: String)
    ensures
        r@ == mod_decls(subfolders_of(3)),
{
    let tail = concat3("pub mod ", "model", ";");
    let r = concat4("pub mod ", "controller", ";\n", tail.as_str());
    proof {
        lemma_mod_decls_unfold(subfolders_of(3));
        lemma_mod_decls_unfold(subfolders_of(3).drop_first());
    }
    r
}

/// One unfolding step of `mod_decls`.
proof fn lemma_mod_decls_unfold(names: Seq<Seq<char>>)
    ensures
        names.len() == 0 ==> mod_decls(names) == Seq::<char>::empty(),
        names.len() == 1 ==> mod_decls(names) == "pub mod "@ + names[0] + ";"@,
        names.len() > 1 ==> mod_decls(names) == "pub mod "@ + names[0] + ";\n"@ + mod_decls(
            names.drop_first(),
        ),
{
}

/// Shape law of the scaffold: four layers with subfolder counts 5, 3, 5
/// and 2; the plan creates the feature root, the four layer directories
/// and every subfolder directory, and writes exactly one aggregator file
/// per created directory, at `mod.rs` inside it.
#[verifier::rlimit(50)]
pub proof fn lemma_scaffold_shape(snake: Seq<char>)
    ensures
        layer_names().len() == 4,
        subfolders_of(0).len() == 5,
        subfolders_of(1).len() == 3,
        subfolders_of(2).len() == 5,
        subfolders_of(3).len() == 2,
        dir_paths(snake).len() == 20,
        aggregator_files(snake).len() == dir_paths(snake).len(),
        forall|i: int| 0 <= i < 20 ==> aggregator_files(snake)[i].0 == aggregator_path(
            #[trigger] dir_paths(snake)[i],
        ),
        dir_paths(snake)[0] == root_of(snake),
        forall|l: int| 0 <= l < 4 ==> dir_paths(snake).contains(#[trigger] layer_dir(snake, l)),
        forall|l: int, s: int|
            0 <= l < 4 && 0 <= s < subfolders_of(l).len() ==> dir_paths(snake).contains(
                #[trigger] subfolder_dir(snake, l, s),
            ),
{
    assert forall|l: int| 0 <= l < 4 implies dir_paths(snake).contains(
        #[trigger] layer_dir(snake, l),
    ) by {
        if l == 0 {
            assert(dir_paths(snake)[1] == layer_dir(snake, 0));
        } else if l == 1 {
            assert(dir_paths(snake)[7] == layer_dir(snake, 1));
        } else if l == 2 {
            assert(dir_paths(snake)[11] == layer_dir(snake, 2));
        } else {
            assert(dir_paths(snake)[17] == layer_dir(snake, 3));
        }
    }
    assert forall|l: int, s: int|
        0 <= l < 4 && 0 <= s < subfolders_of(l).len() implies dir_paths(snake).contains(
        #[trigger] subfolder_dir(snake, l, s),
    ) by {
        if l == 0 {
            assert(dir_paths(snake)[2 + s] == subfolder_dir(snake, 0, s));
        } else if l == 1 {
            assert(dir_paths(snake)[8 + s] == subfolder_dir(snake, 1, s));
        } else if l == 2 {
            assert(dir_paths(snake)[12 + s] == subfolder_dir(snake, 2, s));
        } else {
            assert(dir_paths(snake)[18 + s] == subfolder_dir(snake, 3, s));
        }
    }
}

} // verus!
