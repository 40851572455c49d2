use rustlay::names::derive_context;
use rustlay::schema::scaffold_plan;

#[test]
fn scaffold_has_four_layers_with_fixed_subfolder_counts() {
    let ctx = derive_context("user_profile");
    let plan = scaffold_plan(&ctx);
    let root = "src/features/user_profile";
    assert_eq!(plan.dirs.len(), 20);
    assert_eq!(plan.dirs[0], root);
    let layers = ["application", "domain", "infrastructure", "interface"];
    for l in &layers {
        let layer_dir = format!("{}/{}", root, l);
        assert!(plan.dirs.contains(&layer_dir));
    }
    for (l, count) in layers.iter().zip([5usize, 3, 5, 2]) {
        let prefix = format!("{}/{}/", root, l);
        let n = plan.dirs.iter().filter(|d| d.starts_with(&prefix)).count();
        assert_eq!(n, count);
    }
    // one aggregator file per created directory, at mod.rs inside it
    assert_eq!(plan.files.len(), plan.dirs.len());
    for (d, f) in plan.dirs.iter().zip(plan.files.iter()) {
        assert_eq!(f.path, format!("{}/mod.rs", d));
    }
}

#[test]
fn aggregator_contents_follow_the_schema() {
    let ctx = derive_context("user_profile");
    let plan = scaffold_plan(&ctx);
    let get = |p: &str| {
        plan.files
            .iter()
            .find(|f| f.path == p)
            .map(|f| f.content.clone())
            .unwrap()
    };
    let root = "src/features/user_profile";
    assert_eq!(
        get(&format!("{}/mod.rs", root)),
        "pub mod application;\npub mod domain;\npub mod infrastructure;\npub mod interface;"
    );
    assert_eq!(
        get(&format!("{}/application/mod.rs", root)),
        "pub mod di;\npub mod interactor;\npub mod use_case;\npub mod model;\npub mod util;"
    );
    assert_eq!(get(&format!("{}/application/di/mod.rs", root)), "pub mod container;");
    assert_eq!(
        get(&format!("{}/application/interactor/mod.rs", root)),
        "pub mod i_user_profile_interactor;"
    );
    assert_eq!(
        get(&format!("{}/application/use_case/mod.rs", root)),
        "pub mod user_profile_use_case;"
    );
    assert_eq!(get(&format!("{}/application/model/mod.rs", root)), "");
    assert_eq!(get(&format!("{}/application/util/mod.rs", root)), "");
    assert_eq!(
        get(&format!("{}/domain/mod.rs", root)),
        "pub mod interactor;\npub mod repository;\npub mod entity;"
    );
    assert_eq!(
        get(&format!("{}/domain/interactor/mod.rs", root)),
        "pub mod user_profile_interactor_impl;"
    );
    assert_eq!(
        get(&format!("{}/domain/repository/mod.rs", root)),
        "pub mod i_user_profile_repository;"
    );
    assert_eq!(get(&format!("{}/domain/entity/mod.rs", root)), "");
    assert_eq!(
        get(&format!("{}/infrastructure/mod.rs", root)),
        "pub mod data_access;\npub mod dto;\npub mod enum;\npub mod mapper;\npub mod repository;"
    );
    assert_eq!(
        get(&format!("{}/infrastructure/data_access/mod.rs", root)),
        "pub mod user_profile_data_source;"
    );
    assert_eq!(get(&format!("{}/infrastructure/dto/mod.rs", root)), "");
    assert_eq!(get(&format!("{}/infrastructure/enum/mod.rs", root)), "");
    assert_eq!(get(&format!("{}/infrastructure/mapper/mod.rs", root)), "");
    assert_eq!(
        get(&format!("{}/infrastructure/repository/mod.rs", root)),
        "pub mod user_profile_repository_impl;"
    );
    assert_eq!(
        get(&format!("{}/interface/mod.rs", root)),
        "pub mod controller;\npub mod model;"
    );
    assert_eq!(
        get(&format!("{}/interface/controller/mod.rs", root)),
        "pub mod user_profile_controller;"
    );
    assert_eq!(get(&format!("{}/interface/model/mod.rs", root)), "");
}

#[test]
fn feature_root_uses_the_snake_case_name() {
    let ctx = derive_context("Order-Item");
    let plan = scaffold_plan(&ctx);
    assert_eq!(plan.dirs[0], "src/features/order_item");
}
