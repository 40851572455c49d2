use rustlay::generate::{generate, GenerateError};
use rustlay::registry::Template;
use rustlay::render::RenderErrorKind;

fn t(name: &str, body: &str) -> Template {
    Template { name: name.to_string(), body: body.to_string() }
}

fn bundle() -> Vec<Template> {
    vec![
        t("container", "pub struct {{capitalize_feature_name}}Container;"),
        t("i_interactor", "pub trait I{{capitalize_feature_name}}Interactor {}"),
        t("use_case", "pub struct {{capitalize_feature_name}}UseCase;"),
        t("i_repository", "pub trait I{{capitalize_feature_name}}Repository {}"),
        t("interactor_impl", "pub struct {{capitalize_feature_name}}InteractorImpl;"),
        t("data_source", "pub struct {{capitalize_feature_name}}DataSource;"),
        t("repository_impl", "pub struct {{capitalize_feature_name}}RepositoryImpl;"),
        t("controller", "pub struct {{capitalize_feature_name}}Controller; // {{snake_case_feature_name}}"),
    ]
}

#[test]
fn generates_the_full_tree() {
    let g = generate("user_profile", bundle()).unwrap();
    assert_eq!(g.dirs.len(), 20);
    assert_eq!(g.aggregators.len(), 20);
    assert_eq!(g.rendered.len(), 8);

    let expected_paths = [
        "src/features/user_profile/application/di/container.rs",
        "src/features/user_profile/application/interactor/i_user_profile_interactor.rs",
        "src/features/user_profile/application/use_case/user_profile_use_case.rs",
        "src/features/user_profile/domain/repository/i_user_profile_repository.rs",
        "src/features/user_profile/domain/interactor/user_profile_interactor_impl.rs",
        "src/features/user_profile/infrastructure/data_access/user_profile_data_source.rs",
        "src/features/user_profile/infrastructure/repository/user_profile_repository_impl.rs",
        "src/features/user_profile/interface/controller/user_profile_controller.rs",
    ];
    for (f, p) in g.rendered.iter().zip(expected_paths.iter()) {
        assert_eq!(&f.path, p);
    }
    assert_eq!(g.rendered[0].content, "pub struct UserProfileContainer;");
    assert_eq!(g.rendered[1].content, "pub trait IUserProfileInteractor {}");
    assert_eq!(g.rendered[7].content, "pub struct UserProfileController; // user_profile");
}

#[test]
fn regeneration_is_deterministic() {
    // Re-running for the same feature yields the same paths and contents,
    // so persisting the second run overwrites the first without error.
    let a = generate("user_profile", bundle()).unwrap();
    let b = generate("user_profile", bundle()).unwrap();
    assert_eq!(a.dirs, b.dirs);
    assert_eq!(a.aggregators.len(), b.aggregators.len());
    for (x, y) in a.aggregators.iter().zip(b.aggregators.iter()) {
        assert_eq!(x.path, y.path);
        assert_eq!(x.content, y.content);
    }
    assert_eq!(a.rendered.len(), b.rendered.len());
    for (x, y) in a.rendered.iter().zip(b.rendered.iter()) {
        assert_eq!(x.path, y.path);
        assert_eq!(x.content, y.content);
    }
}

#[test]
fn missing_template_fails_before_any_output() {
    let ts: Vec<Template> = bundle()
        .into_iter()
        .filter(|t| t.name != "i_repository")
        .collect();
    match generate("user_profile", ts) {
        Err(GenerateError::TemplateLoad(e)) => assert_eq!(e.missing, "i_repository"),
        _ => panic!("a missing logical template must fail the run"),
    }
}

#[test]
fn failing_render_names_the_template_and_yields_no_files() {
    let mut ts = bundle();
    ts[2].body = "{{not_a_symbol}}".to_string();
    match generate("user_profile", ts) {
        Err(GenerateError::Render(e)) => {
            assert_eq!(e.template, "use_case");
            assert_eq!(e.symbol, "not_a_symbol");
            assert_eq!(e.kind, RenderErrorKind::UndefinedSymbol);
        }
        _ => panic!("an undefined symbol must fail the run"),
    }
}

#[test]
fn hyphenated_feature_lands_under_its_snake_case_root() {
    let g = generate("Order-Item", bundle()).unwrap();
    assert_eq!(g.rendered[0].path, "src/features/order_item/application/di/container.rs");
    assert_eq!(g.rendered[0].content, "pub struct Order-ItemContainer;");
}
