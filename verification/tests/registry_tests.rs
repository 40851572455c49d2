use rustlay::registry::{logical_names, Template, TemplateRegistry};

fn t(name: &str, body: &str) -> Template {
    Template { name: name.to_string(), body: body.to_string() }
}

fn full_set() -> Vec<Template> {
    logical_names()
        .iter()
        .map(|n| t(n.as_str(), "body"))
        .collect()
}

#[test]
fn load_succeeds_with_all_eight_templates() {
    let reg = TemplateRegistry::load(full_set()).unwrap();
    for name in logical_names() {
        assert_eq!(reg.get(&name), Some("body".to_string()));
    }
}

#[test]
fn load_fails_naming_the_first_missing_template() {
    let ts: Vec<Template> = full_set()
        .into_iter()
        .filter(|t| t.name != "use_case")
        .collect();
    let err = TemplateRegistry::load(ts).unwrap_err();
    assert_eq!(err.missing, "use_case");
}

#[test]
fn load_with_no_templates_misses_the_first_logical_name() {
    let err = TemplateRegistry::load(Vec::new()).unwrap_err();
    assert_eq!(err.missing, "container");
}

#[test]
fn lookup_takes_the_first_match() {
    let mut ts = full_set();
    ts.insert(0, t("container", "first"));
    let reg = TemplateRegistry::load(ts).unwrap();
    assert_eq!(reg.get(&"container".to_string()), Some("first".to_string()));
}

#[test]
fn unknown_names_do_not_resolve() {
    let reg = TemplateRegistry::load(full_set()).unwrap();
    assert_eq!(reg.get(&"no_such_template".to_string()), None);
}
