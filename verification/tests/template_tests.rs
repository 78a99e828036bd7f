use indexmap::IndexMap;

use spin_templates::error::TemplateError;
use spin_templates::reader::{
    RawCustomFilter, RawParameter, RawTemplateManifest, RawTemplateManifestV1,
};
use spin_templates::run::RunOptions;
use spin_templates::template::Template;

fn raw_param(data_type: &str, prompt: &str, default: Option<&str>, pattern: Option<&str>) -> RawParameter {
    RawParameter {
        data_type: data_type.to_string(),
        prompt: prompt.to_string(),
        default_value: default.map(|s| s.to_string()),
        pattern: pattern.map(|s| s.to_string()),
    }
}

fn manifest(
    id: &str,
    description: Option<&str>,
    params: Vec<(&str, RawParameter)>,
    filters: Vec<(&str, &str)>,
) -> RawTemplateManifest {
    let parameters = if params.is_empty() {
        None
    } else {
        let mut m: IndexMap<String, RawParameter> = IndexMap::new();
        for (k, v) in params {
            m.insert(k.to_string(), v);
        }
        Some(m)
    };
    let custom_filters = if filters.is_empty() {
        None
    } else {
        Some(
            filters
                .into_iter()
                .map(|(name, wasm)| RawCustomFilter {
                    name: name.to_string(),
                    wasm: wasm.to_string(),
                })
                .collect(),
        )
    };
    RawTemplateManifest::V1(RawTemplateManifestV1 {
        id: id.to_string(),
        description: description.map(|s| s.to_string()),
        parameters,
        custom_filters,
    })
}

fn wasm_module() -> Vec<u8> {
    vec![0x00, 0x61, 0x73, 0x6d, 0x01, 0x00, 0x00, 0x00, 0x0a, 0x0b]
}

#[test]
fn parameters_keep_count_order_and_fields() {
    let raw = manifest(
        "demo",
        Some("a demo"),
        vec![
            ("alpha", raw_param("string", "First?", Some("one"), None)),
            ("beta", raw_param("string", "Second?", None, Some("^[a-z]+$"))),
            ("gamma", raw_param("string", "Third?", Some("3"), None)),
        ],
        vec![],
    );
    let t = Template::load_from_parts(raw, None, Vec::new()).unwrap();
    let params = t.parameters();
    assert_eq!(params.len(), 3);
    assert_eq!(params[0].id(), "alpha");
    assert_eq!(params[1].id(), "beta");
    assert_eq!(params[2].id(), "gamma");
    assert_eq!(params[0].prompt(), "First?");
    assert_eq!(params[1].prompt(), "Second?");
    assert_eq!(params[2].prompt(), "Third?");
    assert_eq!(params[0].default_value(), &Some("one".to_string()));
    assert_eq!(params[1].default_value(), &None);
    assert_eq!(params[2].default_value(), &Some("3".to_string()));
}

#[test]
fn no_pattern_accepts_any_value_unchanged() {
    let raw = manifest(
        "demo",
        None,
        vec![("free", raw_param("string", "Anything?", None, None))],
        vec![],
    );
    let t = Template::load_from_parts(raw, None, Vec::new()).unwrap();
    let p = t.parameter("free").unwrap();
    let odd = "  Some!! value @@ with anything 123  ";
    assert_eq!(p.validate_value(odd).unwrap(), odd.to_string());
    assert_eq!(p.validate_value("").unwrap(), "".to_string());
}

#[test]
fn pattern_accepts_full_match_and_rejects_others() {
    let raw = manifest(
        "demo",
        None,
        vec![("name", raw_param("string", "Name?", None, Some("^[a-z0-9-]+$")))],
        vec![],
    );
    let t = Template::load_from_parts(raw, None, Vec::new()).unwrap();
    let p = t.parameter("name").unwrap();
    assert_eq!(p.validate_value("my-app").unwrap(), "my-app".to_string());
    match p.validate_value("My App!") {
        Err(TemplateError::ValueMismatch { parameter, pattern, value }) => {
            assert_eq!(parameter, "name".to_string());
            assert_eq!(pattern, "^[a-z0-9-]+$".to_string());
            assert_eq!(value, "My App!".to_string());
        }
        other => panic!("expected a value mismatch naming the parameter, got {:?}", other.is_ok()),
    }
}

#[test]
fn partial_match_is_rejected() {
    let raw = manifest(
        "demo",
        None,
        vec![("word", raw_param("string", "Word?", None, Some("[a-z]+")))],
        vec![],
    );
    let t = Template::load_from_parts(raw, None, Vec::new()).unwrap();
    let p = t.parameter("word").unwrap();
    assert!(p.validate_value("hello").is_ok());
    assert!(p.validate_value("hello1").is_err());
}

#[test]
fn unrecognized_data_type_fails_whole_load() {
    let raw = manifest(
        "demo",
        None,
        vec![
            ("ok-one", raw_param("string", "Fine?", None, None)),
            ("bad-one", raw_param("integer", "Count?", None, None)),
        ],
        vec![],
    );
    match Template::load_from_parts(raw, None, Vec::new()) {
        Err(TemplateError::UnrecognizedDataType { parameter, data_type }) => {
            assert_eq!(parameter, "bad-one".to_string());
            assert_eq!(data_type, "integer".to_string());
        }
        other => panic!("expected the whole load to fail, got ok={}", other.is_ok()),
    }
}

#[test]
fn invalid_pattern_fails_load_naming_pattern() {
    let raw = manifest(
        "demo",
        None,
        vec![("p", raw_param("string", "P?", None, Some("(unclosed")))],
        vec![],
    );
    match Template::load_from_parts(raw, None, Vec::new()) {
        Err(TemplateError::InvalidPattern { parameter, pattern }) => {
            assert_eq!(parameter, "p".to_string());
            assert_eq!(pattern, "(unclosed".to_string());
        }
        other => panic!("expected an invalid-pattern fault, got ok={}", other.is_ok()),
    }
}

#[test]
fn missing_filter_module_fails_load_naming_filter_and_path() {
    let raw = manifest("demo", None, vec![], vec![("shout", "shout.wasm")]);
    let modules = vec![("/templates/demo/filters/shout.wasm".to_string(), None)];
    match Template::load_from_parts(raw, None, modules) {
        Err(TemplateError::FilterNotFound { name, path }) => {
            assert_eq!(name, "shout".to_string());
            assert_eq!(path, "/templates/demo/filters/shout.wasm".to_string());
        }
        other => panic!("expected a missing-module fault, got ok={}", other.is_ok()),
    }
}

#[test]
fn invalid_filter_module_fails_load() {
    let raw = manifest("demo", None, vec![], vec![("shout", "shout.wasm")]);
    let modules = vec![(
        "/templates/demo/filters/shout.wasm".to_string(),
        Some(b"not a module".to_vec()),
    )];
    match Template::load_from_parts(raw, None, modules) {
        Err(TemplateError::InvalidFilterModule { name, path }) => {
            assert_eq!(name, "shout".to_string());
            assert_eq!(path, "/templates/demo/filters/shout.wasm".to_string());
        }
        other => panic!("expected an invalid-module fault, got ok={}", other.is_ok()),
    }
}

#[test]
fn valid_filter_module_loads_and_answers_to_its_name() {
    let raw = manifest("demo", None, vec![], vec![("shout", "shout.wasm")]);
    let modules = vec![("/templates/demo/filters/shout.wasm".to_string(), Some(wasm_module()))];
    let t = Template::load_from_parts(raw, None, modules).unwrap();
    let filters = t.custom_filters();
    assert_eq!(filters.len(), 1);
    assert_eq!(filters[0].name(), "shout");
    assert_eq!(filters[0].path(), "/templates/demo/filters/shout.wasm");
    assert_eq!(filters[0].module(), &wasm_module());
}

#[test]
fn unset_default_loads_and_is_never_validated() {
    let raw = manifest(
        "demo",
        None,
        vec![("n", raw_param("string", "N?", None, Some("^[0-9]+$")))],
        vec![],
    );
    let t = Template::load_from_parts(raw, None, Vec::new()).unwrap();
    assert_eq!(t.parameter("n").unwrap().default_value(), &None);
}

#[test]
fn invalid_default_still_loads_and_fails_only_on_use() {
    let raw = manifest(
        "demo",
        None,
        vec![("n", raw_param("string", "N?", Some("not a number"), Some("^[0-9]+$")))],
        vec![],
    );
    let t = Template::load_from_parts(raw, None, Vec::new()).unwrap();
    let p = t.parameter("n").unwrap();
    let default = p.default_value().clone().unwrap();
    assert!(p.validate_value(&default).is_err());
    assert!(p.validate_value("42").is_ok());
}

#[test]
fn absent_content_dir_still_loads() {
    let raw = manifest("demo", Some("d"), vec![], vec![]);
    let t = Template::load_from_parts(raw, None, Vec::new()).unwrap();
    assert_eq!(t.content_dir(), &None);
}

#[test]
fn present_content_dir_is_kept() {
    let raw = manifest("demo", None, vec![], vec![]);
    let t = Template::load_from_parts(raw, Some("/templates/demo/content".to_string()), Vec::new())
        .unwrap();
    assert_eq!(t.content_dir(), &Some("/templates/demo/content".to_string()));
}

#[test]
fn loading_twice_yields_identical_templates() {
    let build = || {
        manifest(
            "demo",
            Some("a demo"),
            vec![
                ("alpha", raw_param("string", "First?", Some("one"), None)),
                ("beta", raw_param("string", "Second?", None, Some("^[a-z]+$"))),
            ],
            vec![("shout", "shout.wasm")],
        )
    };
    let modules = || vec![("/t/demo/filters/shout.wasm".to_string(), Some(wasm_module()))];
    let t1 = Template::load_from_parts(build(), None, modules()).unwrap();
    let t2 = Template::load_from_parts(build(), None, modules()).unwrap();
    assert_eq!(t1.id(), t2.id());
    assert_eq!(t1.description(), t2.description());
    let p1 = t1.parameters();
    let p2 = t2.parameters();
    assert_eq!(p1.len(), p2.len());
    for i in 0..p1.len() {
        assert_eq!(p1[i].id(), p2[i].id());
        assert_eq!(p1[i].prompt(), p2[i].prompt());
        assert_eq!(p1[i].default_value(), p2[i].default_value());
    }
    let f1: Vec<String> = t1.custom_filters().iter().map(|f| f.name().to_string()).collect();
    let f2: Vec<String> = t2.custom_filters().iter().map(|f| f.name().to_string()).collect();
    assert_eq!(f1, f2);
}

#[test]
fn description_accessors() {
    let with = Template::load_from_parts(manifest("a", Some("hello"), vec![], vec![]), None, Vec::new())
        .unwrap();
    assert_eq!(with.description(), &Some("hello".to_string()));
    assert_eq!(with.description_or_empty(), "hello");
    let without =
        Template::load_from_parts(manifest("a", None, vec![], vec![]), None, Vec::new()).unwrap();
    assert_eq!(without.description(), &None);
    assert_eq!(without.description_or_empty(), "");
}

#[test]
fn parameter_lookup_by_id() {
    let raw = manifest(
        "demo",
        None,
        vec![
            ("alpha", raw_param("string", "First?", None, None)),
            ("beta", raw_param("string", "Second?", None, None)),
        ],
        vec![],
    );
    let t = Template::load_from_parts(raw, None, Vec::new()).unwrap();
    assert_eq!(t.parameter("beta").unwrap().prompt(), "Second?");
    assert!(t.parameter("missing").is_none());
}

#[test]
fn run_takes_ownership_of_the_template() {
    let raw = manifest("demo", None, vec![], vec![]);
    let t = Template::load_from_parts(raw, None, Vec::new()).unwrap();
    let run = t.run(RunOptions::new());
    assert_eq!(run.template().id(), "demo");
}
