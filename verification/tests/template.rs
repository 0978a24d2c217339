use scaffold::module::reader::read_document;
use scaffold::text::{boolean_string, integer_string, natural_string};
use scaffold::{Dependencies, Ecosystem, Module, Node, NpmDeps, ParseError, TomlTemplate};

const MOCK: &str = r#"
title = "test"

[deps]
npm = [
  { name = "test_npm_dep_min" },
  { name = "test_npm_dev_dep_full", version = "^1.0.0", dev = true, then = [["naked_command"], ["command_with_args", "arg1", "arg2"]] },
]
"#;

fn text(value: &str) -> Node {
    Node::Text(value.to_string())
}

fn table(entries: Vec<(&str, Node)>) -> Node {
    Node::Table(entries.into_iter().map(|(key, value)| (key.to_string(), value)).collect())
}

fn document_with_npm(records: Vec<Node>) -> Node {
    table(vec![("deps", table(vec![("npm", Node::Array(records))]))])
}

fn error_of(records: Vec<Node>) -> ParseError {
    TomlTemplate::from_document(document_with_npm(records)).deps().unwrap_err()
}

#[test]
fn test_parse_toml() {
    let template = TomlTemplate::parse("title = \"ssrjs\"\n").expect("Error parsing toml");
    assert_eq!(template.title(), Some("ssrjs"));
}

#[test]
fn extract_npm_deps() {
    let parsed_deps = TomlTemplate::parse_deps(MOCK).expect("Error parsing deps");
    assert!(parsed_deps.contains_key("npm"));

    let npm_deps = parsed_deps.get("npm").unwrap();
    assert!(npm_deps.iter().any(|dep| dep.get_name() == "test_npm_dep_min"));
    assert!(npm_deps.iter().any(|dep| dep.get_name() == "test_npm_dev_dep_full"));

    let full_dev_dep = npm_deps
        .iter()
        .find(|dep| dep.get_name() == "test_npm_dev_dep_full")
        .expect("Error finding dep");
    assert_eq!(full_dev_dep.get_version(), "^1.0.0");
    assert_eq!(full_dev_dep.is_dev(), true);

    let then_cmds = full_dev_dep.get_then().unwrap();
    assert_eq!(then_cmds.len(), 2);
    assert_eq!(then_cmds[0].len(), 1);
    assert_eq!(then_cmds[1].len(), 3);
    assert_eq!(then_cmds[0][0], "naked_command");
    assert_eq!(then_cmds[1][0], "command_with_args");
    assert_eq!(then_cmds[1][1], "arg1");
    assert_eq!(then_cmds[1][2], "arg2");
}

#[test]
fn minimal_record_takes_the_defaults() {
    let parsed = TomlTemplate::parse_deps(MOCK).unwrap();
    let npm = parsed.group(Ecosystem::Npm).unwrap();
    assert_eq!(npm.len(), 2);
    let minimal = &npm[0];
    assert_eq!(minimal.get_name(), "test_npm_dep_min");
    assert_eq!(minimal.get_version(), "latest");
    assert_eq!(minimal.is_dev(), false);
    assert!(minimal.get_features().is_none());
    assert!(minimal.get_then().is_none());
}

#[test]
fn records_keep_their_declaration_order() {
    let parsed = TomlTemplate::parse_deps(
        "[deps]\nnpm = [{ name = \"zeta\" }, { name = \"alpha\" }, { name = \"mid\" }]\n",
    )
    .unwrap();
    let names: Vec<&str> = parsed.npm.as_ref().unwrap().iter().map(|m| m.get_name()).collect();
    assert_eq!(names, vec!["zeta", "alpha", "mid"]);
}

#[test]
fn absent_groups_are_omitted() {
    let parsed = TomlTemplate::parse_deps(MOCK).unwrap();
    assert!(parsed.npm.is_some());
    assert!(parsed.cargo.is_none());
    assert!(parsed.composer.is_none());
    assert!(!parsed.contains_key("cargo"));
    assert!(!parsed.contains_key("composer"));
    assert!(!parsed.contains_key("pip"));
    assert!(parsed.get("pip").is_none());
}

#[test]
fn empty_group_is_present_and_empty() {
    let parsed = TomlTemplate::parse_deps("[deps]\ncargo = []\n").unwrap();
    assert!(parsed.npm.is_none());
    assert_eq!(parsed.cargo.as_ref().map(|group| group.len()), Some(0));
    assert!(parsed.contains_key("cargo"));
}

#[test]
fn all_three_groups_are_read() {
    let parsed = TomlTemplate::parse_deps(
        r#"
[[deps.npm]]
name = "lodash"

[[deps.cargo]]
name = "serde"
version = "1"
features = ["derive", "rc"]

[[deps.composer]]
name = "monolog/monolog"
dev = true
"#,
    )
    .unwrap();
    assert_eq!(parsed.npm.as_ref().unwrap()[0].get_name(), "lodash");
    let serde = &parsed.cargo.as_ref().unwrap()[0];
    assert_eq!(serde.get_name(), "serde");
    assert_eq!(serde.get_version(), "1");
    assert_eq!(serde.get_features().unwrap(), &vec!["derive".to_string(), "rc".to_string()]);
    let monolog = &parsed.group(Ecosystem::Composer).unwrap()[0];
    assert_eq!(monolog.get_name(), "monolog/monolog");
    assert!(monolog.is_dev());
}

#[test]
fn text_that_is_not_toml_is_a_syntax_error() {
    assert_eq!(TomlTemplate::parse_deps("deps = [").unwrap_err(), ParseError::Syntax);
    assert_eq!(TomlTemplate::parse("= 1").unwrap_err(), ParseError::Syntax);
}

#[test]
fn missing_deps_table_is_an_error() {
    assert_eq!(TomlTemplate::parse_deps("title = \"x\"\n").unwrap_err(), ParseError::Deps);
    assert_eq!(TomlTemplate::parse_deps("deps = 3\n").unwrap_err(), ParseError::Deps);
    let no_table = TomlTemplate::from_document(Node::Integer(1));
    assert_eq!(no_table.deps().unwrap_err(), ParseError::Deps);
}

#[test]
fn group_that_is_no_list_is_an_error() {
    assert_eq!(
        TomlTemplate::parse_deps("[deps]\nnpm = \"lodash\"\n").unwrap_err(),
        ParseError::Group(Ecosystem::Npm)
    );
    assert_eq!(
        TomlTemplate::parse_deps("[deps]\ncomposer = true\n").unwrap_err(),
        ParseError::Group(Ecosystem::Composer)
    );
    assert_eq!(
        TomlTemplate::parse_deps("[deps.cargo]\nname = \"serde\"\n").unwrap_err(),
        ParseError::Group(Ecosystem::Cargo)
    );
}

#[test]
fn record_that_is_no_table_is_an_error() {
    assert_eq!(error_of(vec![text("lodash")]), ParseError::Record);
}

#[test]
fn missing_name_fails_parsing() {
    assert_eq!(
        TomlTemplate::parse_deps("[deps]\nnpm = [{ version = \"1.0.0\" }]\n").unwrap_err(),
        ParseError::Name
    );
    assert_eq!(
        error_of(vec![table(vec![("name", Node::Integer(7))])]),
        ParseError::Name
    );
    assert_eq!(
        TomlTemplate::parse_deps("[deps]\nnpm = [{ name = \"\" }]\n").unwrap_err(),
        ParseError::Name
    );
}

#[test]
fn malformed_version_is_an_error() {
    assert_eq!(
        error_of(vec![table(vec![("name", text("a")), ("version", Node::Integer(2))])]),
        ParseError::Version
    );
}

#[test]
fn malformed_dev_is_an_error() {
    assert_eq!(
        error_of(vec![table(vec![("name", text("a")), ("dev", text("yes"))])]),
        ParseError::Dev
    );
}

#[test]
fn malformed_features_are_an_error() {
    assert_eq!(
        error_of(vec![table(vec![("name", text("a")), ("features", text("derive"))])]),
        ParseError::Features
    );
    assert_eq!(
        error_of(vec![table(vec![
            ("name", text("a")),
            ("features", Node::Array(vec![text("derive"), Node::Boolean(true)])),
        ])]),
        ParseError::Feature
    );
}

#[test]
fn malformed_then_is_an_error() {
    assert_eq!(
        error_of(vec![table(vec![("name", text("a")), ("then", text("echo"))])]),
        ParseError::Then
    );
    assert_eq!(
        error_of(vec![table(vec![("name", text("a")), ("then", Node::Array(vec![text("echo")]))])]),
        ParseError::Command
    );
    assert_eq!(
        error_of(vec![table(vec![
            ("name", text("a")),
            ("then", Node::Array(vec![Node::Array(vec![])])),
        ])]),
        ParseError::Command
    );
    assert_eq!(
        error_of(vec![table(vec![
            ("name", text("a")),
            ("then", Node::Array(vec![Node::Array(vec![text("echo"), Node::Array(vec![])])])),
        ])]),
        ParseError::Argument
    );
    assert_eq!(
        error_of(vec![table(vec![
            ("name", text("a")),
            ("then", Node::Array(vec![Node::Array(vec![text("echo"), table(vec![])])])),
        ])]),
        ParseError::Argument
    );
    assert_eq!(
        TomlTemplate::parse_deps(
            "deps = { npm = [ { name = 'a', then = [['echo', ['nested']]] } ] }"
        )
        .unwrap_err(),
        ParseError::Argument
    );
}

#[test]
fn then_arguments_are_coerced_to_strings() {
    let parsed = TomlTemplate::parse_deps(
        "deps = { npm = [ { name = 'a', then = [['sleep', 5]] } ] }",
    )
    .unwrap();
    let then = parsed.npm.as_ref().unwrap()[0].get_then().unwrap();
    assert_eq!(then, &vec![vec!["sleep".to_string(), "5".to_string()]]);

    let parsed = TomlTemplate::parse_deps(
        "deps = { npm = [ { name = 'a', then = [['run', -12, true, false, 0, 1.5, 1979-05-27T07:32:00Z, 'x y']] } ] }",
    )
    .unwrap();
    let then = parsed.npm.as_ref().unwrap()[0].get_then().unwrap();
    let expected: Vec<String> =
        ["run", "-12", "true", "false", "0", "1.5", "1979-05-27T07:32:00Z", "x y"]
            .iter()
            .map(|arg| arg.to_string())
            .collect();
    assert_eq!(then, &vec![expected]);
}

#[test]
fn a_command_may_start_with_a_coerced_argument() {
    let by_hand = document_with_npm(vec![table(vec![
        ("name", text("a")),
        (
            "then",
            Node::Array(vec![Node::Array(vec![
                Node::Integer(7),
                Node::Float("2.5".to_string()),
                Node::Datetime("1979-05-27".to_string()),
                Node::Boolean(true),
            ])]),
        ),
    ])]);
    let deps = TomlTemplate::from_document(by_hand).deps().unwrap();
    let then = deps.npm.as_ref().unwrap()[0].get_then().unwrap();
    assert_eq!(
        then,
        &vec![vec![
            "7".to_string(),
            "2.5".to_string(),
            "1979-05-27".to_string(),
            "true".to_string()
        ]]
    );
}

#[test]
fn floats_and_datetimes_are_held_as_the_parser_prints_them() {
    let text = "a = 1.5\nb = 5.0\nc = -0.25\nd = 1e3\ne = 1979-05-27T07:32:00Z\nf = 07:32:00\n";
    let table: toml::Table = text.parse().unwrap();
    let entries = match read_document(text).unwrap() {
        Node::Table(entries) => entries,
        other => panic!("expected a table, found {:?}", other),
    };
    assert_eq!(entries.len(), 6);
    for (key, node) in &entries {
        let value = &table[key.as_str()];
        match node {
            Node::Float(printed) => assert_eq!(printed, &value.to_string()),
            Node::Datetime(printed) => {
                assert_eq!(printed, &value.as_datetime().unwrap().to_string())
            }
            other => panic!("expected a float or a datetime, found {:?}", other),
        }
    }
    assert!(matches!(&entries[3].1, Node::Float(printed) if printed == "1000.0"));
    assert!(matches!(&entries[4].1, Node::Datetime(printed) if printed == "1979-05-27T07:32:00Z"));
    assert!(matches!(&entries[5].1, Node::Datetime(printed) if printed == "07:32:00"));
}

#[test]
fn integers_are_written_in_decimal() {
    assert_eq!(integer_string(0), "0");
    assert_eq!(integer_string(7), "7");
    assert_eq!(integer_string(10), "10");
    assert_eq!(integer_string(-1), "-1");
    assert_eq!(integer_string(1234567890), "1234567890");
    assert_eq!(integer_string(-9005), "-9005");
    assert_eq!(integer_string(i64::MAX), "9223372036854775807");
    assert_eq!(integer_string(i64::MIN), "-9223372036854775808");
    assert_eq!(natural_string(u64::MAX), "18446744073709551615");
    assert_eq!(boolean_string(true), "true");
    assert_eq!(boolean_string(false), "false");
}

#[test]
fn features_and_fields_are_not_coerced() {
    assert_eq!(
        TomlTemplate::parse_deps("deps = { cargo = [ { name = 'a', features = [1] } ] }")
            .unwrap_err(),
        ParseError::Feature
    );
    assert_eq!(
        TomlTemplate::parse_deps("deps = { cargo = [ { name = 'a', version = 1 } ] }").unwrap_err(),
        ParseError::Version
    );
    assert_eq!(
        TomlTemplate::parse_deps("deps = { cargo = [ { name = 5 } ] }").unwrap_err(),
        ParseError::Name
    );
}

#[test]
fn first_malformed_part_is_reported() {
    // The second record has no name; the third has a malformed version.
    assert_eq!(
        error_of(vec![
            table(vec![("name", text("a"))]),
            table(vec![("dev", Node::Boolean(true))]),
            table(vec![("name", text("c")), ("version", Node::Boolean(false))]),
        ]),
        ParseError::Name
    );
    // Within one record the fields are read in the order name, version, dev, features, then.
    assert_eq!(
        error_of(vec![table(vec![
            ("then", text("x")),
            ("dev", Node::Integer(1)),
            ("name", text("a")),
        ])]),
        ParseError::Dev
    );
}

#[test]
fn document_built_by_hand_resolves_like_parsed_text() {
    let by_hand = document_with_npm(vec![table(vec![
        ("name", text("jest")),
        ("version", text("^29.0.0")),
        ("dev", Node::Boolean(true)),
        ("then", Node::Array(vec![Node::Array(vec![text("echo"), text("done")])])),
    ])]);
    let deps: Dependencies = TomlTemplate::from_document(by_hand).deps().unwrap();
    let jest = &deps.npm.as_ref().unwrap()[0];
    assert_eq!(jest.get_name(), "jest");
    assert_eq!(jest.get_version(), "^29.0.0");
    assert!(jest.is_dev());
    assert_eq!(jest.get_then().unwrap(), &vec![vec!["echo".to_string(), "done".to_string()]]);
}

#[test]
fn parsed_document_is_a_tree_of_nodes() {
    let template = TomlTemplate::parse("b = [1, \"two\", true]\na = 1.5\nc = 1979-05-27\n").unwrap();
    match template.document() {
        Node::Table(entries) => {
            let keys: Vec<&str> = entries.iter().map(|(key, _)| key.as_str()).collect();
            assert_eq!(keys, vec!["a", "b", "c"]);
            assert!(matches!(&entries[0].1, Node::Float(printed) if printed == "1.5"));
            match &entries[1].1 {
                Node::Array(items) => {
                    assert_eq!(items.len(), 3);
                    assert!(matches!(items[0], Node::Integer(1)));
                    assert!(matches!(&items[1], Node::Text(text) if text == "two"));
                    assert!(matches!(items[2], Node::Boolean(true)));
                }
                other => panic!("expected an array, found {:?}", other),
            }
            assert!(matches!(&entries[2].1, Node::Datetime(printed) if printed == "1979-05-27"));
        }
        other => panic!("expected a table, found {:?}", other),
    }
}

#[test]
fn nested_tables_are_read_to_any_depth() {
    let template = TomlTemplate::parse("[a.b.c]\nd = [[\"x\"], [{ e = false }]]\n").unwrap();
    let mut node = template.document();
    for key in ["a", "b", "c", "d"] {
        match node {
            Node::Table(entries) => {
                assert_eq!(entries.len(), 1);
                assert_eq!(entries[0].0, key);
                node = &entries[0].1;
            }
            other => panic!("expected a table, found {:?}", other),
        }
    }
    match node {
        Node::Array(items) => {
            assert!(matches!(&items[0], Node::Array(inner) if matches!(&inner[0], Node::Text(t) if t == "x")));
            match &items[1] {
                Node::Array(inner) => match &inner[0] {
                    Node::Table(entries) => {
                        assert_eq!(entries[0].0, "e");
                        assert!(matches!(entries[0].1, Node::Boolean(false)));
                    }
                    other => panic!("expected a table, found {:?}", other),
                },
                other => panic!("expected an array, found {:?}", other),
            }
        }
        other => panic!("expected an array, found {:?}", other),
    }
}

#[test]
fn title_is_absent_where_it_is_no_string() {
    assert_eq!(TomlTemplate::parse("title = 3\n").unwrap().title(), None);
    assert_eq!(TomlTemplate::parse("name = \"x\"\n").unwrap().title(), None);
}

#[test]
fn npm_deps_keeps_what_was_added() {
    let mut deps = NpmDeps::new();
    assert!(deps.get().is_empty());
    deps.add(Module::new("lodash".to_string(), "latest".to_string(), false, None));
    deps.add(Module::new("jest".to_string(), "^29.0.0".to_string(), true, None));
    let held = deps.get();
    assert_eq!(held.len(), 2);
    assert_eq!(held[0].get_name(), "lodash");
    assert_eq!(held[1].get_name(), "jest");
    assert_eq!(held[1].get_version(), "^29.0.0");
    assert!(held[1].is_dev());
}

#[test]
fn module_is_refused_without_a_name_or_an_executable() {
    let made = Module::try_new("serde".to_string(), "latest".to_string(), true, None).unwrap();
    assert_eq!(made.get_name(), "serde");
    assert!(made.is_dev());
    assert!(Module::try_new(String::new(), "latest".to_string(), false, None).is_none());
    assert!(
        Module::try_new("a".to_string(), "latest".to_string(), false, Some(vec![vec![]])).is_none()
    );
    assert!(Module::try_new("a".to_string(), "latest".to_string(), false, Some(vec![])).is_some());
}

#[test]
fn module_holds_what_it_was_made_with() {
    let then = vec![vec!["echo".to_string(), "done".to_string()]];
    assert!(scaffold::module::then_is_valid(&Some(then.clone())));
    assert!(scaffold::module::then_is_valid(&None));
    assert!(!scaffold::module::then_is_valid(&Some(vec![vec!["ok".to_string()], vec![]])));
    let module = Module::new("serde".to_string(), "1".to_string(), false, Some(then.clone()))
        .with_features(vec!["derive".to_string()]);
    assert_eq!(module.get_name(), "serde");
    assert_eq!(module.get_version(), "1");
    assert!(!module.is_dev());
    assert_eq!(module.get_features(), Some(&vec!["derive".to_string()]));
    assert_eq!(module.get_then(), Some(&then));
    let copy = module.clone();
    assert_eq!(copy.get_name(), "serde");
    assert_eq!(copy.get_features(), Some(&vec!["derive".to_string()]));
    assert_eq!(copy.get_then(), Some(&then));
}

#[test]
fn values_become_nodes_of_the_same_shape() {
    let document = read_document(
        "zeta = true\nalpha = 'first'\nlist = ['a', []]\nsmall = -3\nhalf = 1.5\nwhole = 5.0\noff = false\n",
    )
    .unwrap();
    match document {
        Node::Table(entries) => {
            let keys: Vec<&str> = entries.iter().map(|(key, _)| key.as_str()).collect();
            assert_eq!(keys, vec!["alpha", "half", "list", "off", "small", "whole", "zeta"]);
            assert!(matches!(&entries[0].1, Node::Text(text) if text == "first"));
            assert!(matches!(&entries[1].1, Node::Float(printed) if printed == "1.5"));
            match &entries[2].1 {
                Node::Array(items) => {
                    assert_eq!(items.len(), 2);
                    assert!(matches!(&items[0], Node::Text(text) if text == "a"));
                    assert!(matches!(&items[1], Node::Array(inner) if inner.is_empty()));
                }
                other => panic!("expected an array, found {:?}", other),
            }
            assert!(matches!(entries[3].1, Node::Boolean(false)));
            assert!(matches!(entries[4].1, Node::Integer(-3)));
            assert!(matches!(&entries[5].1, Node::Float(printed) if printed == "5.0"));
            assert!(matches!(entries[6].1, Node::Boolean(true)));
        }
        other => panic!("expected a table, found {:?}", other),
    }
}

#[test]
fn reading_a_document_fails_on_malformed_text() {
    assert!(read_document("a = ").is_err());
    assert!(matches!(read_document(""), Ok(Node::Table(entries)) if entries.is_empty()));
}
