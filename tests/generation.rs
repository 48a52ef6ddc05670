use builder::assembly::{FieldValue, MissingField, RecordBuilder};
use builder::plan::{classify_field, plan, Finish};

use builder::schema::{
    accumulator, judge_entry, Classification, DeclBody, Declaration, DeclaredType, Directive,
    DirectiveEntry, FieldSpec, GenError, TypeHead,
};
use builder::text::{same_text, valid_ident};

fn plain(text: &str) -> DeclaredType {
    DeclaredType { text: text.to_string(), head: None }
}

fn wrapped(outer: &str, inner: &str) -> DeclaredType {
    DeclaredType {
        text: format!("{} < {} >", outer, inner),
        head: Some(TypeHead { name: outer.to_string(), first_arg: Some(inner.to_string()) }),
    }
}

fn each(name: &str) -> Directive {
    entry("each", Some(&format!("{:?}", name)))
}

fn entry(key: &str, value: Option<&str>) -> Directive {
    Directive {
        group: "builder".to_string(),
        entries: vec![DirectiveEntry { key: key.to_string(), value: value.map(|v| v.to_string()) }],
    }
}

fn field(name: &str, ty: DeclaredType, directives: Vec<Directive>) -> FieldSpec {
    FieldSpec { name: name.to_string(), ty, directives }
}

fn record(name: &str, fields: Vec<FieldSpec>) -> Declaration {
    Declaration {
        name: name.to_string(),
        vis: "pub".to_string(),
        impl_generics: String::new(),
        type_generics: String::new(),
        where_clause: String::new(),
        body: DeclBody::Named(fields),
    }
}

fn shaped(body: DeclBody) -> Declaration {
    Declaration {
        name: "Thing".to_string(),
        vis: String::new(),
        impl_generics: String::new(),
        type_generics: String::new(),
        where_clause: String::new(),
        body,
    }
}

#[test]
fn non_record_shapes_are_rejected() {
    for body in [DeclBody::Tuple, DeclBody::Unit, DeclBody::Enum, DeclBody::Union] {
        let r = builder::render::derive(&shaped(body));
        assert_eq!(r, Err(GenError::Shape));
    }
    assert_eq!(
        GenError::Shape.message(),
        "Builder derive only works on structs with named fields"
    );
}

#[test]
fn empty_record_gives_trivial_builder() {
    let r = builder::render::derive(&shaped(DeclBody::Named(vec![]))).unwrap();
    assert!(r.contains(" struct ThingBuilder {\n}"));
    assert!(r.contains("fn builder() -> ThingBuilder {"));
}

#[test]
fn classification_is_deterministic() {
    let f = field("args", wrapped("Vec", "String"), vec![each("arg")]);
    let a = classify_field(&f);
    let b = classify_field(&f);
    assert_eq!(a, b);
    assert_eq!(a, Ok(Classification::Repeated("String".to_string(), "arg".to_string())));
}

#[test]
fn optional_wrapper_wins() {
    let f = field("x", wrapped("Option", "u8"), vec![each("x")]);
    assert_eq!(classify_field(&f), Ok(Classification::Optional("u8".to_string())));
}

#[test]
fn malformed_directive_fails_any_field_type() {
    let f = field("x", wrapped("Option", "u8"), vec![entry("names", None)]);
    assert_eq!(
        classify_field(&f),
        Err(GenError::Directive { field: "x".to_string(), key: "names".to_string() })
    );
    let f = field("s", plain("String"), vec![entry("names", Some("\"x\""))]);
    assert_eq!(
        classify_field(&f),
        Err(GenError::Directive { field: "s".to_string(), key: "names".to_string() })
    );
    let d = record("R", vec![f]);
    assert!(builder::render::derive(&d).is_err());
}

#[test]
fn sequence_without_directive_is_required() {
    let f = field("env", wrapped("Vec", "String"), vec![]);
    assert_eq!(classify_field(&f), Ok(Classification::Required("Vec < String >".to_string())));
}

#[test]
fn plain_type_is_required() {
    let f = field("n", plain("u32"), vec![each("n")]);
    assert_eq!(classify_field(&f), Ok(Classification::Required("u32".to_string())));
}

#[test]
fn unknown_directive_key_is_rejected() {
    let f = field("env", wrapped("Vec", "String"), vec![entry("names", Some("\"e\""))]);
    let expected = GenError::Directive { field: "env".to_string(), key: "names".to_string() };
    assert_eq!(classify_field(&f), Err(expected));
    let d = record("Command", vec![field("a", plain("u8"), vec![]), f]);
    let r = builder::render::derive(&d);
    assert_eq!(
        r,
        Err(GenError::Directive { field: "env".to_string(), key: "names".to_string() })
    );
    assert_eq!(r.unwrap_err().message(), "expected `builder(each = \"...\")`");
}

#[test]
fn non_identifier_value_is_rejected() {
    for bad in ["", "1x", "a-b", "_", "type", "fn", "Self", "añadir"] {
        let f = field("env", wrapped("Vec", "String"), vec![each(bad)]);
        assert_eq!(
            classify_field(&f),
            Err(GenError::Directive { field: "env".to_string(), key: "each".to_string() })
        );
    }
    let f = field("env", wrapped("Vec", "String"), vec![entry("each", Some("arg"))]);
    assert!(classify_field(&f).is_err());
}

#[test]
fn malformed_entry_sticks_and_last_one_is_reported() {
    let ds = vec![
        entry("first", None),
        each("ok"),
        entry("second", Some("1")),
        each("again"),
    ];
    assert_eq!(accumulator(&ds), Some(Err("second".to_string())));
    let ds = vec![each("one"), each("two")];
    assert_eq!(accumulator(&ds), Some(Ok("two".to_string())));
    let other_group = Directive {
        group: "serde".to_string(),
        entries: vec![DirectiveEntry { key: "rename".to_string(), value: None }],
    };
    assert_eq!(accumulator(&vec![other_group]), None);
}

#[test]
fn first_failing_field_is_reported() {
    let d = record(
        "R",
        vec![
            field("a", wrapped("Vec", "u8"), vec![entry("x", None)]),
            field("b", wrapped("Vec", "u8"), vec![entry("y", None)]),
        ],
    );
    assert_eq!(
        builder::render::derive(&d),
        Err(GenError::Directive { field: "a".to_string(), key: "x".to_string() })
    );
}

#[test]
fn accumulator_may_share_the_field_name() {
    let f = field("args", wrapped("Vec", "String"), vec![each("args")]);
    let d = record("C", vec![f]);
    let p = plan(&d).unwrap();
    assert_eq!(p.fields[0].setter, "args");
    assert_eq!(p.fields[0].param, "String");
    assert_eq!(p.fields[0].storage, "Vec < String >");
    assert_eq!(p.fields[0].finish, Finish::Collect);
}

#[test]
fn plan_follows_classification() {
    let d = record(
        "Command",
        vec![
            field("executable", plain("String"), vec![]),
            field("current_dir", wrapped("Option", "String"), vec![]),
            field("args", wrapped("Vec", "String"), vec![each("arg")]),
        ],
    );
    let p = plan(&d).unwrap();
    assert_eq!(p.builder_name, "CommandBuilder");
    assert_eq!(p.fields.len(), 3);
    assert_eq!((p.fields[0].storage.as_str(), p.fields[0].finish), ("String", Finish::Require));
    assert_eq!((p.fields[1].storage.as_str(), p.fields[1].finish), ("String", Finish::Keep));
    assert_eq!(p.fields[2].setter, "arg");
}

#[test]
fn generated_text_is_exact() {
    let d = record(
        "Cmd",
        vec![
            field("exe", plain("String"), vec![]),
            field("dir", wrapped("Option", "String"), vec![]),
            field("args", wrapped("Vec", "String"), vec![each("arg")]),
        ],
    );
    let expected = "impl Cmd {\n    pub fn builder() -> CmdBuilder {\n        CmdBuilder {\n            exe: None,\n            dir: None,\n            args: None,\n        }\n    }\n}\n\npub struct CmdBuilder {\n    exe: Option<String>,\n    dir: Option<String>,\n    args: Option<Vec < String >>,\n}\n\nimpl CmdBuilder {\n    pub fn exe(&mut self, exe: String) -> &mut Self {\n        self.exe = Some(exe);\n        self\n    }\n    pub fn dir(&mut self, dir: String) -> &mut Self {\n        self.dir = Some(dir);\n        self\n    }\n    pub fn arg(&mut self, arg: String) -> &mut Self {\n        self.args.get_or_insert_with(Vec::new).push(arg);\n        self\n    }\n    pub fn build(&mut self) -> Result<Cmd, Box<dyn std::error::Error>> {\n        Ok(Cmd {\n            exe: self.exe.clone().ok_or_else(|| -> Box<dyn std::error::Error> { \"field exe isn't set\".into() })?,\n            dir: self.dir.clone(),\n            args: self.args.clone().unwrap_or_default(),\n        })\n    }\n}\n";
    assert_eq!(builder::render::derive(&d).unwrap(), expected);
}

#[test]
fn generics_and_visibility_pass_through() {
    let mut d = record("Pair", vec![field("left", plain("T"), vec![])]);
    d.impl_generics = "<T: Clone>".to_string();
    d.type_generics = "<T>".to_string();
    d.where_clause = "where T: Default".to_string();
    d.vis = "pub(crate)".to_string();
    let text = builder::render::derive(&d).unwrap();
    assert!(text.starts_with(
        "impl<T: Clone> Pair<T> where T: Default {\n    pub(crate) fn builder() -> PairBuilder<T> {"
    ));
    assert!(text.contains("pub(crate) struct PairBuilder<T: Clone> where T: Default {"));
    assert!(text.contains("impl<T: Clone> PairBuilder<T> where T: Default {"));
    assert!(text.contains("-> Result<Pair<T>, Box<dyn std::error::Error>>"));
}

fn three_kinds() -> RecordBuilder<&'static str> {
    let d = record(
        "Cmd",
        vec![
            field("exe", plain("String"), vec![]),
            field("dir", wrapped("Option", "String"), vec![]),
            field("items", wrapped("Vec", "String"), vec![each("add_item")]),
        ],
    );
    RecordBuilder::new(&plan(&d).unwrap())
}

#[test]
fn all_required_round_trip() {
    let d = record(
        "P",
        vec![field("a", plain("u64"), vec![]), field("b", plain("u64"), vec![])],
    );
    let mut b: RecordBuilder<u64> = RecordBuilder::new(&plan(&d).unwrap());
    b.set(0, 7).set(1, 9);
    assert_eq!(b.build(), Ok(vec![FieldValue::Value(7), FieldValue::Value(9)]));
}

#[test]
fn first_missing_field_fails_the_build() {
    let d = record(
        "P",
        vec![field("a", plain("u64"), vec![]), field("b", plain("u64"), vec![])],
    );
    let mut b: RecordBuilder<u64> = RecordBuilder::new(&plan(&d).unwrap());
    b.set(0, 1);
    let e = b.build().unwrap_err();
    assert_eq!(e, MissingField { field: "b".to_string() });
    assert_eq!(e.message(), "field b isn't set");
    let fresh: RecordBuilder<u64> = RecordBuilder::new(&plan(&d).unwrap());
    assert_eq!(fresh.build().unwrap_err().field, "a");
}

#[test]
fn optional_field_defaults_to_absent() {
    let d = record("O", vec![field("x", wrapped("Option", "u8"), vec![])]);
    let b: RecordBuilder<u8> = RecordBuilder::new(&plan(&d).unwrap());
    assert_eq!(b.build(), Ok(vec![FieldValue::Maybe(None)]));
}

#[test]
fn repeated_field_accumulates() {
    let d = record("L", vec![field("items", wrapped("Vec", "String"), vec![each("add_item")])]);
    let p = plan(&d).unwrap();
    let untouched: RecordBuilder<&str> = RecordBuilder::new(&p);
    assert_eq!(untouched.build(), Ok(vec![FieldValue::Items(vec![])]));
    let mut b: RecordBuilder<&str> = RecordBuilder::new(&p);
    b.push(0, "x").push(0, "y").push(0, "z");
    assert_eq!(b.build(), Ok(vec![FieldValue::Items(vec!["x", "y", "z"])]));
}

#[test]
fn mutators_chain_for_every_kind() {
    let mut b = three_kinds();
    b.set(0, "ls").set(1, "/tmp").push(2, "-l").push(2, "-a");
    let r = b.build();
    assert_eq!(
        r,
        Ok(vec![
            FieldValue::Value("ls"),
            FieldValue::Maybe(Some("/tmp")),
            FieldValue::Items(vec!["-l", "-a"]),
        ])
    );
    assert_eq!(b.build(), r);
}

#[test]
fn identifiers_and_text() {
    assert!(valid_ident("add_item"));
    assert!(valid_ident("_x9"));
    assert!(!valid_ident("9x"));
    assert!(!valid_ident("a b"));
    assert!(same_text("each", "each"));
    assert!(!same_text("each", "eac"));
    assert!(!same_text("each", "eaCh"));
}

#[test]
fn directive_values_are_read_as_string_literals() {
    let f = field("args", wrapped("Vec", "String"), vec![entry("each", Some("\"a\\x62c\""))]);
    assert_eq!(classify_field(&f), Ok(Classification::Repeated("String".to_string(), "abc".to_string())));
    let f = field("args", wrapped("Vec", "String"), vec![entry("each", Some("r\"arg\""))]);
    assert_eq!(classify_field(&f), Ok(Classification::Repeated("String".to_string(), "arg".to_string())));
    let f = field("args", wrapped("Vec", "String"), vec![entry("each", Some("\"arg\" x"))]);
    assert!(classify_field(&f).is_err());
    let f = field("args", wrapped("Vec", "String"), vec![entry("each", None)]);
    assert!(classify_field(&f).is_err());
}

#[test]
fn entries_are_judged_by_key_and_content() {
    let each_key = "each".to_string();
    assert_eq!(judge_entry(&each_key, Some("arg".to_string())), Ok("arg".to_string()));
    assert_eq!(judge_entry(&each_key, Some("a rg".to_string())), Err("each".to_string()));
    assert_eq!(judge_entry(&each_key, None), Err("each".to_string()));
    let other = "names".to_string();
    assert_eq!(judge_entry(&other, Some("arg".to_string())), Err("names".to_string()));
}

#[test]
fn repeated_field_accumulates_a_whole_sequence() {
    let d = record("L", vec![field("items", wrapped("Vec", "String"), vec![each("add_item")])]);
    let p = plan(&d).unwrap();
    let mut b: RecordBuilder<&str> = RecordBuilder::new(&p);
    b.push(0, "a").push_all(0, &vec!["b", "c", "d"]).push(0, "e");
    assert_eq!(b.build(), Ok(vec![FieldValue::Items(vec!["a", "b", "c", "d", "e"])]));
    let mut empty: RecordBuilder<&str> = RecordBuilder::new(&p);
    empty.push_all(0, &vec![]);
    assert_eq!(empty.build(), Ok(vec![FieldValue::Items(vec![])]));
}

#[test]
fn keywords_are_not_identifiers() {
    assert!(builder::text::keyword("while"));
    assert!(!builder::text::keyword("whilst"));
    assert!(!valid_ident("self"));
}
