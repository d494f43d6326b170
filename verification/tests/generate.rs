use wrapper_gen::decl::{
    Annotation, Carrier, Declaration, FieldDecl, MetaEntry, StructDecl, TypeArgument, TypeDecl,
};
use wrapper_gen::error::GenerateError;
use wrapper_gen::generate::{
    generate_field, generate_from_items, generate_new, generate_one, is_message,
    try_generate_one,
};

const DERIVE_MESSAGE: &str = "( Clone , PartialEq , :: prost_derive :: Message )";

fn derive(tokens: &str) -> Annotation {
    Annotation { carrier: Carrier::Derive, tokens: tokens.to_string(), entries: vec![] }
}

fn wire(words: &[&str]) -> Annotation {
    Annotation {
        carrier: Carrier::Wire,
        tokens: String::new(),
        entries: words.iter().map(|word| MetaEntry::Word(word.to_string())).collect(),
    }
}

fn plain(text: &str) -> TypeDecl {
    TypeDecl { text: text.to_string(), head: None, arguments: vec![] }
}

fn option_of(inner: &str) -> TypeDecl {
    TypeDecl {
        text: format!("::std::option::Option<{inner}>"),
        head: Some("Option".to_string()),
        arguments: vec![TypeArgument::Type(inner.to_string())],
    }
}

fn field(name: &str, ty: TypeDecl, words: &[&str]) -> FieldDecl {
    FieldDecl { name: Some(name.to_string()), ty, attrs: vec![wire(words)] }
}

fn message(name: &str, fields: Vec<FieldDecl>) -> StructDecl {
    StructDecl { name: name.to_string(), attrs: vec![derive(DERIVE_MESSAGE)], fields }
}

fn module(name: &str, content: Vec<Declaration>) -> Declaration {
    Declaration::Module(name.to_string(), Some(content))
}

fn constructors(path: &str) -> String {
    format!(
        "pub fn new_() -> {path} {{ ::std::default::Default::default() }}\n\
         pub fn default_instance() -> &'static {path} {{ unimplemented!(); }}\n"
    )
}

fn empty_block(path: &str) -> String {
    format!("impl {path} {{{}}}\n", constructors(path))
}

const NAME_AND_TAGS: &str = "impl Msg {pub fn new_() -> Msg { ::std::default::Default::default() }\n\
pub fn default_instance() -> &'static Msg { unimplemented!(); }\n\
pub fn has_name(&self) -> bool { self.name.is_some() }\n\
pub fn clear_name(&mut self) { self.name = ::std::option::Option::None }\n\
pub fn set_name(&mut self, v: Name) { self.name = ::std::option::Option::Some(v);; }\n\
pub fn get_name(&self) -> &Name { self.name.as_ref().unwrap_or_else(|| Name::default_instance()) }\n\
pub fn mut_name(&mut self) -> &mut Name { if self.name.is_none() {\n                        self.name = ::std::option::Option::Some(Name::default());\n                    }\n                    self.name.as_mut().unwrap() } \n\
pub fn take_name(&mut self) -> Name { self.name.take().unwrap_or_else(|| Name::default()) }\n\
pub fn clear_tags(&mut self) { self.tags.clear(); }\n\
pub fn set_tags(&mut self, v: Vec<String>) { self.tags = v; }\n\
pub fn get_tags(&self) -> &Vec<String> { &self.tags }\n\
pub fn mut_tags(&mut self) -> &mut Vec<String> { &mut self.tags }\n\
pub fn take_tags(&mut self) -> Vec<String> { ::std::mem::replace(&mut self.tags, ::std::vec::Vec::new()) }\n\
}\n";

fn name_and_tags() -> StructDecl {
    message(
        "Msg",
        vec![
            field("name", option_of("Name"), &["string", "optional"]),
            field("tags", plain("Vec<String>"), &["repeated"]),
        ],
    )
}

#[test]
fn a_derive_with_the_marker_makes_a_message() {
    assert!(is_message(&vec![derive(DERIVE_MESSAGE)]));
    assert!(is_message(&vec![derive("( :: prost_derive :: Message )")]));
    assert!(is_message(&vec![wire(&["x"]), derive("( Clone )"), derive(DERIVE_MESSAGE)]));
}

#[test]
fn without_the_marker_in_a_derive_there_is_no_message() {
    assert!(!is_message(&vec![]));
    assert!(!is_message(&vec![derive("( Clone , PartialEq )")]));
    assert!(!is_message(&vec![derive("( Message )")]));
    assert!(!is_message(&vec![derive("( ::prost_derive::Message )")]));
    let marker_elsewhere = Annotation {
        carrier: Carrier::Other,
        tokens: DERIVE_MESSAGE.to_string(),
        entries: vec![],
    };
    assert!(!is_message(&vec![marker_elsewhere.clone()]));
    assert!(!is_message(&vec![Annotation { carrier: Carrier::Wire, ..marker_elsewhere }]));
}

#[test]
fn generate_new_writes_both_constructors() {
    let mut buf = String::from("impl a::b::Msg {");
    generate_new("Msg", "a::b::", &mut buf);
    assert_eq!(
        buf,
        "impl a::b::Msg {pub fn new_() -> a::b::Msg { ::std::default::Default::default() }\n\
         pub fn default_instance() -> &'static a::b::Msg { unimplemented!(); }\n"
    );
}

#[test]
fn generate_field_appends_the_accessors() {
    let mut buf = String::from("x");
    assert_eq!(generate_field(&field("n", plain("u32"), &["uint32"]), &mut buf), Ok(()));
    assert_eq!(
        buf,
        "xpub fn clear_n(&mut self) { self.n = 0 }\n\
         pub fn set_n(&mut self, v: u32) { self.n = v; }\n\
         pub fn get_n(&self) -> u32 { self.n }\n"
    );
}

#[test]
fn generate_field_skips_unnamed_and_oneof_fields() {
    let mut buf = String::from("x");
    let unnamed = FieldDecl { name: None, ty: plain("u32"), attrs: vec![] };
    assert_eq!(generate_field(&unnamed, &mut buf), Ok(()));
    let oneof = FieldDecl {
        name: Some("body".to_string()),
        ty: plain("Option<Body>"),
        attrs: vec![Annotation {
            carrier: Carrier::Wire,
            tokens: String::new(),
            entries: vec![MetaEntry::NameValue("oneof".to_string(), "\"Body\"".to_string())],
        }],
    };
    assert_eq!(generate_field(&oneof, &mut buf), Ok(()));
    assert_eq!(buf, "x");
}

#[test]
fn generate_field_leaves_the_buffer_on_an_error() {
    let mut buf = String::from("x");
    let unknown = FieldDecl { name: Some("f".to_string()), ty: plain("u32"), attrs: vec![] };
    assert_eq!(generate_field(&unknown, &mut buf), Err(GenerateError::UnknownFieldKind));
    let malformed = field("f", plain("Name"), &["optional"]);
    assert_eq!(generate_field(&malformed, &mut buf), Err(GenerateError::MalformedOptional));
    assert_eq!(buf, "x");
}

#[test]
fn generate_one_writes_the_block_of_a_message() {
    assert_eq!(generate_one(&name_and_tags(), ""), NAME_AND_TAGS);
    assert_eq!(try_generate_one(&name_and_tags(), ""), Ok(NAME_AND_TAGS.to_string()));
}

#[test]
fn generate_one_without_fields_writes_the_constructors() {
    assert_eq!(generate_one(&message("Empty", vec![]), "a::"), empty_block("a::Empty"));
}

#[test]
fn generate_one_has_no_has_accessor_for_a_repeated_field() {
    let text = generate_one(&name_and_tags(), "");
    for accessor in ["has_name", "clear_name", "set_name", "get_name", "mut_name", "take_name"] {
        assert!(text.contains(&format!("pub fn {accessor}(")), "{accessor}");
    }
    for accessor in ["clear_tags", "set_tags", "get_tags", "mut_tags", "take_tags"] {
        assert!(text.contains(&format!("pub fn {accessor}(")), "{accessor}");
    }
    assert!(!text.contains("has_tags"));
}

#[test]
fn try_generate_one_reports_the_first_field_that_fails() {
    let unknown = FieldDecl { name: Some("u".to_string()), ty: plain("u32"), attrs: vec![] };
    let malformed = field("m", plain("Name"), &["optional"]);
    let fine = field("n", plain("u32"), &["uint32"]);
    assert_eq!(
        try_generate_one(&message("M", vec![fine.clone(), unknown.clone(), malformed.clone()]), ""),
        Err(GenerateError::UnknownFieldKind)
    );
    assert_eq!(
        try_generate_one(&message("M", vec![malformed, fine, unknown]), ""),
        Err(GenerateError::MalformedOptional)
    );
}

#[test]
fn generate_one_reads_all_wire_annotations_of_a_field() {
    let split = FieldDecl {
        name: Some("name".to_string()),
        ty: option_of("Name"),
        attrs: vec![wire(&["string"]), wire(&["optional"])],
    };
    let tags = field("tags", plain("Vec<String>"), &["repeated"]);
    assert_eq!(generate_one(&message("Msg", vec![split, tags]), ""), NAME_AND_TAGS);
}

#[test]
fn generate_from_items_skips_what_is_no_message() {
    let no_marker = StructDecl { attrs: vec![derive("( Clone )")], ..name_and_tags() };
    let broken_but_unmarked = StructDecl {
        name: "B".to_string(),
        attrs: vec![],
        fields: vec![FieldDecl { name: Some("u".to_string()), ty: plain("u8"), attrs: vec![] }],
    };
    let items = vec![
        Declaration::Struct(no_marker),
        Declaration::Other,
        Declaration::Module("m".to_string(), None),
        Declaration::Struct(broken_but_unmarked),
        module("empty", vec![]),
    ];
    assert_eq!(generate_from_items(&items, ""), Ok(String::new()));
    assert_eq!(generate_from_items(&vec![], "p::"), Ok(String::new()));
}

#[test]
fn generate_from_items_follows_the_modules() {
    let items = vec![
        Declaration::Struct(message("A", vec![])),
        module(
            "outer",
            vec![
                Declaration::Struct(message("B", vec![])),
                module("inner", vec![Declaration::Struct(message("C", vec![]))]),
                Declaration::Struct(message("D", vec![])),
            ],
        ),
        Declaration::Struct(message("E", vec![])),
    ];
    let expected = [
        empty_block("A"),
        empty_block("outer::B"),
        empty_block("outer::inner::C"),
        empty_block("outer::D"),
        empty_block("E"),
    ]
    .concat();
    assert_eq!(generate_from_items(&items, ""), Ok(expected));
    let under = [
        empty_block("crate::A"),
        empty_block("crate::outer::B"),
        empty_block("crate::outer::inner::C"),
        empty_block("crate::outer::D"),
        empty_block("crate::E"),
    ]
    .concat();
    assert_eq!(generate_from_items(&items, "crate::"), Ok(under));
}

#[test]
fn generate_from_items_keeps_a_raw_module_name() {
    let items = vec![module("r#type", vec![Declaration::Struct(message("A", vec![]))])];
    assert_eq!(generate_from_items(&items, ""), Ok(empty_block("r#type::A")));
}

#[test]
fn generate_from_items_reports_the_first_message_that_fails() {
    let unknown = message(
        "U",
        vec![FieldDecl { name: Some("u".to_string()), ty: plain("u8"), attrs: vec![] }],
    );
    let malformed = message("M", vec![field("m", plain("Name"), &["optional"])]);
    let items = vec![
        Declaration::Struct(message("A", vec![])),
        module("deep", vec![Declaration::Struct(malformed)]),
        Declaration::Struct(unknown),
    ];
    assert_eq!(generate_from_items(&items, ""), Err(GenerateError::MalformedOptional));
}

#[test]
fn generating_twice_gives_the_same_text() {
    let items = vec![
        Declaration::Struct(name_and_tags()),
        module("m", vec![Declaration::Struct(name_and_tags())]),
    ];
    let first = generate_from_items(&items, "");
    let second = generate_from_items(&items, "");
    assert!(first.is_ok());
    assert_eq!(first, second);
}
