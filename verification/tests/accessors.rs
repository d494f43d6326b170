use wrapper_gen::wrapper::WrapperGen;

const SOURCE: &str = r#"
#[derive(Clone, PartialEq, ::prost_derive::Message)]
pub struct Msg {
    #[prost(message, optional, tag = "1")]
    pub name: Option<Name>,
    #[prost(string, repeated, tag = "2")]
    pub tags: Vec<String>,
    #[prost(bytes, tag = "3")]
    pub key: Vec<u8>,
    #[prost(string, tag = "4")]
    pub label: String,
    #[prost(int64, tag = "5")]
    pub count: i64,
    #[prost(bool, tag = "6")]
    pub done: bool,
}
"#;

#[derive(Clone, Debug, Default, PartialEq)]
struct Name {
    first: String,
}

#[derive(Clone, Debug, Default, PartialEq)]
struct Msg {
    name: Option<Name>,
    tags: Vec<String>,
    key: Vec<u8>,
    label: String,
    count: i64,
    done: bool,
}

// The accessors of `SOURCE` with the bodies that the library writes for them.
#[allow(redundant_semicolons)]
impl Msg {
    pub fn has_name(&self) -> bool { self.name.is_some() }
    pub fn clear_name(&mut self) { self.name = ::std::option::Option::None }
    pub fn set_name(&mut self, v: Name) { self.name = ::std::option::Option::Some(v);; }
    pub fn mut_name(&mut self) -> &mut Name { if self.name.is_none() {
                        self.name = ::std::option::Option::Some(Name::default());
                    }
                    self.name.as_mut().unwrap() }
    pub fn take_name(&mut self) -> Name { self.name.take().unwrap_or_else(|| Name::default()) }
    pub fn clear_tags(&mut self) { self.tags.clear(); }
    pub fn set_tags(&mut self, v: Vec < String >) { self.tags = v; }
    pub fn get_tags(&self) -> &Vec < String > { &self.tags }
    pub fn take_tags(&mut self) -> Vec < String > { ::std::mem::replace(&mut self.tags, ::std::vec::Vec::new()) }
    pub fn set_key(&mut self, v: Vec < u8 >) { self.key = v; }
    pub fn get_key(&self) -> &[u8] { &self.key }
    pub fn take_key(&mut self) -> Vec < u8 > { ::std::mem::replace(&mut self.key, ::std::vec::Vec::new()) }
    pub fn set_label(&mut self, v: String) { self.label = v; }
    pub fn get_label(&self) -> &str { &self.label }
    pub fn take_label(&mut self) -> String { ::std::mem::replace(&mut self.label, ::std::string::String::new()) }
    pub fn clear_count(&mut self) { self.count = 0 }
    pub fn set_count(&mut self, v: i64) { self.count = v; }
    pub fn get_count(&self) -> i64 { self.count }
    pub fn clear_done(&mut self) { self.done = false }
    pub fn set_done(&mut self, v: bool) { self.done = v; }
    pub fn get_done(&self) -> bool { self.done }
}

fn name(first: &str) -> Name {
    Name { first: first.to_string() }
}

#[test]
fn the_library_writes_the_accessors_that_are_run_here() {
    let text = WrapperGen::new("msg.rs", SOURCE.to_string()).generate().unwrap();
    for line in [
        "pub fn has_name(&self) -> bool { self.name.is_some() }\n",
        "pub fn clear_name(&mut self) { self.name = ::std::option::Option::None }\n",
        "pub fn set_name(&mut self, v: Name) { self.name = ::std::option::Option::Some(v);; }\n",
        "pub fn mut_name(&mut self) -> &mut Name { if self.name.is_none() {\n                        self.name = ::std::option::Option::Some(Name::default());\n                    }\n                    self.name.as_mut().unwrap() } \n",
        "pub fn take_name(&mut self) -> Name { self.name.take().unwrap_or_else(|| Name::default()) }\n",
        "pub fn clear_tags(&mut self) { self.tags.clear(); }\n",
        "pub fn set_tags(&mut self, v: Vec < String >) { self.tags = v; }\n",
        "pub fn get_tags(&self) -> &Vec < String > { &self.tags }\n",
        "pub fn take_tags(&mut self) -> Vec < String > { ::std::mem::replace(&mut self.tags, ::std::vec::Vec::new()) }\n",
        "pub fn set_key(&mut self, v: Vec < u8 >) { self.key = v; }\n",
        "pub fn get_key(&self) -> &[u8] { &self.key }\n",
        "pub fn take_key(&mut self) -> Vec < u8 > { ::std::mem::replace(&mut self.key, ::std::vec::Vec::new()) }\n",
        "pub fn set_label(&mut self, v: String) { self.label = v; }\n",
        "pub fn get_label(&self) -> &str { &self.label }\n",
        "pub fn take_label(&mut self) -> String { ::std::mem::replace(&mut self.label, ::std::string::String::new()) }\n",
        "pub fn clear_count(&mut self) { self.count = 0 }\n",
        "pub fn set_count(&mut self, v: i64) { self.count = v; }\n",
        "pub fn get_count(&self) -> i64 { self.count }\n",
        "pub fn clear_done(&mut self) { self.done = false }\n",
        "pub fn set_done(&mut self, v: bool) { self.done = v; }\n",
        "pub fn get_done(&self) -> bool { self.done }\n",
    ] {
        assert_eq!(text.matches(line).count(), 1, "{line}");
    }
}

#[test]
fn take_on_a_set_optional_field_returns_the_value_and_empties_the_field() {
    let mut msg = Msg::default();
    msg.set_name(name("Ada"));
    assert!(msg.has_name());
    assert_eq!(msg.take_name(), name("Ada"));
    assert!(!msg.has_name());
    assert_eq!(msg.name, None);
}

#[test]
fn take_on_an_empty_optional_field_returns_a_default_and_leaves_it_empty() {
    let mut msg = Msg::default();
    assert_eq!(msg.take_name(), Name::default());
    assert!(!msg.has_name());
    msg.set_name(name("Ada"));
    msg.clear_name();
    assert_eq!(msg.take_name(), Name::default());
    assert_eq!(msg.name, None);
}

#[test]
fn mut_on_an_empty_optional_field_fills_it_first() {
    let mut msg = Msg::default();
    msg.mut_name().first.push('x');
    assert!(msg.has_name());
    assert_eq!(msg.name, Some(name("x")));
    msg.mut_name().first.push('y');
    assert_eq!(msg.name, Some(name("xy")));
}

#[test]
fn take_on_a_container_returns_the_contents_and_leaves_it_empty() {
    let mut msg = Msg::default();
    msg.set_tags(vec!["a".to_string(), "b".to_string()]);
    msg.set_key(vec![1, 2, 3]);
    msg.set_label("label".to_string());
    assert_eq!(msg.take_tags(), vec!["a".to_string(), "b".to_string()]);
    assert_eq!(msg.take_key(), vec![1, 2, 3]);
    assert_eq!(msg.take_label(), "label");
    assert_eq!(msg.get_tags(), &Vec::<String>::new());
    assert_eq!(msg.get_key(), &[] as &[u8]);
    assert_eq!(msg.get_label(), "");
    assert_eq!(msg.take_tags(), Vec::<String>::new());
    msg.set_tags(vec!["c".to_string()]);
    msg.clear_tags();
    assert_eq!(msg.take_tags(), Vec::<String>::new());
}

#[test]
fn clear_on_a_scalar_resets_it_whatever_it_held() {
    for count in [0, 1, -1, i64::MAX, i64::MIN] {
        for done in [false, true] {
            let mut msg = Msg::default();
            msg.set_count(count);
            msg.set_done(done);
            assert_eq!((msg.get_count(), msg.get_done()), (count, done));
            msg.clear_count();
            msg.clear_done();
            assert_eq!((msg.get_count(), msg.get_done()), (0, false));
        }
    }
}

#[test]
fn an_enumeration_is_stored_and_read_through_the_same_integer() {
    let source = r#"
        #[derive(::prost_derive::Message)]
        struct M { #[prost(enumeration = "Color", tag = "1")] color: i32 }
    "#;
    let text = WrapperGen::new("m.rs", source.to_string()).generate().unwrap();
    assert!(text.contains(
        "pub fn set_color(&mut self, v: Color) { self.color = unsafe { ::std::mem::transmute::<Color, i32>(v) }; }\n"
    ));
    assert!(text.contains(
        "pub fn get_color(&self) -> Color { unsafe { ::std::mem::transmute::<i32, Color>(self.color) } }\n"
    ));
}
