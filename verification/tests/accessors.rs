use construct::attr::{get, read_entries, read_entry, Entry};
use construct::config::{field_config, FieldAttr};
use construct::construct;
use construct::emit::{emit, render, render_method, Accessor, ImplBlock, Method};
use construct::record::{named_fields, Attribute, ConstructError, Declaration, Field, Shape};
use construct::text::{find_char, is_whitespace, same_text, trimmed, without_parens};

fn cons(tokens: &str) -> Attribute {
    Attribute { ident: Some(String::from("cons")), tokens: String::from(tokens) }
}

fn field(name: &str, ty: &str, attrs: Vec<Attribute>) -> Field {
    Field { name: String::from(name), ty: String::from(ty), attrs }
}

fn record(ident: &str, fields: Vec<Field>) -> Declaration {
    Declaration { ident: String::from(ident), shape: Shape::Named(fields) }
}

fn getter(name: &str, field: &str, ty: &str) -> Method {
    Method {
        kind: Accessor::Getter,
        name: String::from(name),
        field: String::from(field),
        ty: String::from(ty),
    }
}

fn setter(name: &str, field: &str, ty: &str) -> Method {
    Method {
        kind: Accessor::Setter,
        name: String::from(name),
        field: String::from(field),
        ty: String::from(ty),
    }
}

fn methods_of(d: &Declaration) -> Vec<Method> {
    construct(d).unwrap().methods
}

#[derive(Debug)]
pub struct Server {
    host: String,
    port: u16,
}

impl Server {
    pub fn new() -> Self {
        Self { host: String::from("127.0.0.1"), port: 8080 }
    }

    pub fn get_host(&self) -> &String {
        &self.host
    }

    pub fn set_server_port(&mut self, port: u16) {
        self.port = port;
    }
}

#[test]
fn test() {
    let decl = record(
        "Server",
        vec![
            field("host", "String", vec![cons("(setter = false , rename_getter = get_host)")]),
            field("port", "u16", vec![cons("(getter = false , rename_setter = set_server_port)")]),
        ],
    );
    let block = construct(&decl).unwrap();
    assert_eq!(
        render(&block),
        "impl Server { pub fn get_host(&self) -> &String { &self.host } \
         pub fn set_server_port(&mut self, port: u16) { self.port = port; } }"
    );

    let mut s = Server::new();
    println!("host: {}", s.get_host());
    s.set_server_port(10);
    println!("{:?}", s);
    assert_eq!(s.get_host(), "127.0.0.1");
    assert_eq!(s.port, 10);
}

#[test]
fn no_attributes_give_default_accessors() {
    let decl = record("Point", vec![field("x", "i32", vec![]), field("y", "i32", vec![])]);
    assert_eq!(
        methods_of(&decl),
        vec![
            getter("x", "x", "i32"),
            getter("y", "y", "i32"),
            setter("set_x", "x", "i32"),
            setter("set_y", "y", "i32"),
        ]
    );
}

#[test]
fn setter_suppressed_getter_renamed() {
    let decl = record(
        "Server",
        vec![field("host", "String", vec![cons("(setter = false, rename_getter = get_host)")])],
    );
    assert_eq!(methods_of(&decl), vec![getter("get_host", "host", "String")]);
}

#[test]
fn getter_suppressed_setter_renamed() {
    let decl = record(
        "Server",
        vec![field("port", "u16", vec![cons("(getter = false, rename_setter = set_server_port)")])],
    );
    assert_eq!(methods_of(&decl), vec![setter("set_server_port", "port", "u16")]);
}

#[test]
fn both_renamed() {
    let decl = record(
        "Flag",
        vec![field("v", "bool", vec![cons("(rename_getter = g, rename_setter = s)")])],
    );
    assert_eq!(methods_of(&decl), vec![getter("g", "v", "bool"), setter("s", "v", "bool")]);
}

#[test]
fn explicit_true_is_the_default() {
    let with = record("N", vec![field("n", "u32", vec![cons("(setter = true, getter = true)")])]);
    let without = record("N", vec![field("n", "u32", vec![])]);
    assert_eq!(construct(&with), construct(&without));
    assert_eq!(methods_of(&with), vec![getter("n", "n", "u32"), setter("set_n", "n", "u32")]);
}

#[test]
fn sum_type_is_refused() {
    let decl = Declaration { ident: String::from("Choice"), shape: Shape::Enum };
    assert_eq!(construct(&decl), Err(ConstructError::NotSupport));
    assert_eq!(ConstructError::NotSupport.message(), "Not Support");
}

#[test]
fn other_shapes_are_refused() {
    for shape in [Shape::Tuple, Shape::Unit, Shape::Union, Shape::Named(vec![])] {
        let decl = Declaration { ident: String::from("T"), shape };
        assert_eq!(construct(&decl), Err(ConstructError::NotSupport));
        assert_eq!(named_fields(&decl), Err(ConstructError::NotSupport));
    }
}

#[test]
fn named_fields_are_handed_out() {
    let decl = record("P", vec![field("x", "i32", vec![])]);
    assert_eq!(named_fields(&decl), Ok(&vec![field("x", "i32", vec![])]));
}

#[test]
fn both_disabled_emits_nothing_for_the_field() {
    let decl = record(
        "P",
        vec![
            field("a", "u8", vec![cons("(getter = false, setter = false)")]),
            field("b", "u8", vec![]),
        ],
    );
    assert_eq!(methods_of(&decl), vec![getter("b", "b", "u8"), setter("set_b", "b", "u8")]);
}

#[test]
fn getters_come_before_setters_in_field_order() {
    let decl = record(
        "P",
        vec![
            field("a", "A", vec![]),
            field("b", "B", vec![cons("(getter = false)")]),
            field("c", "C", vec![cons("(setter = false)")]),
            field("d", "D", vec![]),
        ],
    );
    assert_eq!(
        methods_of(&decl),
        vec![
            getter("a", "a", "A"),
            getter("c", "c", "C"),
            getter("d", "d", "D"),
            setter("set_a", "a", "A"),
            setter("set_b", "b", "B"),
            setter("set_d", "d", "D"),
        ]
    );
}

#[test]
fn types_are_carried_verbatim() {
    let ty = "& 'a  Vec < Option<u8> >";
    let decl = record("P", vec![field("items", ty, vec![])]);
    let block = construct(&decl).unwrap();
    assert_eq!(block.methods[0].ty, ty);
    assert_eq!(block.methods[1].ty, ty);
    assert_eq!(
        render(&block),
        "impl P { pub fn items(&self) -> && 'a  Vec < Option<u8> > { &self.items } \
         pub fn set_items(&mut self, items: & 'a  Vec < Option<u8> >) { self.items = items; } }"
    );
}

#[test]
fn empty_rename_is_as_absent() {
    let f = field("v", "bool", vec![cons("(rename_getter = , rename_setter =)")]);
    let a = field_config(&f);
    assert_eq!(a.getter_name, "v");
    assert_eq!(a.setter_name, "set_v");
    assert_eq!(a, field_config(&field("v", "bool", vec![cons("()")])));
}

#[test]
fn lone_rename_key_is_as_absent() {
    let a = field_config(&field("v", "bool", vec![cons("(rename_getter)")]));
    assert_eq!(a.getter_name, "v");
}

#[test]
fn empty_and_missing_bodies_give_defaults() {
    let expected = FieldAttr {
        setter: true,
        getter: true,
        ty: String::from("u8"),
        name: String::from("f"),
        setter_name: String::from("set_f"),
        getter_name: String::from("f"),
    };
    assert_eq!(field_config(&field("f", "u8", vec![])), expected);
    assert_eq!(field_config(&field("f", "u8", vec![cons("")])), expected);
    assert_eq!(field_config(&field("f", "u8", vec![cons("()")])), expected);
    assert_eq!(field_config(&field("f", "u8", vec![cons("(  )")])), expected);
}

#[test]
fn only_exactly_false_disables() {
    let a = field_config(&field("f", "u8", vec![cons("(setter = False, getter = no)")]));
    assert!(a.setter);
    assert!(a.getter);
    let b = field_config(&field("f", "u8", vec![cons("(setter, getter = )")]));
    assert!(b.setter);
    assert!(b.getter);
    let c = field_config(&field("f", "u8", vec![cons("(  setter   =   false  )")]));
    assert!(!c.setter);
    assert!(c.getter);
}

#[test]
fn first_cons_attribute_is_honoured() {
    let f = field(
        "f",
        "u8",
        vec![
            Attribute { ident: Some(String::from("serde")), tokens: String::from("(setter = false)") },
            Attribute { ident: None, tokens: String::from("(setter = false)") },
            cons("(rename_getter = first)"),
            cons("(rename_getter = second, setter = false)"),
        ],
    );
    let a = field_config(&f);
    assert_eq!(a.getter_name, "first");
    assert!(a.setter);
}

#[test]
fn last_duplicate_key_wins() {
    let a = field_config(&field("f", "u8", vec![cons("(setter = false, setter = true)")]));
    assert!(a.setter);
    let b = field_config(&field("f", "u8", vec![cons("(rename_getter = a, rename_getter = b)")]));
    assert_eq!(b.getter_name, "b");
}

#[test]
fn unknown_keys_are_ignored() {
    let a = field_config(&field("f", "u8", vec![cons("(skip = true, getter = false, x)")]));
    assert!(!a.getter);
    assert!(a.setter);
    assert_eq!(a.getter_name, "f");
    assert_eq!(a.setter_name, "set_f");
}

#[test]
fn entries_are_read_in_order() {
    let es = read_entries("(a = 1 , b,, c = d = e )");
    let expected: Vec<Entry> = [("a", "1"), ("b", ""), ("", ""), ("c", "d = e")]
        .iter()
        .map(|(k, v)| Entry { key: String::from(*k), value: String::from(*v) })
        .collect();
    assert_eq!(es, expected);
    assert_eq!(get(&es, "c"), Some(String::from("d = e")));
    assert_eq!(get(&es, "b"), Some(String::new()));
    assert_eq!(get(&es, "z"), None);
}

#[test]
fn empty_body_is_one_empty_entry() {
    let es = read_entries("");
    assert_eq!(es, vec![Entry { key: String::new(), value: String::new() }]);
}

#[test]
fn entry_is_cut_at_the_first_equals_sign() {
    let e = read_entry("  key = a = b  ");
    assert_eq!(e.key, "key");
    assert_eq!(e.value, "a = b");
    let lone = read_entry(" key ");
    assert_eq!(lone.key, "key");
    assert_eq!(lone.value, "");
}

#[test]
fn one_pair_of_parentheses_is_removed() {
    assert_eq!(without_parens("(a)"), "a");
    assert_eq!(without_parens("((a))"), "(a)");
    assert_eq!(without_parens("(a"), "(a");
    assert_eq!(without_parens("a)"), "a)");
    assert_eq!(without_parens("()"), "");
    assert_eq!(without_parens("("), "(");
    assert_eq!(without_parens(""), "");
}

#[test]
fn trimming_agrees_with_std() {
    for s in ["", " ", "  a b  ", "\t\n x\r\n", "\u{2003}x\u{3000}", "x", "\u{a0}\u{85}", "é "] {
        assert_eq!(trimmed(s), s.trim());
    }
}

#[test]
fn whitespace_agrees_with_std() {
    for n in 0u32..0x11000 {
        if let Some(c) = char::from_u32(n) {
            assert_eq!(is_whitespace(c), c.is_whitespace());
        }
    }
}

#[test]
fn find_char_counts_characters() {
    assert_eq!(find_char("a,b", ',', 0), 1);
    assert_eq!(find_char("a,b,c", ',', 2), 3);
    assert_eq!(find_char("abc", ',', 0), 3);
    assert_eq!(find_char("é,b", ',', 0), 1);
    assert_eq!(find_char("ab", ',', 5), 5);
}

#[test]
fn same_text_compares_characters() {
    assert!(same_text("cons", "cons"));
    assert!(!same_text("cons", "con"));
    assert!(!same_text("cons", "conz"));
    assert!(same_text("", ""));
}

#[test]
fn methods_are_written_as_text() {
    assert_eq!(render_method(&getter("g", "v", "bool")), "pub fn g(&self) -> &bool { &self.v } ");
    assert_eq!(
        render_method(&setter("s", "v", "bool")),
        "pub fn s(&mut self, v: bool) { self.v = v; } "
    );
    let empty = ImplBlock { ident: String::from("E"), methods: vec![] };
    assert_eq!(render(&empty), "impl E { }");
}

#[test]
fn emit_keeps_the_record_name() {
    let attrs = vec![field_config(&field("x", "i32", vec![]))];
    let block = emit("Point", &attrs);
    assert_eq!(block.ident, "Point");
    assert_eq!(block.methods, vec![getter("x", "x", "i32"), setter("set_x", "x", "i32")]);
}

#[test]
fn generating_twice_gives_the_same_block() {
    let decl = record(
        "Server",
        vec![
            field("host", "String", vec![cons("(setter = false, rename_getter = get_host)")]),
            field("port", "u16", vec![]),
        ],
    );
    let first = construct(&decl).unwrap();
    let second = construct(&decl).unwrap();
    assert_eq!(first, second);
    assert_eq!(render(&first), render(&second));
}
