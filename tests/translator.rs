use header_translator::compare::Mismatch;
use header_translator::config::{ClassData, Config, EnumData, ItemData, MethodData};
use header_translator::decl::{parse_objc_decl, Mode};
use header_translator::encode::{encode, Class, Object, Sel};
use header_translator::ir::{Derives, GenericType, Method, Stmt, UnexposedMacro};
use header_translator::node::{Node, NodeKind, ParseError, TypeInfo};
use header_translator::render::render_all;
use header_translator::text::selector_fn_name;

fn config() -> Config {
    Config {
        class_data: Vec::new(),
        protocol_data: Vec::new(),
        struct_data: Vec::new(),
        typedef_data: Vec::new(),
        enum_data: Vec::new(),
        statics: Vec::new(),
        fns: Vec::new(),
    }
}

fn named(kind: NodeKind, name: &str) -> Node {
    Node {
        name: Some(name.to_string()),
        ..Node::new(kind)
    }
}

fn typed(kind: NodeKind, name: &str, ty: &str) -> Node {
    Node {
        name: Some(name.to_string()),
        ty: TypeInfo::Rendered(ty.to_string()),
        ..Node::new(kind)
    }
}

fn method(selector: &str, result: &str) -> Node {
    typed(NodeKind::ObjCInstanceMethodDecl, selector, result)
}

fn property(name: &str, setter: Option<&str>, ty: &str) -> Node {
    Node {
        name: Some(name.to_string()),
        ty: TypeInfo::Rendered(ty.to_string()),
        readonly: setter.is_none(),
        getter_name: Some(name.to_string()),
        setter_name: setter.map(|s| s.to_string()),
        ..Node::new(NodeKind::ObjCPropertyDecl)
    }
}

fn interface(name: &str, children: Vec<Node>) -> Node {
    Node {
        name: Some(name.to_string()),
        availability: Some("macos 10.0".to_string()),
        children,
        ..Node::new(NodeKind::ObjCInterfaceDecl)
    }
}

fn category(name: Option<&str>, children: Vec<Node>) -> Node {
    Node {
        name: name.map(|n| n.to_string()),
        availability: Some("macos 10.0".to_string()),
        children,
        ..Node::new(NodeKind::ObjCCategoryDecl)
    }
}

fn constant(name: &str, value: &str, literal: Option<&str>) -> Node {
    Node {
        name: Some(name.to_string()),
        value: Some(value.to_string()),
        literal: literal.map(|l| l.to_string()),
        ..Node::new(NodeKind::EnumConstantDecl)
    }
}

fn enum_node(name: &str, children: Vec<Node>) -> Node {
    Node {
        name: Some(name.to_string()),
        ty: TypeInfo::Rendered("NSUInteger".to_string()),
        is_definition: true,
        children,
        ..Node::new(NodeKind::EnumDecl)
    }
}

fn methods_of(stmt: &Stmt) -> &Vec<Method> {
    match stmt {
        Stmt::Methods { methods, .. } => methods,
        Stmt::ProtocolDecl { methods, .. } => methods,
        _ => panic!("no methods in {stmt:?}"),
    }
}

#[test]
fn test_encode() {
    assert!(encode::<u32>() == "I");
    assert!(encode::<()>() == "v");
    assert!(encode::<&Object>() == "@");
    assert!(encode::<&Class>() == "#");
    assert!(encode::<Sel>() == ":");
}

#[test]
fn interface_statements_in_order() {
    let node = interface(
        "NSFoo",
        vec![
            named(NodeKind::ObjCSuperClassRef, "NSObject"),
            named(NodeKind::ObjCProtocolRef, "NSCopying"),
            named(NodeKind::ObjCProtocolRef, "NSCoding"),
            method("count", " -> usize"),
        ],
    );
    let stmts = Stmt::parse(&node, &config()).unwrap();
    assert_eq!(stmts.len(), 4);
    let ty = GenericType { name: "NSFoo".to_string(), generics: vec![] };
    assert_eq!(
        stmts[0],
        Stmt::ClassDecl {
            ty: ty.clone(),
            availability: "macos 10.0".to_string(),
            superclass: Some(GenericType { name: "NSObject".to_string(), generics: vec![] }),
            derives: Derives::default(),
        }
    );
    assert!(matches!(&stmts[1], Stmt::ProtocolImpl { protocol, .. } if protocol == "NSCopying"));
    assert!(matches!(&stmts[2], Stmt::ProtocolImpl { protocol, .. } if protocol == "NSCoding"));
    assert!(matches!(&stmts[3], Stmt::Methods { category_name: None, .. }));
    assert_eq!(
        render_all(&stmts),
        "extern_class!(\n    #[derive(Debug, PartialEq, Eq, Hash)]\n    pub struct NSFoo;\n\n    unsafe impl ClassType for NSFoo {\n        type Super = NSObject;\n    }\n);\n\
         extern_methods!(\n    unsafe impl NSFoo {\n        #[method(count)]\n        pub unsafe fn count(&self,) -> usize;\n    }\n);\n"
    );
}

#[test]
fn definition_skipped_leaves_out_class() {
    let mut c = config();
    c.class_data.push((
        "NSFoo".to_string(),
        ClassData { skipped: false, definition_skipped: true, derives: None, methods: vec![] },
    ));
    let node = interface(
        "NSFoo",
        vec![named(NodeKind::ObjCSuperClassRef, "NSObject"), named(NodeKind::ObjCProtocolRef, "NSCopying")],
    );
    let stmts = Stmt::parse(&node, &c).unwrap();
    assert_eq!(stmts.len(), 2);
    assert!(matches!(&stmts[0], Stmt::ProtocolImpl { .. }));
    assert!(matches!(&stmts[1], Stmt::Methods { .. }));
}

#[test]
fn missing_superclass_is_fatal_when_definition_skipped() {
    let mut c = config();
    c.class_data.push((
        "NSFoo".to_string(),
        ClassData { skipped: false, definition_skipped: true, derives: None, methods: vec![] },
    ));
    let node = interface("NSFoo", vec![named(NodeKind::ObjCProtocolRef, "NSCopying")]);
    assert_eq!(Stmt::parse(&node, &c), Err(ParseError::NoSuperclass));
}

#[test]
fn skipped_class_yields_nothing() {
    let mut c = config();
    c.class_data.push((
        "NSFoo".to_string(),
        ClassData { skipped: true, definition_skipped: false, derives: None, methods: vec![] },
    ));
    let node = interface("NSFoo", vec![named(NodeKind::ObjCSuperClassRef, "NSObject")]);
    assert_eq!(Stmt::parse(&node, &c), Ok(vec![]));
}

#[test]
fn root_class_and_generics_render() {
    let node = interface(
        "NSArray",
        vec![
            Node::new(NodeKind::ObjCRootClass),
            named(NodeKind::TemplateTypeParameter, "ObjectType"),
        ],
    );
    let stmts = Stmt::parse(&node, &config()).unwrap();
    assert_eq!(
        stmts[0].render(),
        "__inner_extern_class!(\n    #[derive(Debug, PartialEq, Eq, Hash)]\n    pub struct NSArray<ObjectType: Message = Object, ObjectTypeOwnership: Ownership = Shared, > {\n\
         _inner0: PhantomData<*mut (ObjectType, ObjectTypeOwnership)>,\n\
         notunwindsafe: PhantomData<&'static mut ()>,\n}\n\n\
         \x20   unsafe impl<ObjectType: Message, ObjectTypeOwnership: Ownership, > ClassType for NSArray<ObjectType, ObjectTypeOwnership, > {\n\
         \x20       type Super = Object;\n    }\n);\n"
    );
}

#[test]
fn superclass_generics_from_type_refs() {
    let node = interface(
        "NSMutableArray",
        vec![
            named(NodeKind::TemplateTypeParameter, "ObjectType"),
            named(NodeKind::ObjCSuperClassRef, "NSArray"),
            named(NodeKind::TypeRef, "ObjectType"),
        ],
    );
    let stmts = Stmt::parse(&node, &config()).unwrap();
    match &stmts[0] {
        Stmt::ClassDecl { superclass: Some(s), .. } => {
            assert_eq!(s.name, "NSArray");
            assert_eq!(s.generics, vec!["ObjectType".to_string()]);
        }
        other => panic!("unexpected {other:?}"),
    }
}

#[test]
fn type_ref_without_superclass_is_rejected() {
    let node = interface("NSFoo", vec![named(NodeKind::TypeRef, "X")]);
    assert_eq!(
        Stmt::parse(&node, &config()),
        Err(ParseError::UnexpectedChild {
            parent: NodeKind::ObjCInterfaceDecl,
            child: NodeKind::TypeRef
        })
    );
}

#[test]
fn missing_superclass_is_fatal() {
    let node = interface("NSFoo", vec![]);
    assert_eq!(Stmt::parse(&node, &config()), Err(ParseError::NoSuperclass));
}

#[test]
fn missing_availability_is_fatal() {
    let node = Node {
        name: Some("NSFoo".to_string()),
        ..Node::new(NodeKind::ObjCInterfaceDecl)
    };
    assert_eq!(
        Stmt::parse(&node, &config()),
        Err(ParseError::MissingAvailability(NodeKind::ObjCInterfaceDecl))
    );
}

#[test]
fn property_with_setter_yields_two_methods() {
    let node = interface(
        "NSFoo",
        vec![
            named(NodeKind::ObjCSuperClassRef, "NSObject"),
            property("title", Some("setTitle:"), "Id<NSString>"),
            method("title", " -> Id<NSString>"),
            method("setTitle:", ""),
        ],
    );
    let stmts = Stmt::parse(&node, &config()).unwrap();
    let methods = methods_of(&stmts[1]);
    assert_eq!(methods.len(), 2);
    assert_eq!(methods[0].selector, "title");
    assert_eq!(methods[0].fn_name, "title");
    assert_eq!(methods[0].result_type, " -> Id<NSString>");
    assert_eq!(methods[1].selector, "setTitle:");
    assert_eq!(methods[1].fn_name, "setTitle");
    assert_eq!(methods[1].arguments, vec![("value".to_string(), "Id<NSString>".to_string())]);
    assert!(!methods[0].is_class && !methods[1].is_class);
}

#[test]
fn readonly_property_yields_one_method() {
    let node = interface(
        "NSFoo",
        vec![
            named(NodeKind::ObjCSuperClassRef, "NSObject"),
            property("count", None, "usize"),
            method("count", " -> usize"),
        ],
    );
    let stmts = Stmt::parse(&node, &config()).unwrap();
    let methods = methods_of(&stmts[1]);
    assert_eq!(methods.len(), 1);
    assert_eq!(methods[0].selector, "count");
}

#[test]
fn skipped_accessor_is_left_out() {
    let mut c = config();
    c.class_data.push((
        "NSFoo".to_string(),
        ClassData {
            skipped: false,
            definition_skipped: false,
            derives: None,
            methods: vec![("setTitle".to_string(), MethodData { skipped: true, is_unsafe: true })],
        },
    ));
    let node = interface(
        "NSFoo",
        vec![
            named(NodeKind::ObjCSuperClassRef, "NSObject"),
            property("title", Some("setTitle:"), "Id<NSString>"),
            method("title", " -> Id<NSString>"),
            method("setTitle:", ""),
        ],
    );
    let stmts = Stmt::parse(&node, &c).unwrap();
    let methods = methods_of(&stmts[1]);
    assert_eq!(methods.len(), 1);
    assert_eq!(methods[0].selector, "title");
}

#[test]
fn explicit_accessor_method_is_rejected() {
    let node = interface(
        "NSFoo",
        vec![
            named(NodeKind::ObjCSuperClassRef, "NSObject"),
            method("count", " -> usize"),
            property("count", None, "usize"),
        ],
    );
    assert_eq!(Stmt::parse(&node, &config()), Err(ParseError::UnmatchedProperties));
}

#[test]
fn legacy_accessor_is_tolerated() {
    let node = interface(
        "NSFoo",
        vec![
            named(NodeKind::ObjCSuperClassRef, "NSObject"),
            property("displayName", Some("setDisplayName:"), "Id<NSString>"),
            method("displayName", " -> Id<NSString>"),
        ],
    );
    let stmts = Stmt::parse(&node, &config()).unwrap();
    assert_eq!(methods_of(&stmts[1]).len(), 2);
}

#[test]
fn other_unmatched_accessor_is_rejected() {
    let node = interface(
        "NSFoo",
        vec![
            named(NodeKind::ObjCSuperClassRef, "NSObject"),
            property("title", Some("setTitle:"), "Id<NSString>"),
            method("title", " -> Id<NSString>"),
        ],
    );
    assert_eq!(Stmt::parse(&node, &config()), Err(ParseError::UnmatchedProperties));
}

#[test]
fn duplicate_property_is_rejected() {
    let node = interface(
        "NSFoo",
        vec![
            named(NodeKind::ObjCSuperClassRef, "NSObject"),
            property("count", None, "usize"),
            property("count", None, "usize"),
        ],
    );
    assert_eq!(Stmt::parse(&node, &config()), Err(ParseError::DuplicateProperty));
}

#[test]
fn duplicate_setter_is_rejected() {
    let other = Node {
        name: Some("other".to_string()),
        ty: TypeInfo::Rendered("usize".to_string()),
        getter_name: Some("other".to_string()),
        setter_name: Some("setCount:".to_string()),
        ..Node::new(NodeKind::ObjCPropertyDecl)
    };
    let node = interface(
        "NSFoo",
        vec![
            named(NodeKind::ObjCSuperClassRef, "NSObject"),
            property("count", Some("setCount:"), "usize"),
            other,
        ],
    );
    assert_eq!(Stmt::parse(&node, &config()), Err(ParseError::DuplicateProperty));
}

#[test]
fn rendering_is_deterministic() {
    let node = interface(
        "NSFoo",
        vec![
            named(NodeKind::ObjCSuperClassRef, "NSObject"),
            property("title", Some("setTitle:"), "Id<NSString>"),
            method("title", " -> Id<NSString>"),
            method("setTitle:", ""),
        ],
    );
    let c = config();
    let first = render_all(&Stmt::parse(&node, &c).unwrap());
    let second = render_all(&Stmt::parse(&node, &c).unwrap());
    assert_eq!(first, second);
    assert!(first.contains("pub unsafe fn setTitle(&self,value: Id<NSString>,);"));
}

#[test]
fn enum_use_value_renders_raw_integer() {
    let mut c = config();
    c.enum_data.push((
        "Flags".to_string(),
        EnumData { skipped: false, use_value: true, constants: vec![] },
    ));
    let node = enum_node("Flags", vec![constant("A", "1", Some("1 << 0"))]);
    let stmts = Stmt::parse(&node, &c).unwrap();
    match &stmts[0] {
        Stmt::EnumDecl { variants, .. } => {
            assert_eq!(variants, &vec![("A".to_string(), "1".to_string())])
        }
        other => panic!("unexpected {other:?}"),
    }
}

#[test]
fn enum_literal_or_value() {
    let node = enum_node(
        "Flags",
        vec![constant("A", "1", Some("1 << 0")), constant("B", "2", None)],
    );
    let stmts = Stmt::parse(&node, &config()).unwrap();
    match &stmts[0] {
        Stmt::EnumDecl { variants, kind, .. } => {
            assert_eq!(
                variants,
                &vec![
                    ("A".to_string(), "1 << 0".to_string()),
                    ("B".to_string(), "2".to_string())
                ]
            );
            assert_eq!(*kind, None);
        }
        other => panic!("unexpected {other:?}"),
    }
}

#[test]
fn bitmask_enum_renders_options() {
    let node = enum_node(
        "Flags",
        vec![
            Node::new(NodeKind::FlagEnum),
            constant("A", "1", Some("1")),
            constant("B", "2", Some("2")),
            constant("C", "4", Some("4")),
        ],
    );
    let stmts = Stmt::parse(&node, &config()).unwrap();
    assert_eq!(
        render_all(&stmts),
        "ns_options!(\n    #[underlying(NSUInteger)]\n    pub enum Flags {\n        A = 1,\n        B = 2,\n        C = 4,\n    }\n);\n"
    );
}

#[test]
fn enum_kind_markers_must_agree() {
    let agreeing = enum_node(
        "Flags",
        vec![
            Node { attr_macro: Some(UnexposedMacro::Options), ..Node::new(NodeKind::UnexposedAttr) },
            Node::new(NodeKind::FlagEnum),
        ],
    );
    let stmts = Stmt::parse(&agreeing, &config()).unwrap();
    assert!(matches!(&stmts[0], Stmt::EnumDecl { kind: Some(UnexposedMacro::Options), .. }));
    let differing = enum_node(
        "Flags",
        vec![
            Node { attr_macro: Some(UnexposedMacro::Enum), ..Node::new(NodeKind::UnexposedAttr) },
            Node::new(NodeKind::FlagEnum),
        ],
    );
    assert_eq!(Stmt::parse(&differing, &config()), Err(ParseError::DifferingEnumKinds));
}

#[test]
fn enum_non_definition_and_skipped_constant() {
    let node = Node { is_definition: false, ..enum_node("Flags", vec![]) };
    assert_eq!(Stmt::parse(&node, &config()), Ok(vec![]));
    let mut c = config();
    c.enum_data.push((
        "Flags".to_string(),
        EnumData {
            skipped: false,
            use_value: false,
            constants: vec![("B".to_string(), ItemData { skipped: true })],
        },
    ));
    let node = enum_node("Flags", vec![constant("A", "1", None), constant("B", "2", None)]);
    let stmts = Stmt::parse(&node, &c).unwrap();
    assert!(matches!(&stmts[0], Stmt::EnumDecl { variants, .. } if variants.len() == 1));
}

#[test]
fn enum_constant_without_value_is_fatal() {
    let node = enum_node("Flags", vec![named(NodeKind::EnumConstantDecl, "A")]);
    assert_eq!(
        Stmt::parse(&node, &config()),
        Err(ParseError::MissingValue(NodeKind::EnumConstantDecl))
    );
}

#[test]
fn variadic_function_yields_nothing() {
    let node = Node {
        is_variadic: true,
        ..typed(NodeKind::FunctionDecl, "NSLog", "")
    };
    assert_eq!(Stmt::parse(&node, &config()), Ok(vec![]));
}

#[test]
fn function_declarations_render() {
    let node = Node {
        children: vec![
            typed(NodeKind::ParmDecl, "type", "NSInteger"),
            Node { ty: TypeInfo::Rendered("BOOL".to_string()), ..Node::new(NodeKind::ParmDecl) },
        ],
        ..typed(NodeKind::FunctionDecl, "NSDoIt", " -> BOOL")
    };
    let stmts = Stmt::parse(&node, &config()).unwrap();
    assert_eq!(
        render_all(&stmts),
        "extern_fn!(\n    pub unsafe fn NSDoIt(type_: NSInteger,_: BOOL,) -> BOOL;\n);\n"
    );
    let inline = Node { is_inline: true, ..typed(NodeKind::FunctionDecl, "NSMax", "") };
    let stmts = Stmt::parse(&inline, &config()).unwrap();
    assert_eq!(
        render_all(&stmts),
        "inline_fn!(\n    pub unsafe fn NSMax() {\n        todo!()\n    }\n);\n"
    );
}

#[test]
fn static_function_is_fatal() {
    let node = Node { is_static: true, ..typed(NodeKind::FunctionDecl, "f", "") };
    assert_eq!(Stmt::parse(&node, &config()), Err(ParseError::StaticFunction));
}

#[test]
fn category_methods_carry_category_name() {
    let node = category(
        Some("NSExtras"),
        vec![
            named(NodeKind::ObjCClassRef, "NSFoo"),
            named(NodeKind::ObjCProtocolRef, "NSCopying"),
            method("extra", ""),
        ],
    );
    let stmts = Stmt::parse(&node, &config()).unwrap();
    assert_eq!(stmts.len(), 2);
    assert!(matches!(&stmts[0], Stmt::Methods { category_name: Some(n), ty, .. } if n == "NSExtras" && ty.name == "NSFoo"));
    assert!(matches!(&stmts[1], Stmt::ProtocolImpl { protocol, .. } if protocol == "NSCopying"));
    assert!(stmts[0].render().starts_with("extern_methods!(\n    /// NSExtras\n    unsafe impl NSFoo {\n"));
}

#[test]
fn unnamed_category_has_no_name() {
    let node = category(None, vec![named(NodeKind::ObjCClassRef, "NSFoo")]);
    let stmts = Stmt::parse(&node, &config()).unwrap();
    assert!(matches!(&stmts[0], Stmt::Methods { category_name: None, .. }));
}

#[test]
fn category_needs_exactly_one_class() {
    let none = category(Some("X"), vec![]);
    assert_eq!(Stmt::parse(&none, &config()), Err(ParseError::CategoryClassMissing));
    let two = category(
        Some("X"),
        vec![named(NodeKind::ObjCClassRef, "A"), named(NodeKind::ObjCClassRef, "B")],
    );
    assert_eq!(Stmt::parse(&two, &config()), Err(ParseError::CategoryClassNotUnique));
}

#[test]
fn protocol_declaration_renders() {
    let node = Node {
        name: Some("NSCopying".to_string()),
        availability: Some("macos 10.0".to_string()),
        children: vec![
            Node::new(NodeKind::ObjCExplicitProtocolImpl),
            typed(NodeKind::ObjCClassMethodDecl, "copyWithZone:", " -> Id<Object>"),
        ],
        ..Node::new(NodeKind::ObjCProtocolDecl)
    };
    let stmts = Stmt::parse(&node, &config()).unwrap();
    assert_eq!(
        render_all(&stmts),
        "extern_protocol!(\n    pub struct NSCopying;\n\n    unsafe impl ProtocolType for NSCopying {\n        #[method(copyWithZone:)]\n        pub unsafe fn copyWithZone() -> Id<Object>;\n    }\n);\n"
    );
}

#[test]
fn protocol_rejects_class_only_children() {
    let node = Node {
        name: Some("P".to_string()),
        availability: Some("macos 10.0".to_string()),
        children: vec![Node::new(NodeKind::ObjCIvarDecl)],
        ..Node::new(NodeKind::ObjCProtocolDecl)
    };
    assert_eq!(
        Stmt::parse(&node, &config()),
        Err(ParseError::UnexpectedChild {
            parent: NodeKind::ObjCProtocolDecl,
            child: NodeKind::ObjCIvarDecl
        })
    );
}

#[test]
fn walker_modes_accept_their_children() {
    let body = interface(
        "NSFoo",
        vec![
            Node::new(NodeKind::ObjCIvarDecl),
            Node::new(NodeKind::ObjCException),
            Node::new(NodeKind::VisibilityAttr),
            Node::new(NodeKind::UnexposedAttr),
        ],
    );
    assert!(parse_objc_decl(&body, Mode::Class, None).is_ok());
    assert!(parse_objc_decl(&body, Mode::Category, None).is_err());
    let cat = category(None, vec![named(NodeKind::ObjCClassRef, "NSFoo")]);
    assert!(parse_objc_decl(&cat, Mode::Category, None).is_ok());
    assert!(parse_objc_decl(&cat, Mode::Class, None).is_err());
}

#[test]
fn typedef_wraps_anonymous_struct() {
    let node = Node {
        name: Some("NSRange".to_string()),
        children: vec![Node {
            children: vec![
                typed(NodeKind::FieldDecl, "location", "NSUInteger"),
                typed(NodeKind::FieldDecl, "_length", "NSUInteger"),
            ],
            ..Node::new(NodeKind::StructDecl)
        }],
        ..Node::new(NodeKind::TypedefDecl)
    };
    let stmts = Stmt::parse(&node, &config()).unwrap();
    assert_eq!(
        render_all(&stmts),
        "extern_struct!(\n    pub struct NSRange {\n        pub location: NSUInteger,\n        _length: NSUInteger,\n    }\n);\n"
    );
}

#[test]
fn typedef_of_named_struct_is_dropped() {
    let node = Node {
        name: Some("CGPoint".to_string()),
        children: vec![named(NodeKind::StructDecl, "CGPoint")],
        ..Node::new(NodeKind::TypedefDecl)
    };
    assert_eq!(Stmt::parse(&node, &config()), Ok(vec![]));
}

#[test]
fn typedef_alias_or_nothing() {
    let alias = typed(NodeKind::TypedefDecl, "NSInteger", "isize");
    let stmts = Stmt::parse(&alias, &config()).unwrap();
    assert_eq!(render_all(&stmts), "pub type NSInteger = isize;\n");
    let unrepresentable = Node {
        ty: TypeInfo::Unrepresentable,
        ..named(NodeKind::TypedefDecl, "Weird")
    };
    assert_eq!(Stmt::parse(&unrepresentable, &config()), Ok(vec![]));
    let missing = named(NodeKind::TypedefDecl, "Weird");
    assert_eq!(
        Stmt::parse(&missing, &config()),
        Err(ParseError::MissingType(NodeKind::TypedefDecl))
    );
}

#[test]
fn typedef_rejects_recognized_attribute() {
    let node = Node {
        children: vec![Node {
            attr_macro: Some(UnexposedMacro::Enum),
            ..Node::new(NodeKind::UnexposedAttr)
        }],
        ..typed(NodeKind::TypedefDecl, "T", "u8")
    };
    assert_eq!(
        Stmt::parse(&node, &config()),
        Err(ParseError::UnexpectedAttribute(UnexposedMacro::Enum))
    );
}

#[test]
fn named_structs() {
    let node = Node {
        children: vec![Node::new(NodeKind::ObjCBoxable), typed(NodeKind::FieldDecl, "x", "f64")],
        ..named(NodeKind::StructDecl, "CGPoint")
    };
    let stmts = Stmt::parse(&node, &config()).unwrap();
    assert!(matches!(&stmts[0], Stmt::StructDecl { boxable: true, fields, .. } if fields.len() == 1));
    let private = named(NodeKind::StructDecl, "_Private");
    assert_eq!(Stmt::parse(&private, &config()), Ok(vec![]));
    let bad = Node { children: vec![Node::new(NodeKind::Other)], ..named(NodeKind::StructDecl, "S") };
    assert_eq!(
        Stmt::parse(&bad, &config()),
        Err(ParseError::UnexpectedChild { parent: NodeKind::StructDecl, child: NodeKind::Other })
    );
}

#[test]
fn variables() {
    let extern_var = typed(NodeKind::VarDecl, "NSFoo", "&'static NSString");
    assert_eq!(
        render_all(&Stmt::parse(&extern_var, &config()).unwrap()),
        "extern_static!(NSFoo: &'static NSString);\n"
    );
    let with_value = Node {
        children: vec![Node { value: Some("5".to_string()), ..Node::new(NodeKind::Expression) }],
        ..typed(NodeKind::VarDecl, "N", "i32")
    };
    assert_eq!(
        render_all(&Stmt::parse(&with_value, &config()).unwrap()),
        "extern_static!(N: i32 = 5);\n"
    );
    let unrepresentable = Node {
        children: vec![Node::new(NodeKind::Expression)],
        ..typed(NodeKind::VarDecl, "N", "i32")
    };
    assert_eq!(Stmt::parse(&unrepresentable, &config()), Ok(vec![]));
    let twice = Node {
        children: vec![Node::new(NodeKind::Expression), Node::new(NodeKind::Expression)],
        ..typed(NodeKind::VarDecl, "N", "i32")
    };
    assert_eq!(Stmt::parse(&twice, &config()), Err(ParseError::DuplicateVariableValue));
}

#[test]
fn other_declarations() {
    assert_eq!(Stmt::parse(&Node::new(NodeKind::UnionDecl), &config()), Ok(vec![]));
    assert_eq!(Stmt::parse(&Node::new(NodeKind::ObjCClassRef), &config()), Ok(vec![]));
    assert_eq!(
        Stmt::parse(&Node::new(NodeKind::FieldDecl), &config()),
        Err(ParseError::UnknownDeclaration(NodeKind::FieldDecl))
    );
    assert_eq!(
        Stmt::parse(&Node::new(NodeKind::ObjCProtocolDecl), &config()),
        Err(ParseError::MissingName(NodeKind::ObjCProtocolDecl))
    );
}

#[test]
fn compare_reports_first_differing_method() {
    let node = |second: &str| {
        interface(
            "NSFoo",
            vec![
                named(NodeKind::ObjCSuperClassRef, "NSObject"),
                method("a", ""),
                method(second, ""),
            ],
        )
    };
    let left = Stmt::parse(&node("b"), &config()).unwrap();
    let right = Stmt::parse(&node("c"), &config()).unwrap();
    assert_eq!(left[1].compare(&left[1]), Ok(()));
    assert_eq!(left[1].compare(&right[1]), Err(Mismatch::Method(1)));
    assert_eq!(left[0].compare(&left[1]), Err(Mismatch::Statement));
}

#[test]
fn selector_function_names() {
    assert_eq!(selector_fn_name(&"setTitle:".to_string()), "setTitle");
    assert_eq!(selector_fn_name(&"insertObject:atIndex:".to_string()), "insertObject_atIndex");
    assert_eq!(selector_fn_name(&"count".to_string()), "count");
}
