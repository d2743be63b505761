use header_translator::id::ItemIdentifier;
use header_translator::ir::Derives;
use header_translator::node::{Node, NodeKind};
use header_translator::value::{Encoding, NSNumber, NSValue};

fn ident(name: &str, library: &str) -> ItemIdentifier {
    ItemIdentifier::with_name(name.to_string(), library.to_string(), None)
}

#[test]
fn feature_names_non_system_items() {
    let id = ident("NSString", "Foundation");
    assert_eq!(id.feature(), Some("Foundation_NSString".to_string()));
    assert!(id.is_nsstring());
    assert!(!id.is_nserror());
    let sys = ident("NSObject", "System");
    assert!(sys.is_system());
    assert_eq!(sys.feature(), None);
}

#[test]
fn nserror_identifier() {
    let id = ItemIdentifier::nserror();
    assert!(id.is_nserror());
    assert_eq!(id.file_name, Some("NSError".to_string()));
    assert!(!ident("NSError", "AppKit").is_nserror());
}

#[test]
fn identifiers_from_nodes() {
    let node = Node { name: Some("NSView".to_string()), ..Node::new(NodeKind::ObjCInterfaceDecl) };
    let id = ItemIdentifier::new(&node, "AppKit".to_string(), Some("NSView".to_string()));
    assert_eq!(id.name, "NSView");
    let some = id.clone().to_some();
    assert_eq!(some.name, Some("NSView".to_string()));
    assert_eq!(some.library, "AppKit");
    let anonymous = ItemIdentifier::new_optional(
        &Node::new(NodeKind::EnumDecl),
        "AppKit".to_string(),
        None,
    );
    assert_eq!(anonymous.name, None);
}

#[test]
fn default_derives() {
    assert_eq!(Derives::default().0, "Debug, PartialEq, Eq, Hash");
    assert_eq!(Derives::default().render(), "#[derive(Debug, PartialEq, Eq, Hash)]");
}

#[test]
fn number_encodings() {
    let number = |e: &str| NSNumber { value: NSValue::with_encoding(Some(e.to_string())) };
    assert_eq!(number("q").encoding(), Encoding::LongLong);
    assert_eq!(number("C").encoding(), Encoding::UChar);
    assert_eq!(number("d").encoding(), Encoding::Double);
    assert_eq!(number("L").encoding(), Encoding::ULong);
}

#[test]
fn value_encodings() {
    let value = NSValue::with_encoding(Some("I".to_string()));
    assert_eq!(value.encoding(), Some("I"));
    assert!(value.contains_encoding::<u32>());
    assert!(!value.contains_encoding::<i32>());
    assert_eq!(NSValue::with_encoding(None).encoding(), None);
}
