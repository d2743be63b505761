//! The identity of a declared symbol: its name, the library it ships in and
//! the header it comes from.
use vstd::prelude::*;

use crate::node::Node;

verus! {

/// Names are global, so `name` alone identifies the symbol; `library` and
/// `file_name` say where it comes from.
#[derive(Debug, Clone, PartialEq, Eq, Hash, PartialOrd, Ord)]
pub struct ItemIdentifier<N = String> {
    pub name: N,
    pub library: String,
    pub file_name: Option<String>,
}

impl<N> ItemIdentifier<N> {
    /// An identifier with the given name, from the given library and header.
    pub fn with_name(name: N, library: String, file_name: Option<String>) -> (r: Self)
        ensures
            r.name == name,
            r.library == library,
            r.file_name == file_name,
    {
        ItemIdentifier { name, library, file_name }
    }

    /// The same identifier with its name passed through `f`.
    fn map_name<R, F: FnOnce(N) -> R>(self, f: F) -> (r: ItemIdentifier<R>)
        requires
            f.requires((self.name,)),
        ensures
            f.ensures((self.name,), r.name),
            r.library == self.library,
            r.file_name == self.file_name,
    {
        let ItemIdentifier { name, library, file_name } = self;
        ItemIdentifier { name: f(name), library, file_name }
    }
}

/// The text of a symbol's feature tag.
pub open spec fn feature_text(library: Seq<char>, name: Seq<char>) -> Seq<char> {
    library + "_"@ + name
}

impl ItemIdentifier {
    /// The identifier of a named node, from the given library and header.
    pub fn new(node: &Node, library: String, file_name: Option<String>) -> (r: Self)
        requires
            node.name is Some,
        ensures
            r.name == node.name->0,
            r.library == library,
            r.file_name == file_name,
    {
        let name = match &node.name {
            Some(n) => n.clone(),
            None => String::new(),
        };
        Self::with_name(name, library, file_name)
    }

    /// The same identifier with its name as an option.
    pub fn to_some(self) -> (r: ItemIdentifier<Option<String>>)
        ensures
            r.name == Some(self.name),
            r.library == self.library,
            r.file_name == self.file_name,
    {
        self.map_name(|s: String| -> (o: Option<String>)
            ensures
                o == Some(s),
            { Some(s) })
    }

    /// Whether the symbol belongs to the system library.
    pub fn is_system(&self) -> (r: bool)
        ensures
            r == (self.library@ == "System"@),
    {
        self.library == String::from_str("System")
    }

    /// Whether this is the root error type.
    pub fn is_nserror(&self) -> (r: bool)
        ensures
            r == (self.library@ == "Foundation"@ && self.name@ == "NSError"@),
    {
        self.library == String::from_str("Foundation") && self.name == String::from_str("NSError")
    }

    /// The identifier of the root error type.
    pub fn nserror() -> (r: Self)
        ensures
            r.name@ == "NSError"@,
            r.library@ == "Foundation"@,
            r.file_name matches Some(f) && f@ == "NSError"@,
    {
        ItemIdentifier {
            name: String::from_str("NSError"),
            library: String::from_str("Foundation"),
            file_name: Some(String::from_str("NSError")),
        }
    }

    /// Whether this is the root string type.
    pub fn is_nsstring(&self) -> (r: bool)
        ensures
            r == (self.library@ == "Foundation"@ && self.name@ == "NSString"@),
    {
        self.library == String::from_str("Foundation") && self.name == String::from_str("NSString")
    }

    /// The feature tag `{library}_{name}`; none for a system symbol.
    pub fn feature(&self) -> (r: Option<String>)
        ensures
            r is None <==> self.library@ == "System"@,
            r matches Some(s) ==> s@ == feature_text(self.library@, self.name@),
    {
        if self.is_system() {
            None
        } else {
            let mut s = self.library.clone();
            s.append("_");
            s.append(self.name.as_str());
            Some(s)
        }
    }
}

impl ItemIdentifier<Option<String>> {
    /// The identifier of a node that may have no name.
    pub fn new_optional(node: &Node, library: String, file_name: Option<String>) -> (r: Self)
        ensures
            r.name == node.name,
            r.library == library,
            r.file_name == file_name,
    {
        Self::with_name(node.name.clone(), library, file_name)
    }
}

} // verus!
