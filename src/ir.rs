//! The intermediate representation: the closed set of statements that the
//! builder produces and the renderer turns into text, with their views.
use vstd::prelude::*;

verus! {

/// The kind of an enum, as its declaring macro tells it.
#[derive(Debug, Clone, Copy, PartialEq, Eq, Structural)]
pub enum UnexposedMacro {
    Enum,
    Options,
    ClosedEnum,
    ErrorEnum,
}

/// A free-form list of derivations, carried through unread.
#[derive(Debug, Clone, PartialEq, Eq)]
pub struct Derives(pub String);

/// The list that a class gets when its configuration names none.
pub open spec fn default_derives() -> Seq<char> {
    "Debug, PartialEq, Eq, Hash"@
}

impl Default for Derives {
    fn default() -> (r: Derives)
        ensures
            r@ == default_derives(),
    {
        Derives(String::from_str("Debug, PartialEq, Eq, Hash"))
    }
}

impl View for Derives {
    type V = Seq<char>;

    open spec fn view(&self) -> Seq<char> {
        self.0@
    }
}

impl Derives {
    /// The derive attribute that carries the list.
    pub fn render(&self) -> (r: String)
        ensures
            r@ == "#[derive("@ + self@ + ")]"@,
    {
        let mut r = String::from_str("#[derive(");
        r.append(self.0.as_str());
        r.append(")]");
        r
    }

    /// A copy with the same text.
    pub fn duplicate(&self) -> (r: Derives)
        ensures
            r@ == self@,
    {
        Derives(self.0.clone())
    }
}

/// A named type with the names of its generic arguments.
#[derive(Debug, Clone, PartialEq, Eq)]
pub struct GenericType {
    pub name: String,
    pub generics: Vec<String>,
}

/// The mathematical value of a [`GenericType`].
pub struct GenericTypeV {
    pub name: Seq<char>,
    pub generics: Seq<Seq<char>>,
}

/// The views of a list of strings.
pub open spec fn strings_view(v: Seq<String>) -> Seq<Seq<char>> {
    v.map_values(|s: String| s@)
}

/// The views of a list of (name, text) pairs.
pub open spec fn pairs_view(v: Seq<(String, String)>) -> Seq<(Seq<char>, Seq<char>)> {
    v.map_values(|p: (String, String)| (p.0@, p.1@))
}

impl View for GenericType {
    type V = GenericTypeV;

    open spec fn view(&self) -> GenericTypeV {
        GenericTypeV { name: self.name@, generics: strings_view(self.generics@) }
    }
}

/// A copy of a list of strings with the same views.
pub fn copy_strings(v: &Vec<String>) -> (r: Vec<String>)
    ensures
        strings_view(r@) == strings_view(v@),
{
    let mut r: Vec<String> = Vec::new();
    let n = v.len();
    for i in 0..n
        invariant
            n == v@.len(),
            r@.len() == i,
            forall|j: int| 0 <= j < i ==> (#[trigger] r@[j])@ == v@[j]@,
    {
        r.push(v[i].clone());
    }
    assert(strings_view(r@) =~= strings_view(v@));
    r
}

impl GenericType {
    /// A copy with the same name and generic arguments.
    pub fn duplicate(&self) -> (r: GenericType)
        ensures
            r@ == self@,
    {
        GenericType { name: self.name.clone(), generics: copy_strings(&self.generics) }
    }
}

/// One method of a class, category or protocol.
#[derive(Debug, Clone, PartialEq, Eq)]
pub struct Method {
    /// The selector, with its colons.
    pub selector: String,
    /// The name of the function that the selector becomes.
    pub fn_name: String,
    pub is_class: bool,
    pub is_unsafe: bool,
    /// Argument names and types, in order.
    pub arguments: Vec<(String, String)>,
    /// The rendered return part of the signature (empty for none).
    pub result_type: String,
}

/// The mathematical value of a [`Method`].
pub struct MethodV {
    pub selector: Seq<char>,
    pub fn_name: Seq<char>,
    pub is_class: bool,
    pub is_unsafe: bool,
    pub arguments: Seq<(Seq<char>, Seq<char>)>,
    pub result_type: Seq<char>,
}

impl View for Method {
    type V = MethodV;

    open spec fn view(&self) -> MethodV {
        MethodV {
            selector: self.selector@,
            fn_name: self.fn_name@,
            is_class: self.is_class,
            is_unsafe: self.is_unsafe,
            arguments: pairs_view(self.arguments@),
            result_type: self.result_type@,
        }
    }
}

/// The views of a list of methods.
pub open spec fn methods_view(v: Seq<Method>) -> Seq<MethodV> {
    v.map_values(|m: Method| m@)
}

/// One emitted declaration unit.
#[derive(Debug, Clone, PartialEq, Eq)]
pub enum Stmt {
    /// A class, from an interface declaration.
    ClassDecl {
        ty: GenericType,
        availability: String,
        /// `None` for a root class.
        superclass: Option<GenericType>,
        derives: Derives,
    },
    /// The methods of a class or of one of its categories.
    Methods {
        ty: GenericType,
        availability: String,
        methods: Vec<Method>,
        /// The category's own name, where it has one.
        category_name: Option<String>,
    },
    /// A protocol.
    ProtocolDecl {
        name: String,
        availability: String,
        protocols: Vec<String>,
        methods: Vec<Method>,
    },
    /// A class or category conforming to a protocol.
    ProtocolImpl {
        ty: GenericType,
        availability: String,
        protocol: String,
    },
    /// A struct, named or wrapped by a typedef.
    StructDecl {
        name: String,
        boxable: bool,
        fields: Vec<(String, String)>,
    },
    /// An enum with its variants and their value expressions.
    EnumDecl {
        name: Option<String>,
        ty: String,
        kind: Option<UnexposedMacro>,
        variants: Vec<(String, String)>,
    },
    /// An extern or static variable.
    VarDecl {
        name: String,
        ty: String,
        value: Option<String>,
    },
    /// A function; `body` is set for an inline one.
    FnDecl {
        name: String,
        arguments: Vec<(String, String)>,
        result_type: String,
        body: Option<()>,
    },
    /// A type alias.
    AliasDecl {
        name: String,
        ty: String,
    },
}

/// The mathematical value of a [`Stmt`].
pub enum StmtV {
    ClassDecl {
        ty: GenericTypeV,
        availability: Seq<char>,
        superclass: Option<GenericTypeV>,
        derives: Seq<char>,
    },
    Methods {
        ty: GenericTypeV,
        availability: Seq<char>,
        methods: Seq<MethodV>,
        category_name: Option<Seq<char>>,
    },
    ProtocolDecl {
        name: Seq<char>,
        availability: Seq<char>,
        protocols: Seq<Seq<char>>,
        methods: Seq<MethodV>,
    },
    ProtocolImpl {
        ty: GenericTypeV,
        availability: Seq<char>,
        protocol: Seq<char>,
    },
    StructDecl {
        name: Seq<char>,
        boxable: bool,
        fields: Seq<(Seq<char>, Seq<char>)>,
    },
    EnumDecl {
        name: Option<Seq<char>>,
        ty: Seq<char>,
        kind: Option<UnexposedMacro>,
        variants: Seq<(Seq<char>, Seq<char>)>,
    },
    VarDecl {
        name: Seq<char>,
        ty: Seq<char>,
        value: Option<Seq<char>>,
    },
    FnDecl {
        name: Seq<char>,
        arguments: Seq<(Seq<char>, Seq<char>)>,
        result_type: Seq<char>,
        inline: bool,
    },
    AliasDecl {
        name: Seq<char>,
        ty: Seq<char>,
    },
}

/// The view of an optional string.
pub open spec fn opt_view(o: Option<String>) -> Option<Seq<char>> {
    match o {
        Some(s) => Some(s@),
        None => None,
    }
}

/// The view of an optional generic type.
pub open spec fn opt_ty_view(o: Option<GenericType>) -> Option<GenericTypeV> {
    match o {
        Some(t) => Some(t@),
        None => None,
    }
}

impl View for Stmt {
    type V = StmtV;

    open spec fn view(&self) -> StmtV {
        match self {
            Stmt::ClassDecl { ty, availability, superclass, derives } => StmtV::ClassDecl {
                ty: ty@,
                availability: availability@,
                superclass: opt_ty_view(*superclass),
                derives: derives@,
            },
            Stmt::Methods { ty, availability, methods, category_name } => StmtV::Methods {
                ty: ty@,
                availability: availability@,
                methods: methods_view(methods@),
                category_name: opt_view(*category_name),
            },
            Stmt::ProtocolDecl { name, availability, protocols, methods } => StmtV::ProtocolDecl {
                name: name@,
                availability: availability@,
                protocols: strings_view(protocols@),
                methods: methods_view(methods@),
            },
            Stmt::ProtocolImpl { ty, availability, protocol } => StmtV::ProtocolImpl {
                ty: ty@,
                availability: availability@,
                protocol: protocol@,
            },
            Stmt::StructDecl { name, boxable, fields } => StmtV::StructDecl {
                name: name@,
                boxable: *boxable,
                fields: pairs_view(fields@),
            },
            Stmt::EnumDecl { name, ty, kind, variants } => StmtV::EnumDecl {
                name: opt_view(*name),
                ty: ty@,
                kind: *kind,
                variants: pairs_view(variants@),
            },
            Stmt::VarDecl { name, ty, value } => StmtV::VarDecl {
                name: name@,
                ty: ty@,
                value: opt_view(*value),
            },
            Stmt::FnDecl { name, arguments, result_type, body } => StmtV::FnDecl {
                name: name@,
                arguments: pairs_view(arguments@),
                result_type: result_type@,
                inline: body is Some,
            },
            Stmt::AliasDecl { name, ty } => StmtV::AliasDecl { name: name@, ty: ty@ },
        }
    }
}

/// The views of a list of statements.
pub open spec fn stmts_view(v: Seq<Stmt>) -> Seq<StmtV> {
    v.map_values(|s: Stmt| s@)
}

} // verus!
