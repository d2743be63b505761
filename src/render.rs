//! The renderer: each statement as binding-declaration text, a pure function
//! of the statement.
use vstd::prelude::*;

use crate::ir::{
    GenericType, GenericTypeV, Method, MethodV, Stmt, StmtV, UnexposedMacro, methods_view,
    pairs_view, stmts_view, strings_view,
};
use crate::text::is_private_name;

verus! {

/// The texts of `f` on each element of `s`, one after another.
pub open spec fn concat_map<A>(s: Seq<A>, f: spec_fn(A) -> Seq<char>) -> Seq<char>
    decreases s.len(),
{
    if s.len() == 0 {
        seq![]
    } else {
        concat_map(s.drop_last(), f) + f(s.last())
    }
}

proof fn lemma_concat_map_next<A>(s: Seq<A>, f: spec_fn(A) -> Seq<char>, i: int)
    requires
        0 <= i < s.len(),
    ensures
        concat_map(s.subrange(0, i + 1), f) == concat_map(s.subrange(0, i), f) + f(s[i]),
{
    assert(s.subrange(0, i + 1).drop_last() =~= s.subrange(0, i));
}

/// The text of a decimal digit.
pub open spec fn digit(d: nat) -> char {
    if d == 0 {
        '0'
    } else if d == 1 {
        '1'
    } else if d == 2 {
        '2'
    } else if d == 3 {
        '3'
    } else if d == 4 {
        '4'
    } else if d == 5 {
        '5'
    } else if d == 6 {
        '6'
    } else if d == 7 {
        '7'
    } else if d == 8 {
        '8'
    } else {
        '9'
    }
}

/// A number in decimal.
pub open spec fn decimal(n: nat) -> Seq<char>
    decreases n,
{
    if n < 10 {
        seq![digit(n)]
    } else {
        decimal(n / 10).push(digit(n % 10))
    }
}

fn digit_char(d: usize) -> (c: char)
    requires
        d < 10,
    ensures
        c == digit(d as nat),
{
    if d == 0 {
        '0'
    } else if d == 1 {
        '1'
    } else if d == 2 {
        '2'
    } else if d == 3 {
        '3'
    } else if d == 4 {
        '4'
    } else if d == 5 {
        '5'
    } else if d == 6 {
        '6'
    } else if d == 7 {
        '7'
    } else if d == 8 {
        '8'
    } else {
        '9'
    }
}

fn put_decimal(out: &mut String, n: usize)
    ensures
        final(out)@ == old(out)@ + decimal(n as nat),
    decreases n,
{
    if n >= 10 {
        put_decimal(out, n / 10);
    }
    crate::text::push_char(out, digit_char(n % 10));
    assert(final(out)@ =~= old(out)@ + decimal(n as nat));
}

/// Each element followed by `suffix`.
pub open spec fn each_with(s: Seq<Seq<char>>, suffix: Seq<char>) -> Seq<char> {
    concat_map(s, |g: Seq<char>| g + suffix)
}

fn put_each_with(out: &mut String, s: &Vec<String>, suffix: &str)
    ensures
        final(out)@ == old(out)@ + each_with(strings_view(s@), suffix@),
{
    let ghost start = out@;
    let ghost f = |g: Seq<char>| g + suffix@;
    let n = s.len();
    for i in 0..n
        invariant
            n == s@.len(),
            f == (|g: Seq<char>| g + suffix@),
            out@ == start + concat_map(strings_view(s@).subrange(0, i as int), f),
    {
        proof {
            lemma_concat_map_next(strings_view(s@), f, i as int);
            assert(strings_view(s@).subrange(0, i + 1) =~= strings_view(s@.subrange(0, i + 1)));
        }
        out.append(s[i].as_str());
        out.append(suffix);
        assert(out@ =~= start + concat_map(strings_view(s@).subrange(0, i + 1), f));
    }
    assert(strings_view(s@).subrange(0, n as int) =~= strings_view(s@));
}

/// A type with its generic arguments, each followed by its ownership
/// parameter.
pub open spec fn ty_text(t: GenericTypeV) -> Seq<char> {
    if t.generics.len() == 0 {
        t.name
    } else {
        t.name + "<"@ + each_with(t.generics, ", "@) + each_with(t.generics, "Ownership, "@) + ">"@
    }
}

fn put_ty(out: &mut String, t: &GenericType)
    ensures
        final(out)@ == old(out)@ + ty_text(t@),
{
    out.append(t.name.as_str());
    if t.generics.len() > 0 {
        out.append("<");
        put_each_with(out, &t.generics, ", ");
        put_each_with(out, &t.generics, "Ownership, ");
        out.append(">");
    }
    assert(final(out)@ =~= old(out)@ + ty_text(t@));
}

/// The generic parameters of an impl, with their bounds.
pub open spec fn params_text(gs: Seq<Seq<char>>) -> Seq<char> {
    if gs.len() == 0 {
        seq![]
    } else {
        "<"@ + each_with(gs, ": Message, "@) + each_with(gs, "Ownership: Ownership, "@) + ">"@
    }
}

fn put_params(out: &mut String, gs: &Vec<String>)
    ensures
        final(out)@ == old(out)@ + params_text(strings_view(gs@)),
{
    if gs.len() > 0 {
        out.append("<");
        put_each_with(out, gs, ": Message, ");
        put_each_with(out, gs, "Ownership: Ownership, ");
        out.append(">");
    }
    assert(final(out)@ =~= old(out)@ + params_text(strings_view(gs@)));
}

/// The storage line of the generic parameter `g` at position `i`.
pub open spec fn inner_line(i: nat, g: Seq<char>) -> Seq<char> {
    "_inner"@ + decimal(i) + ": PhantomData<*mut ("@ + g + ", "@ + g + "Ownership)>,\n"@
}

/// The storage lines of the generic parameters, numbered from zero.
pub open spec fn inner_lines(gs: Seq<Seq<char>>) -> Seq<char>
    decreases gs.len(),
{
    if gs.len() == 0 {
        seq![]
    } else {
        inner_lines(gs.drop_last()) + inner_line((gs.len() - 1) as nat, gs.last())
    }
}

fn put_inner_lines(out: &mut String, gs: &Vec<String>)
    ensures
        final(out)@ == old(out)@ + inner_lines(strings_view(gs@)),
{
    let ghost start = out@;
    let n = gs.len();
    for i in 0..n
        invariant
            n == gs@.len(),
            out@ == start + inner_lines(strings_view(gs@).subrange(0, i as int)),
    {
        proof {
            assert(strings_view(gs@).subrange(0, i + 1).drop_last() =~= strings_view(gs@).subrange(
                0,
                i as int,
            ));
        }
        out.append("_inner");
        put_decimal(out, i);
        out.append(": PhantomData<*mut (");
        out.append(gs[i].as_str());
        out.append(", ");
        out.append(gs[i].as_str());
        out.append("Ownership)>,\n");
        assert(out@ =~= start + inner_lines(strings_view(gs@).subrange(0, i + 1)));
    }
    assert(strings_view(gs@).subrange(0, n as int) =~= strings_view(gs@));
}

/// An argument name that is not a reserved word.
pub open spec fn param_name(s: Seq<char>) -> Seq<char> {
    if s == "type"@ || s == "trait"@ || s == "abstract"@ {
        s + "_"@
    } else {
        s
    }
}

fn put_param_name(out: &mut String, s: &String)
    ensures
        final(out)@ == old(out)@ + param_name(s@),
{
    let reserved = *s == String::from_str("type") || *s == String::from_str("trait") || *s
        == String::from_str("abstract");
    out.append(s.as_str());
    if reserved {
        out.append("_");
    }
}

/// An argument list: each name, sanitized, with its type.
pub open spec fn args_text(args: Seq<(Seq<char>, Seq<char>)>) -> Seq<char> {
    concat_map(args, |a: (Seq<char>, Seq<char>)| param_name(a.0) + ": "@ + a.1 + ","@)
}

fn put_args(out: &mut String, args: &Vec<(String, String)>)
    ensures
        final(out)@ == old(out)@ + args_text(pairs_view(args@)),
{
    let ghost start = out@;
    let ghost f = |a: (Seq<char>, Seq<char>)| param_name(a.0) + ": "@ + a.1 + ","@;
    let n = args.len();
    for i in 0..n
        invariant
            n == args@.len(),
            f == (|a: (Seq<char>, Seq<char>)| param_name(a.0) + ": "@ + a.1 + ","@),
            out@ == start + concat_map(pairs_view(args@).subrange(0, i as int), f),
    {
        proof {
            lemma_concat_map_next(pairs_view(args@), f, i as int);
        }
        put_param_name(out, &args[i].0);
        out.append(": ");
        out.append(args[i].1.as_str());
        out.append(",");
        assert(out@ =~= start + concat_map(pairs_view(args@).subrange(0, i + 1), f));
    }
    assert(pairs_view(args@).subrange(0, n as int) =~= pairs_view(args@));
}

/// The declaration of one method.
pub open spec fn method_text(m: MethodV) -> Seq<char> {
    "        #[method("@ + m.selector + ")]\n        pub "@ + (if m.is_unsafe {
        "unsafe "@
    } else {
        seq![]
    }) + "fn "@ + m.fn_name + "("@ + (if m.is_class {
        seq![]
    } else {
        "&self,"@
    }) + args_text(m.arguments) + ")"@ + m.result_type + ";"@
}

fn put_method(out: &mut String, m: &Method)
    ensures
        final(out)@ == old(out)@ + method_text(m@),
{
    out.append("        #[method(");
    out.append(m.selector.as_str());
    out.append(")]\n        pub ");
    if m.is_unsafe {
        out.append("unsafe ");
    }
    out.append("fn ");
    out.append(m.fn_name.as_str());
    out.append("(");
    if !m.is_class {
        out.append("&self,");
    }
    put_args(out, &m.arguments);
    out.append(")");
    out.append(m.result_type.as_str());
    out.append(";");
    assert(final(out)@ =~= old(out)@ + method_text(m@));
}

/// Each method on a line of its own.
pub open spec fn methods_text(ms: Seq<MethodV>) -> Seq<char> {
    concat_map(ms, |m: MethodV| method_text(m) + "\n"@)
}

fn put_methods(out: &mut String, ms: &Vec<Method>)
    ensures
        final(out)@ == old(out)@ + methods_text(methods_view(ms@)),
{
    let ghost start = out@;
    let ghost f = |m: MethodV| method_text(m) + "\n"@;
    let n = ms.len();
    for i in 0..n
        invariant
            n == ms@.len(),
            f == (|m: MethodV| method_text(m) + "\n"@),
            out@ == start + concat_map(methods_view(ms@).subrange(0, i as int), f),
    {
        proof {
            lemma_concat_map_next(methods_view(ms@), f, i as int);
        }
        put_method(out, &ms[i]);
        out.append("\n");
        assert(out@ =~= start + concat_map(methods_view(ms@).subrange(0, i + 1), f));
    }
    assert(methods_view(ms@).subrange(0, n as int) =~= methods_view(ms@));
}

/// One struct field; a privately named one is not public.
pub open spec fn field_text(f: (Seq<char>, Seq<char>)) -> Seq<char> {
    "        "@ + (if is_private_name(f.0) {
        seq![]
    } else {
        "pub "@
    }) + f.0 + ": "@ + f.1 + ",\n"@
}

fn put_fields(out: &mut String, fields: &Vec<(String, String)>)
    ensures
        final(out)@ == old(out)@ + concat_map(
            pairs_view(fields@),
            |f: (Seq<char>, Seq<char>)| field_text(f),
        ),
{
    let ghost start = out@;
    let ghost f = |f: (Seq<char>, Seq<char>)| field_text(f);
    let n = fields.len();
    for i in 0..n
        invariant
            n == fields@.len(),
            f == (|f: (Seq<char>, Seq<char>)| field_text(f)),
            out@ == start + concat_map(pairs_view(fields@).subrange(0, i as int), f),
    {
        proof {
            lemma_concat_map_next(pairs_view(fields@), f, i as int);
        }
        out.append("        ");
        if !crate::text::starts_with_underscore(&fields[i].0) {
            out.append("pub ");
        }
        out.append(fields[i].0.as_str());
        out.append(": ");
        out.append(fields[i].1.as_str());
        out.append(",\n");
        assert(out@ =~= start + concat_map(pairs_view(fields@).subrange(0, i + 1), f));
    }
    assert(pairs_view(fields@).subrange(0, n as int) =~= pairs_view(fields@));
}

/// One enum variant with its value.
pub open spec fn variant_text(v: (Seq<char>, Seq<char>)) -> Seq<char> {
    "        "@ + v.0 + " = "@ + v.1 + ",\n"@
}

fn put_variants(out: &mut String, variants: &Vec<(String, String)>)
    ensures
        final(out)@ == old(out)@ + concat_map(
            pairs_view(variants@),
            |v: (Seq<char>, Seq<char>)| variant_text(v),
        ),
{
    let ghost start = out@;
    let ghost f = |v: (Seq<char>, Seq<char>)| variant_text(v);
    let n = variants.len();
    for i in 0..n
        invariant
            n == variants@.len(),
            f == (|v: (Seq<char>, Seq<char>)| variant_text(v)),
            out@ == start + concat_map(pairs_view(variants@).subrange(0, i as int), f),
    {
        proof {
            lemma_concat_map_next(pairs_view(variants@), f, i as int);
        }
        out.append("        ");
        out.append(variants[i].0.as_str());
        out.append(" = ");
        out.append(variants[i].1.as_str());
        out.append(",\n");
        assert(out@ =~= start + concat_map(pairs_view(variants@).subrange(0, i + 1), f));
    }
    assert(pairs_view(variants@).subrange(0, n as int) =~= pairs_view(variants@));
}

/// The template that an enum of the given kind is written with.
pub open spec fn enum_macro(kind: Option<UnexposedMacro>) -> Seq<char> {
    match kind {
        None => "extern_enum"@,
        Some(UnexposedMacro::Enum) => "ns_enum"@,
        Some(UnexposedMacro::Options) => "ns_options"@,
        Some(UnexposedMacro::ClosedEnum) => "ns_closed_enum"@,
        Some(UnexposedMacro::ErrorEnum) => "ns_error_enum"@,
    }
}

/// The superclass of a class, the root object type where it has none.
pub open spec fn superclass_or_root(s: Option<GenericTypeV>) -> GenericTypeV {
    match s {
        Some(t) => t,
        None => GenericTypeV { name: "Object"@, generics: seq![] },
    }
}

/// The opening of a class declaration, up to its storage.
pub open spec fn class_head(ty: GenericTypeV, derives: Seq<char>) -> Seq<char> {
    let plain = ty.generics.len() == 0;
    (if plain {
        "extern_class"@
    } else {
        "__inner_extern_class"@
    }) + "!(\n    #[derive("@ + derives + ")]\n    pub struct "@ + ty.name + (if plain {
        ";\n"@
    } else {
        "<"@ + each_with(ty.generics, ": Message = Object, "@) + each_with(
            ty.generics,
            "Ownership: Ownership = Shared, "@,
        ) + "> {\n"@ + inner_lines(ty.generics) + "notunwindsafe: PhantomData<&'static mut ()>,\n}\n"@
    })
}

/// The type relationship of a class declaration, and its close.
pub open spec fn class_impl(ty: GenericTypeV, superclass: Option<GenericTypeV>) -> Seq<char> {
    "\n    unsafe impl"@ + params_text(ty.generics) + " ClassType for "@ + ty_text(ty)
        + " {\n        type Super = "@ + ty_text(superclass_or_root(superclass))
        + ";\n    }\n);\n"@
}

/// The text of a class declaration.
pub open spec fn class_text(ty: GenericTypeV, superclass: Option<GenericTypeV>, derives: Seq<char>) -> Seq<char> {
    class_head(ty, derives) + class_impl(ty, superclass)
}

/// The text of a statement.
pub open spec fn render_spec(s: StmtV) -> Seq<char> {
    match s {
        StmtV::ClassDecl { ty, superclass, derives, .. } => class_text(ty, superclass, derives),
        StmtV::Methods { ty, methods, category_name, .. } => "extern_methods!(\n"@ + (
        match category_name {
            Some(c) => "    /// "@ + c + "\n"@,
            None => seq![],
        }) + "    unsafe impl"@ + params_text(ty.generics) + " "@ + ty_text(ty) + " {\n"@
            + methods_text(methods) + "    }\n);\n"@,
        StmtV::ProtocolImpl { .. } => seq![],
        StmtV::ProtocolDecl { name, methods, .. } => "extern_protocol!(\n    pub struct "@ + name
            + ";\n\n    unsafe impl ProtocolType for "@ + name + " {\n"@ + methods_text(methods)
            + "    }\n);\n"@,
        StmtV::StructDecl { name, fields, .. } => "extern_struct!(\n    pub struct "@ + name
            + " {\n"@ + concat_map(fields, |f: (Seq<char>, Seq<char>)| field_text(f))
            + "    }\n);\n"@,
        StmtV::EnumDecl { name, ty, kind, variants } => enum_macro(kind) + "!(\n    #[underlying("@
            + ty + ")]\n    pub enum "@ + (match name {
            Some(n) => n + " "@,
            None => seq![],
        }) + "{\n"@ + concat_map(variants, |v: (Seq<char>, Seq<char>)| variant_text(v))
            + "    }\n);\n"@,
        StmtV::VarDecl { name, ty, value } => "extern_static!("@ + name + ": "@ + ty + (
        match value {
            Some(e) => " = "@ + e,
            None => seq![],
        }) + ");\n"@,
        StmtV::FnDecl { name, arguments, result_type, inline } => (if inline {
            "inline_fn!(\n"@
        } else {
            "extern_fn!(\n"@
        }) + "    pub unsafe fn "@ + name + "("@ + args_text(arguments) + ")"@ + result_type + (
        if inline {
            " {\n        todo!()\n    }\n"@
        } else {
            ";\n"@
        }) + ");\n"@,
        StmtV::AliasDecl { name, ty } => "pub type "@ + name + " = "@ + ty + ";\n"@,
    }
}

fn put_class_head(out: &mut String, ty: &GenericType, derives: &String)
    ensures
        final(out)@ == old(out)@ + class_head(ty@, derives@),
{
    let plain = ty.generics.len() == 0;
    if plain {
        out.append("extern_class");
    } else {
        out.append("__inner_extern_class");
    }
    out.append("!(\n    #[derive(");
    out.append(derives.as_str());
    out.append(")]\n    pub struct ");
    out.append(ty.name.as_str());
    let ghost mid = out@;
    if plain {
        out.append(";\n");
    } else {
        out.append("<");
        put_each_with(out, &ty.generics, ": Message = Object, ");
        put_each_with(out, &ty.generics, "Ownership: Ownership = Shared, ");
        out.append("> {\n");
        put_inner_lines(out, &ty.generics);
        out.append("notunwindsafe: PhantomData<&'static mut ()>,\n}\n");
    }
    assert(final(out)@ =~= old(out)@ + class_head(ty@, derives@));
}

fn put_class_impl(out: &mut String, ty: &GenericType, superclass: &Option<GenericType>)
    ensures
        final(out)@ == old(out)@ + class_impl(
            ty@,
            match superclass {
                Some(t) => Some(t@),
                None => None,
            },
        ),
{
    out.append("\n    unsafe impl");
    put_params(out, &ty.generics);
    out.append(" ClassType for ");
    put_ty(out, ty);
    out.append(" {\n        type Super = ");
    match superclass {
        Some(t) => put_ty(out, t),
        None => {
            let root = GenericType { name: String::from_str("Object"), generics: Vec::new() };
            assert(root@.generics =~= seq![]);
            put_ty(out, &root);
        },
    }
    out.append(";\n    }\n);\n");
    assert(final(out)@ =~= old(out)@ + class_impl(
        ty@,
        match superclass {
            Some(t) => Some(t@),
            None => None,
        },
    ));
}

fn put_methods_stmt(out: &mut String, ty: &GenericType, methods: &Vec<Method>, category_name: &Option<String>)
    ensures
        final(out)@ == old(out)@ + render_spec(
            StmtV::Methods {
                ty: ty@,
                availability: seq![],
                methods: methods_view(methods@),
                category_name: match category_name {
                    Some(c) => Some(c@),
                    None => None,
                },
            },
        ),
{
    out.append("extern_methods!(\n");
    match category_name {
        Some(c) => {
            out.append("    /// ");
            out.append(c.as_str());
            out.append("\n");
        },
        None => {},
    }
    out.append("    unsafe impl");
    put_params(out, &ty.generics);
    out.append(" ");
    put_ty(out, ty);
    out.append(" {\n");
    put_methods(out, methods);
    out.append("    }\n);\n");
    assert(final(out)@ =~= old(out)@ + render_spec(
        StmtV::Methods {
            ty: ty@,
            availability: seq![],
            methods: methods_view(methods@),
            category_name: match category_name {
                Some(c) => Some(c@),
                None => None,
            },
        },
    ));
}

fn put_enum_macro(out: &mut String, kind: Option<UnexposedMacro>)
    ensures
        final(out)@ == old(out)@ + enum_macro(kind),
{
    match kind {
        None => out.append("extern_enum"),
        Some(UnexposedMacro::Enum) => out.append("ns_enum"),
        Some(UnexposedMacro::Options) => out.append("ns_options"),
        Some(UnexposedMacro::ClosedEnum) => out.append("ns_closed_enum"),
        Some(UnexposedMacro::ErrorEnum) => out.append("ns_error_enum"),
    }
}

fn put_enum(out: &mut String, name: &Option<String>, ty: &String, kind: Option<UnexposedMacro>, variants: &Vec<(String, String)>)
    ensures
        final(out)@ == old(out)@ + render_spec(
            StmtV::EnumDecl {
                name: match name {
                    Some(n) => Some(n@),
                    None => None,
                },
                ty: ty@,
                kind,
                variants: pairs_view(variants@),
            },
        ),
{
    put_enum_macro(out, kind);
    out.append("!(\n    #[underlying(");
    out.append(ty.as_str());
    out.append(")]\n    pub enum ");
    match name {
        Some(n) => {
            out.append(n.as_str());
            out.append(" ");
        },
        None => {},
    }
    out.append("{\n");
    put_variants(out, variants);
    out.append("    }\n);\n");
    assert(final(out)@ =~= old(out)@ + render_spec(
        StmtV::EnumDecl {
            name: match name {
                Some(n) => Some(n@),
                None => None,
            },
            ty: ty@,
            kind,
            variants: pairs_view(variants@),
        },
    ));
}

fn put_fn(out: &mut String, name: &String, arguments: &Vec<(String, String)>, result_type: &String, inline: bool)
    ensures
        final(out)@ == old(out)@ + render_spec(
            StmtV::FnDecl {
                name: name@,
                arguments: pairs_view(arguments@),
                result_type: result_type@,
                inline,
            },
        ),
{
    if inline {
        out.append("inline_fn!(\n");
    } else {
        out.append("extern_fn!(\n");
    }
    out.append("    pub unsafe fn ");
    out.append(name.as_str());
    out.append("(");
    put_args(out, arguments);
    out.append(")");
    out.append(result_type.as_str());
    if inline {
        out.append(" {\n        todo!()\n    }\n");
    } else {
        out.append(";\n");
    }
    out.append(");\n");
    assert(final(out)@ =~= old(out)@ + render_spec(
        StmtV::FnDecl {
            name: name@,
            arguments: pairs_view(arguments@),
            result_type: result_type@,
            inline,
        },
    ));
}

impl Stmt {
    /// Appends the text of this statement.
    pub fn render_into(&self, out: &mut String)
        ensures
            final(out)@ == old(out)@ + render_spec(self@),
    {
        match self {
            Stmt::ClassDecl { ty, superclass, derives, .. } => {
                put_class_head(out, ty, &derives.0);
                put_class_impl(out, ty, superclass);
                assert(final(out)@ =~= old(out)@ + render_spec(self@));
            },
            Stmt::Methods { ty, methods, category_name, .. } => {
                put_methods_stmt(out, ty, methods, category_name);
            },
            Stmt::ProtocolImpl { .. } => {
                assert(final(out)@ =~= old(out)@ + render_spec(self@));
            },
            Stmt::ProtocolDecl { name, methods, .. } => {
                out.append("extern_protocol!(\n    pub struct ");
                out.append(name.as_str());
                out.append(";\n\n    unsafe impl ProtocolType for ");
                out.append(name.as_str());
                out.append(" {\n");
                put_methods(out, methods);
                out.append("    }\n);\n");
                assert(final(out)@ =~= old(out)@ + render_spec(self@));
            },
            Stmt::StructDecl { name, fields, .. } => {
                out.append("extern_struct!(\n    pub struct ");
                out.append(name.as_str());
                out.append(" {\n");
                put_fields(out, fields);
                out.append("    }\n);\n");
                assert(final(out)@ =~= old(out)@ + render_spec(self@));
            },
            Stmt::EnumDecl { name, ty, kind, variants } => {
                put_enum(out, name, ty, *kind, variants);
            },
            Stmt::VarDecl { name, ty, value } => {
                out.append("extern_static!(");
                out.append(name.as_str());
                out.append(": ");
                out.append(ty.as_str());
                match value {
                    Some(e) => {
                        out.append(" = ");
                        out.append(e.as_str());
                    },
                    None => {},
                }
                out.append(");\n");
                assert(final(out)@ =~= old(out)@ + render_spec(self@));
            },
            Stmt::FnDecl { name, arguments, result_type, body } => {
                put_fn(out, name, arguments, result_type, body.is_some());
            },
            Stmt::AliasDecl { name, ty } => {
                out.append("pub type ");
                out.append(name.as_str());
                out.append(" = ");
                out.append(ty.as_str());
                out.append(";\n");
                assert(final(out)@ =~= old(out)@ + render_spec(self@));
            },
        }
    }

    /// The text of this statement.
    pub fn render(&self) -> (r: String)
        ensures
            r@ == render_spec(self@),
    {
        let mut out = String::new();
        self.render_into(&mut out);
        assert(out@ =~= render_spec(self@));
        out
    }
}

/// The texts of statements, one after another.
pub open spec fn render_all_spec(stmts: Seq<StmtV>) -> Seq<char> {
    concat_map(stmts, |s: StmtV| render_spec(s))
}

/// The text of a list of statements, in order.
pub fn render_all(stmts: &Vec<Stmt>) -> (r: String)
    ensures
        r@ == render_all_spec(stmts_view(stmts@)),
{
    let mut out = String::new();
    let ghost f = |s: StmtV| render_spec(s);
    let n = stmts.len();
    for i in 0..n
        invariant
            n == stmts@.len(),
            f == (|s: StmtV| render_spec(s)),
            out@ == concat_map(stmts_view(stmts@).subrange(0, i as int), f),
    {
        proof {
            lemma_concat_map_next(stmts_view(stmts@), f, i as int);
        }
        stmts[i].render_into(&mut out);
        assert(out@ =~= concat_map(stmts_view(stmts@).subrange(0, i + 1), f));
    }
    assert(stmts_view(stmts@).subrange(0, n as int) =~= stmts_view(stmts@));
    out
}

} // verus!
