//! Equality of statements, for checking that a regeneration reproduces what
//! was generated before.
use vstd::prelude::*;

use crate::ir::{
    GenericType, GenericTypeV, Method, MethodV, Stmt, StmtV, methods_view, opt_view, pairs_view,
    strings_view,
};

verus! {

/// How two statements that should be equal differ.
#[derive(Debug, Clone, Copy, PartialEq, Eq, Structural)]
pub enum Mismatch {
    /// Both are method lists, and they first differ at this position.
    Method(usize),
    /// They differ otherwise.
    Statement,
}

fn same_strings(a: &Vec<String>, b: &Vec<String>) -> (r: bool)
    ensures
        r == (strings_view(a@) == strings_view(b@)),
{
    if a.len() != b.len() {
        proof {
            assert(strings_view(a@).len() != strings_view(b@).len());
        }
        return false;
    }
    let n = a.len();
    for i in 0..n
        invariant
            n == a@.len(),
            n == b@.len(),
            forall|j: int| 0 <= j < i ==> a@[j]@ == b@[j]@,
    {
        if a[i] != b[i] {
            proof {
                assert(strings_view(a@)[i as int] != strings_view(b@)[i as int]);
            }
            return false;
        }
    }
    assert(strings_view(a@) =~= strings_view(b@));
    true
}

fn same_pairs(a: &Vec<(String, String)>, b: &Vec<(String, String)>) -> (r: bool)
    ensures
        r == (pairs_view(a@) == pairs_view(b@)),
{
    if a.len() != b.len() {
        proof {
            assert(pairs_view(a@).len() != pairs_view(b@).len());
        }
        return false;
    }
    let n = a.len();
    for i in 0..n
        invariant
            n == a@.len(),
            n == b@.len(),
            forall|j: int| 0 <= j < i ==> a@[j].0@ == b@[j].0@ && a@[j].1@ == b@[j].1@,
    {
        if a[i].0 != b[i].0 || a[i].1 != b[i].1 {
            proof {
                assert(pairs_view(a@)[i as int] != pairs_view(b@)[i as int]);
            }
            return false;
        }
    }
    assert(pairs_view(a@) =~= pairs_view(b@));
    true
}

fn same_opt(a: &Option<String>, b: &Option<String>) -> (r: bool)
    ensures
        r == (opt_view(*a) == opt_view(*b)),
{
    match (a, b) {
        (Some(x), Some(y)) => *x == *y,
        (None, None) => true,
        _ => false,
    }
}

fn same_ty(a: &GenericType, b: &GenericType) -> (r: bool)
    ensures
        r == (a@ == b@),
{
    a.name == b.name && same_strings(&a.generics, &b.generics)
}

fn same_opt_ty(a: &Option<GenericType>, b: &Option<GenericType>) -> (r: bool)
    ensures
        r == (match a {
            Some(t) => Some(t@),
            None => None::<GenericTypeV>,
        } == match b {
            Some(t) => Some(t@),
            None => None::<GenericTypeV>,
        }),
{
    match (a, b) {
        (Some(x), Some(y)) => same_ty(x, y),
        (None, None) => true,
        _ => false,
    }
}

fn same_method(a: &Method, b: &Method) -> (r: bool)
    ensures
        r == (a@ == b@),
{
    a.selector == b.selector && a.fn_name == b.fn_name && a.is_class == b.is_class && a.is_unsafe
        == b.is_unsafe && same_pairs(&a.arguments, &b.arguments) && a.result_type
        == b.result_type
}

/// The first position below both lengths where the method lists differ.
pub open spec fn first_method_difference(a: Seq<MethodV>, b: Seq<MethodV>, i: int) -> bool {
    &&& 0 <= i < a.len()
    &&& i < b.len()
    &&& a[i] != b[i]
    &&& forall|j: int| 0 <= j < i ==> a[j] == b[j]
}

fn compare_methods(a: &Vec<Method>, b: &Vec<Method>) -> (r: Option<usize>)
    ensures
        match r {
            Some(i) => first_method_difference(methods_view(a@), methods_view(b@), i as int),
            None => forall|j: int|
                0 <= j < a@.len() && j < b@.len() ==> methods_view(a@)[j] == methods_view(b@)[j],
        },
{
    let n = if a.len() < b.len() {
        a.len()
    } else {
        b.len()
    };
    for i in 0..n
        invariant
            n <= a@.len(),
            n <= b@.len(),
            n == a@.len() || n == b@.len(),
            forall|j: int| 0 <= j < i ==> methods_view(a@)[j] == methods_view(b@)[j],
    {
        if !same_method(&a[i], &b[i]) {
            return Some(i);
        }
    }
    None
}

fn same_methods(a: &Vec<Method>, b: &Vec<Method>) -> (r: bool)
    ensures
        r == (methods_view(a@) == methods_view(b@)),
{
    if a.len() != b.len() {
        proof {
            assert(methods_view(a@).len() != methods_view(b@).len());
        }
        return false;
    }
    match compare_methods(a, b) {
        Some(_) => false,
        None => {
            assert(methods_view(a@) =~= methods_view(b@));
            true
        },
    }
}

impl Stmt {
    /// Whether two statements are equal in every field.
    pub fn same(&self, other: &Stmt) -> (r: bool)
        ensures
            r == (self@ == other@),
    {
        match (self, other) {
            (
                Stmt::ClassDecl { ty: t1, availability: a1, superclass: s1, derives: d1 },
                Stmt::ClassDecl { ty: t2, availability: a2, superclass: s2, derives: d2 },
            ) => same_ty(t1, t2) && *a1 == *a2 && same_opt_ty(s1, s2) && d1.0 == d2.0,
            (
                Stmt::Methods { ty: t1, availability: a1, methods: m1, category_name: c1 },
                Stmt::Methods { ty: t2, availability: a2, methods: m2, category_name: c2 },
            ) => same_ty(t1, t2) && *a1 == *a2 && same_methods(m1, m2) && same_opt(c1, c2),
            (
                Stmt::ProtocolDecl { name: n1, availability: a1, protocols: p1, methods: m1 },
                Stmt::ProtocolDecl { name: n2, availability: a2, protocols: p2, methods: m2 },
            ) => *n1 == *n2 && *a1 == *a2 && same_strings(p1, p2) && same_methods(m1, m2),
            (
                Stmt::ProtocolImpl { ty: t1, availability: a1, protocol: p1 },
                Stmt::ProtocolImpl { ty: t2, availability: a2, protocol: p2 },
            ) => same_ty(t1, t2) && *a1 == *a2 && *p1 == *p2,
            (
                Stmt::StructDecl { name: n1, boxable: b1, fields: f1 },
                Stmt::StructDecl { name: n2, boxable: b2, fields: f2 },
            ) => *n1 == *n2 && *b1 == *b2 && same_pairs(f1, f2),
            (
                Stmt::EnumDecl { name: n1, ty: t1, kind: k1, variants: v1 },
                Stmt::EnumDecl { name: n2, ty: t2, kind: k2, variants: v2 },
            ) => same_opt(n1, n2) && *t1 == *t2 && *k1 == *k2 && same_pairs(v1, v2),
            (
                Stmt::VarDecl { name: n1, ty: t1, value: v1 },
                Stmt::VarDecl { name: n2, ty: t2, value: v2 },
            ) => *n1 == *n2 && *t1 == *t2 && same_opt(v1, v2),
            (
                Stmt::FnDecl { name: n1, arguments: a1, result_type: r1, body: b1 },
                Stmt::FnDecl { name: n2, arguments: a2, result_type: r2, body: b2 },
            ) => *n1 == *n2 && same_pairs(a1, a2) && *r1 == *r2 && b1.is_some() == b2.is_some(),
            (Stmt::AliasDecl { name: n1, ty: t1 }, Stmt::AliasDecl { name: n2, ty: t2 }) => *n1
                == *n2 && *t1 == *t2,
            _ => false,
        }
    }

    /// Checks two statements that should be equal. Where both are method
    /// lists that differ at a common position, the first such position is
    /// reported.
    pub fn compare(&self, other: &Stmt) -> (r: Result<(), Mismatch>)
        ensures
            r is Ok <==> self@ == other@,
            r matches Err(Mismatch::Method(i)) ==> (self@ matches StmtV::Methods { methods: m1, .. }
                && other@ matches StmtV::Methods { methods: m2, .. } && first_method_difference(
                m1,
                m2,
                i as int,
            )),
            r == Err::<(), Mismatch>(Mismatch::Statement) ==> self@ != other@ && !(
            self@ matches StmtV::Methods { methods: m1, .. } && other@ matches StmtV::Methods {
                methods: m2,
                ..
            } && exists|i: int| first_method_difference(m1, m2, i)),
    {
        if self.same(other) {
            return Ok(());
        }
        match (self, other) {
            (Stmt::Methods { methods: m1, .. }, Stmt::Methods { methods: m2, .. }) => {
                match compare_methods(m1, m2) {
                    Some(i) => Err(Mismatch::Method(i)),
                    None => Err(Mismatch::Statement),
                }
            },
            _ => Err(Mismatch::Statement),
        }
    }
}

} // verus!
