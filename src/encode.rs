//! Type encodings: the text by which the runtime names the type of a value.
use vstd::prelude::*;

verus! {

/// Types that have a type encoding.
pub trait Encode {
    /// The encoding of `Self`.
    spec fn encoding_spec() -> Seq<char>;

    /// The encoding of `Self`.
    fn code() -> (r: &'static str)
        ensures
            r@ == Self::encoding_spec(),
    ;
}

/// Types whose references and pointers have a type encoding.
pub trait EncodePtr {
    /// The encoding of a reference to `Self`.
    spec fn ptr_encoding_spec() -> Seq<char>;

    /// The encoding of a reference to `Self`.
    fn ptr_code() -> (r: &'static str)
        ensures
            r@ == Self::ptr_encoding_spec(),
    ;
}

/// A method selector.
#[derive(Debug, Clone, Copy, PartialEq, Eq)]
pub struct Sel;

/// An object of any class.
#[derive(Debug)]
pub struct Object;

/// A class.
#[derive(Debug)]
pub struct Class;

impl Encode for i8 {
    open spec fn encoding_spec() -> Seq<char> {
        "c"@
    }

    fn code() -> (r: &'static str) {
        "c"
    }
}

impl Encode for i16 {
    open spec fn encoding_spec() -> Seq<char> {
        "s"@
    }

    fn code() -> (r: &'static str) {
        "s"
    }
}

impl Encode for i32 {
    open spec fn encoding_spec() -> Seq<char> {
        "i"@
    }

    fn code() -> (r: &'static str) {
        "i"
    }
}

impl Encode for i64 {
    open spec fn encoding_spec() -> Seq<char> {
        "q"@
    }

    fn code() -> (r: &'static str) {
        "q"
    }
}

/// Whether pointers are 64 bits wide.
pub open spec fn wide_pointers() -> bool {
    vstd::layout::size_of::<usize>() == 8
}

impl Encode for isize {
    open spec fn encoding_spec() -> Seq<char> {
        if wide_pointers() {
            "q"@
        } else {
            "i"@
        }
    }

    fn code() -> (r: &'static str) {
        if core::mem::size_of::<usize>() == 8 {
            "q"
        } else {
            "i"
        }
    }
}

impl Encode for u8 {
    open spec fn encoding_spec() -> Seq<char> {
        "C"@
    }

    fn code() -> (r: &'static str) {
        "C"
    }
}

impl Encode for u16 {
    open spec fn encoding_spec() -> Seq<char> {
        "S"@
    }

    fn code() -> (r: &'static str) {
        "S"
    }
}

impl Encode for u32 {
    open spec fn encoding_spec() -> Seq<char> {
        "I"@
    }

    fn code() -> (r: &'static str) {
        "I"
    }
}

impl Encode for u64 {
    open spec fn encoding_spec() -> Seq<char> {
        "Q"@
    }

    fn code() -> (r: &'static str) {
        "Q"
    }
}

impl Encode for usize {
    open spec fn encoding_spec() -> Seq<char> {
        if wide_pointers() {
            "Q"@
        } else {
            "I"@
        }
    }

    fn code() -> (r: &'static str) {
        if core::mem::size_of::<usize>() == 8 {
            "Q"
        } else {
            "I"
        }
    }
}

impl Encode for bool {
    open spec fn encoding_spec() -> Seq<char> {
        "B"@
    }

    fn code() -> (r: &'static str) {
        "B"
    }
}

impl Encode for () {
    open spec fn encoding_spec() -> Seq<char> {
        "v"@
    }

    fn code() -> (r: &'static str) {
        "v"
    }
}

impl Encode for Sel {
    open spec fn encoding_spec() -> Seq<char> {
        ":"@
    }

    fn code() -> (r: &'static str) {
        ":"
    }
}

impl<'a, T: EncodePtr> Encode for &'a T {
    open spec fn encoding_spec() -> Seq<char> {
        T::ptr_encoding_spec()
    }

    fn code() -> (r: &'static str) {
        T::ptr_code()
    }
}

impl<'a, T: EncodePtr> Encode for &'a mut T {
    open spec fn encoding_spec() -> Seq<char> {
        T::ptr_encoding_spec()
    }

    fn code() -> (r: &'static str) {
        T::ptr_code()
    }
}

impl<'a, T: EncodePtr> Encode for Option<&'a T> {
    open spec fn encoding_spec() -> Seq<char> {
        T::ptr_encoding_spec()
    }

    fn code() -> (r: &'static str) {
        T::ptr_code()
    }
}

impl<'a, T: EncodePtr> Encode for Option<&'a mut T> {
    open spec fn encoding_spec() -> Seq<char> {
        T::ptr_encoding_spec()
    }

    fn code() -> (r: &'static str) {
        T::ptr_code()
    }
}

impl EncodePtr for Object {
    open spec fn ptr_encoding_spec() -> Seq<char> {
        "@"@
    }

    fn ptr_code() -> (r: &'static str) {
        "@"
    }
}

impl EncodePtr for Class {
    open spec fn ptr_encoding_spec() -> Seq<char> {
        "#"@
    }

    fn ptr_code() -> (r: &'static str) {
        "#"
    }
}

/// The type encoding of `T`.
pub fn encode<T: Encode>() -> (r: &'static str)
    ensures
        r@ == T::encoding_spec(),
{
    T::code()
}

} // verus!
