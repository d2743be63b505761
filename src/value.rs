//! Boxed values as their logic sees them: by the type encoding they carry.
use vstd::prelude::*;

use crate::encode::Encode;

verus! {

/// The encodings that a boxed number can have.
#[derive(Debug, Clone, Copy, PartialEq, Eq, Structural)]
pub enum Encoding {
    Char,
    UChar,
    Short,
    UShort,
    Int,
    UInt,
    Long,
    ULong,
    LongLong,
    ULongLong,
    Float,
    Double,
}

/// The number encoding that a type encoding names, if any.
pub open spec fn number_encoding(s: Seq<char>) -> Option<Encoding> {
    if s == "c"@ {
        Some(Encoding::Char)
    } else if s == "C"@ {
        Some(Encoding::UChar)
    } else if s == "s"@ {
        Some(Encoding::Short)
    } else if s == "S"@ {
        Some(Encoding::UShort)
    } else if s == "i"@ {
        Some(Encoding::Int)
    } else if s == "I"@ {
        Some(Encoding::UInt)
    } else if s == "l"@ {
        Some(Encoding::Long)
    } else if s == "L"@ {
        Some(Encoding::ULong)
    } else if s == "q"@ {
        Some(Encoding::LongLong)
    } else if s == "Q"@ {
        Some(Encoding::ULongLong)
    } else if s == "f"@ {
        Some(Encoding::Float)
    } else if s == "d"@ {
        Some(Encoding::Double)
    } else {
        None
    }
}

/// A boxed value, by the type encoding it was stored with.
#[derive(Debug, Clone, PartialEq, Eq)]
pub struct NSValue {
    pub type_encoding: Option<String>,
}

impl NSValue {
    /// A boxed value stored with the given type encoding.
    pub fn with_encoding(type_encoding: Option<String>) -> (r: NSValue)
        ensures
            r.type_encoding == type_encoding,
    {
        NSValue { type_encoding }
    }

    /// The type encoding of the stored value.
    pub fn encoding(&self) -> (r: Option<&str>)
        ensures
            r is None <==> self.type_encoding is None,
            r matches Some(s) ==> s@ == self.type_encoding->0@,
    {
        match &self.type_encoding {
            Some(s) => Some(s.as_str()),
            None => None,
        }
    }

    /// Whether the stored value has the encoding of `T`.
    pub fn contains_encoding<T: Encode>(&self) -> (r: bool)
        requires
            self.type_encoding is Some,
        ensures
            r == (self.type_encoding->0@ == T::encoding_spec()),
    {
        let expected = String::from_str(T::code());
        match &self.type_encoding {
            Some(s) => *s == expected,
            None => false,
        }
    }
}

/// A boxed number.
#[derive(Debug, Clone, PartialEq, Eq)]
pub struct NSNumber {
    pub value: NSValue,
}

impl NSNumber {
    /// The number encoding of this value.
    pub fn encoding(&self) -> (r: Encoding)
        requires
            self.value.type_encoding matches Some(s) && number_encoding(s@) is Some,
        ensures
            Some(r) == number_encoding(self.value.type_encoding->0@),
    {
        let enc = match &self.value.type_encoding {
            Some(s) => s,
            None => {
                return Encoding::Char;
            },
        };
        if *enc == String::from_str("c") {
            Encoding::Char
        } else if *enc == String::from_str("C") {
            Encoding::UChar
        } else if *enc == String::from_str("s") {
            Encoding::Short
        } else if *enc == String::from_str("S") {
            Encoding::UShort
        } else if *enc == String::from_str("i") {
            Encoding::Int
        } else if *enc == String::from_str("I") {
            Encoding::UInt
        } else if *enc == String::from_str("l") {
            Encoding::Long
        } else if *enc == String::from_str("L") {
            Encoding::ULong
        } else if *enc == String::from_str("q") {
            Encoding::LongLong
        } else if *enc == String::from_str("Q") {
            Encoding::ULongLong
        } else if *enc == String::from_str("f") {
            Encoding::Float
        } else {
            Encoding::Double
        }
    }
}

} // verus!
