use vstd::prelude::*;

verus! {

/// The builtin type names that a bridge understands without a declaration.
#[derive(Clone, Copy, Debug, PartialEq, Eq, Structural)]
pub enum Atom {
    Bool,
    Char,
    U8,
    U16,
    U32,
    U64,
    Usize,
    I8,
    I16,
    I32,
    I64,
    Isize,
    F32,
    F64,
    CxxString,
    RustString,
}

/// The spelling of each builtin type in bridge source.
pub open spec fn atom_name(a: Atom) -> Seq<char> {
    match a {
        Atom::Bool => "bool"@,
        Atom::Char => "c_char"@,
        Atom::U8 => "u8"@,
        Atom::U16 => "u16"@,
        Atom::U32 => "u32"@,
        Atom::U64 => "u64"@,
        Atom::Usize => "usize"@,
        Atom::I8 => "i8"@,
        Atom::I16 => "i16"@,
        Atom::I32 => "i32"@,
        Atom::I64 => "i64"@,
        Atom::Isize => "isize"@,
        Atom::F32 => "f32"@,
        Atom::F64 => "f64"@,
        Atom::CxxString => "CxxString"@,
        Atom::RustString => "String"@,
    }
}

/// The builtin type that a name spells, if any.
pub open spec fn atom_of(name: Seq<char>) -> Option<Atom> {
    if name == "bool"@ {
        Some(Atom::Bool)
    } else if name == "c_char"@ {
        Some(Atom::Char)
    } else if name == "u8"@ {
        Some(Atom::U8)
    } else if name == "u16"@ {
        Some(Atom::U16)
    } else if name == "u32"@ {
        Some(Atom::U32)
    } else if name == "u64"@ {
        Some(Atom::U64)
    } else if name == "usize"@ {
        Some(Atom::Usize)
    } else if name == "i8"@ {
        Some(Atom::I8)
    } else if name == "i16"@ {
        Some(Atom::I16)
    } else if name == "i32"@ {
        Some(Atom::I32)
    } else if name == "i64"@ {
        Some(Atom::I64)
    } else if name == "isize"@ {
        Some(Atom::Isize)
    } else if name == "f32"@ {
        Some(Atom::F32)
    } else if name == "f64"@ {
        Some(Atom::F64)
    } else if name == "CxxString"@ {
        Some(Atom::CxxString)
    } else if name == "String"@ {
        Some(Atom::RustString)
    } else {
        None
    }
}

/// Exact text equality of a string with a literal.
pub fn text_is(s: &String, lit: &str) -> (r: bool)
    ensures
        r == (s@ == lit@),
{
    let l = String::from_str(lit);
    *s == l
}

impl Atom {
    /// Recognizes the name of a builtin type.
    pub fn from(name: &String) -> (r: Option<Atom>)
        ensures
            r == atom_of(name@),
    {
        if text_is(name, "bool") {
            Some(Atom::Bool)
        } else if text_is(name, "c_char") {
            Some(Atom::Char)
        } else if text_is(name, "u8") {
            Some(Atom::U8)
        } else if text_is(name, "u16") {
            Some(Atom::U16)
        } else if text_is(name, "u32") {
            Some(Atom::U32)
        } else if text_is(name, "u64") {
            Some(Atom::U64)
        } else if text_is(name, "usize") {
            Some(Atom::Usize)
        } else if text_is(name, "i8") {
            Some(Atom::I8)
        } else if text_is(name, "i16") {
            Some(Atom::I16)
        } else if text_is(name, "i32") {
            Some(Atom::I32)
        } else if text_is(name, "i64") {
            Some(Atom::I64)
        } else if text_is(name, "isize") {
            Some(Atom::Isize)
        } else if text_is(name, "f32") {
            Some(Atom::F32)
        } else if text_is(name, "f64") {
            Some(Atom::F64)
        } else if text_is(name, "CxxString") {
            Some(Atom::CxxString)
        } else if text_is(name, "String") {
            Some(Atom::RustString)
        } else {
            None
        }
    }

    /// The spelling of this builtin type.
    pub fn as_str(self) -> (r: &'static str)
        ensures
            r@ == atom_name(self),
    {
        match self {
            Atom::Bool => "bool",
            Atom::Char => "c_char",
            Atom::U8 => "u8",
            Atom::U16 => "u16",
            Atom::U32 => "u32",
            Atom::U64 => "u64",
            Atom::Usize => "usize",
            Atom::I8 => "i8",
            Atom::I16 => "i16",
            Atom::I32 => "i32",
            Atom::I64 => "i64",
            Atom::Isize => "isize",
            Atom::F32 => "f32",
            Atom::F64 => "f64",
            Atom::CxxString => "CxxString",
            Atom::RustString => "String",
        }
    }
}

} // verus!
