//! The declarations of a bridge module, as the checks read them.
//!
//! Every node carries the source location that a diagnostic about it
//! points at.  The location type `S` is left to the caller: any `Copy`
//! value (a compiler span, a byte offset) can be carried through.
use vstd::prelude::*;

verus! {

/// A source location, from its first token to its last one.
#[derive(Clone, Copy, Debug, PartialEq, Eq)]
pub struct Loc<S> {
    pub start: S,
    pub end: S,
}

/// An identifier with its text and the location of its token.
#[derive(Debug, PartialEq, Eq)]
pub struct Ident<S> {
    pub name: String,
    pub span: S,
}

/// The name of a declaration: the C++ namespace it lives in, its name on
/// the C++ side and its name on the Rust side.
#[derive(Debug, PartialEq, Eq)]
pub struct Pair<S> {
    pub namespace: Vec<Ident<S>>,
    pub cxx: Ident<S>,
    pub rust: Ident<S>,
}

/// Which side of the bridge a declaration lives on.
#[derive(Clone, Copy, Debug, PartialEq, Eq, Structural)]
pub enum Lang {
    Cxx,
    Rust,
}

/// The traits that a `#[derive(..)]` attribute in a bridge may name.
#[derive(Clone, Copy, Debug, PartialEq, Eq, Structural)]
pub enum Trait {
    BitAnd,
    BitOr,
    BitXor,
    Clone,
    Copy,
    Debug,
    Default,
    Eq,
    ExternType,
    Hash,
    Ord,
    PartialEq,
    PartialOrd,
    Serialize,
    Deserialize,
}

/// One trait named in a derive attribute, with the location of its name.
#[derive(Clone, Copy, Debug, PartialEq, Eq)]
pub struct Derive<S> {
    pub what: Trait,
    pub span: S,
}

/// A named type: its Rust name, and the location of the name with any
/// lifetime arguments.
#[derive(Debug, PartialEq, Eq)]
pub struct NamedType<S> {
    pub rust: Ident<S>,
    pub loc: Loc<S>,
}

/// A type constructor with one argument: `Box<T>`, `Vec<T>`,
/// `UniquePtr<T>`, `SharedPtr<T>`, `CxxVector<T>`.
#[derive(Debug, PartialEq, Eq)]
pub struct Ty1<S> {
    pub name: Ident<S>,
    pub inner: Type<S>,
    pub loc: Loc<S>,
}

/// A reference type `&T`, `&mut T` or `Pin<&mut T>`.
#[derive(Debug, PartialEq, Eq)]
pub struct Ref<S> {
    pub pinned: bool,
    pub mutable: bool,
    pub inner: Type<S>,
    pub loc: Loc<S>,
}

/// A slice reference `&[T]` or `&mut [T]`.
#[derive(Debug, PartialEq, Eq)]
pub struct SliceRef<S> {
    pub mutable: bool,
    pub inner: Type<S>,
    pub loc: Loc<S>,
}

/// An array type `[T; N]`.
#[derive(Debug, PartialEq, Eq)]
pub struct Array<S> {
    pub inner: Type<S>,
    pub len: usize,
    pub loc: Loc<S>,
}

/// The generic parameters of a function: whether there are any, and the
/// location of the closing `>` when there are.
#[derive(Clone, Copy, Debug, PartialEq, Eq)]
pub struct Generics<S> {
    pub has_params: bool,
    pub gt_token: S,
}

/// The `self` parameter of a method.
#[derive(Debug, PartialEq, Eq)]
pub struct Receiver<S> {
    pub pinned: bool,
    pub mutable: bool,
    /// Written as `&self` / `&mut self` rather than `self: &T`.
    pub shorthand: bool,
    pub ampersand: S,
    /// The `self` token.
    pub var: S,
    pub ty: NamedType<S>,
}

/// A named value of some type: a struct field or a function argument.
#[derive(Debug, PartialEq, Eq)]
pub struct Var<S> {
    pub name: Pair<S>,
    pub ty: Type<S>,
    pub loc: Loc<S>,
}

/// A function signature, of an extern function or of a function pointer type.
#[derive(Debug, PartialEq, Eq)]
pub struct Signature<S> {
    pub unsafety: Option<S>,
    pub fn_token: S,
    pub generics: Generics<S>,
    pub receiver: Option<Receiver<S>>,
    pub args: Vec<Var<S>>,
    pub ret: Option<Type<S>>,
    pub throws: bool,
    pub loc: Loc<S>,
}

/// A type as written in a bridge.
#[derive(Debug, PartialEq, Eq)]
pub enum Type<S> {
    Ident(NamedType<S>),
    RustBox(Box<Ty1<S>>),
    RustVec(Box<Ty1<S>>),
    UniquePtr(Box<Ty1<S>>),
    SharedPtr(Box<Ty1<S>>),
    Ref(Box<Ref<S>>),
    Str(Loc<S>),
    CxxVector(Box<Ty1<S>>),
    Fn(Box<Signature<S>>),
    Void(S),
    SliceRef(Box<SliceRef<S>>),
    Array(Box<Array<S>>),
}

/// A variant of a shared enum.
#[derive(Debug, PartialEq, Eq)]
pub struct Variant<S> {
    pub name: Pair<S>,
}

/// A shared struct.
#[derive(Debug, PartialEq, Eq)]
pub struct Struct<S> {
    pub derives: Vec<Derive<S>>,
    pub struct_token: S,
    pub name: Pair<S>,
    pub brace_token: S,
    pub fields: Vec<Var<S>>,
}

/// A shared enum.
#[derive(Debug, PartialEq, Eq)]
pub struct Enum<S> {
    pub derives: Vec<Derive<S>>,
    pub enum_token: S,
    pub name: Pair<S>,
    pub brace_token: S,
    pub variants: Vec<Variant<S>>,
    pub explicit_repr: bool,
}

/// An opaque type declared in an extern block.
#[derive(Debug, PartialEq, Eq)]
pub struct ExternType<S> {
    pub lang: Lang,
    pub derives: Vec<Derive<S>>,
    pub name: Pair<S>,
    pub bounds: Vec<Derive<S>>,
    pub trusted: bool,
    pub loc: Loc<S>,
}

/// A function declared in an extern block.
#[derive(Debug, PartialEq, Eq)]
pub struct ExternFn<S> {
    pub lang: Lang,
    pub name: Pair<S>,
    pub sig: Signature<S>,
    pub trusted: bool,
    pub loc: Loc<S>,
}

/// A type alias declared in an extern block.
#[derive(Debug, PartialEq, Eq)]
pub struct TypeAlias<S> {
    pub derives: Vec<Derive<S>>,
    pub name: Pair<S>,
    pub loc: Loc<S>,
}

/// An explicit `impl` of a generic type in a bridge.
#[derive(Debug, PartialEq, Eq)]
pub struct Impl<S> {
    pub negative_token: Option<S>,
    pub ty: Type<S>,
    pub loc: Loc<S>,
}

/// One item of a bridge module.
#[derive(Debug, PartialEq, Eq)]
pub enum Api<S> {
    Include(Loc<S>),
    Struct(Struct<S>),
    Enum(Enum<S>),
    CxxType(ExternType<S>),
    CxxFunction(ExternFn<S>),
    RustType(ExternType<S>),
    RustFunction(ExternFn<S>),
    TypeAlias(TypeAlias<S>),
    Impl(Impl<S>),
}

/// The location of an identifier's token.
pub open spec fn ident_loc<S>(ident: Ident<S>) -> Loc<S> {
    Loc { start: ident.span, end: ident.span }
}

/// The location of a type, from its first token to its last.
pub open spec fn type_loc<S>(ty: Type<S>) -> Loc<S> {
    match ty {
        Type::Ident(t) => t.loc,
        Type::RustBox(t) => t.loc,
        Type::RustVec(t) => t.loc,
        Type::UniquePtr(t) => t.loc,
        Type::SharedPtr(t) => t.loc,
        Type::Ref(t) => t.loc,
        Type::Str(l) => l,
        Type::CxxVector(t) => t.loc,
        Type::Fn(t) => t.loc,
        Type::Void(s) => Loc { start: s, end: s },
        Type::SliceRef(t) => t.loc,
        Type::Array(t) => t.loc,
    }
}

/// The location of a derived trait's name.
pub open spec fn derive_loc<S>(d: Derive<S>) -> Loc<S> {
    Loc { start: d.span, end: d.span }
}

impl<S: Copy> Ident<S> {
    /// The location of this identifier's token.
    pub fn loc(&self) -> (r: Loc<S>)
        ensures
            r == ident_loc(*self),
    {
        Loc { start: self.span, end: self.span }
    }
}

impl<S: Copy> Derive<S> {
    /// The location of the derived trait's name.
    pub fn loc(&self) -> (r: Loc<S>)
        ensures
            r == derive_loc(*self),
    {
        Loc { start: self.span, end: self.span }
    }
}

impl<S: Copy> Type<S> {
    /// The location of this type, from its first token to its last.
    pub fn loc(&self) -> (r: Loc<S>)
        ensures
            r == type_loc(*self),
    {
        match self {
            Type::Ident(t) => t.loc,
            Type::RustBox(t) => t.loc,
            Type::RustVec(t) => t.loc,
            Type::UniquePtr(t) => t.loc,
            Type::SharedPtr(t) => t.loc,
            Type::Ref(t) => t.loc,
            Type::Str(l) => *l,
            Type::CxxVector(t) => t.loc,
            Type::Fn(t) => t.loc,
            Type::Void(s) => Loc { start: *s, end: *s },
            Type::SliceRef(t) => t.loc,
            Type::Array(t) => t.loc,
        }
    }
}

impl<S> NamedType<S> {
    /// Whether this is the type `Self`.
    pub fn is_self(&self) -> (r: bool)
        ensures
            r == (self.rust.name@ == "Self"@),
    {
        crate::atom::text_is(&self.rust.name, "Self")
    }
}

impl Trait {
    /// The trait's name as written in the derive attribute.
    pub fn as_str(self) -> (r: &'static str)
        ensures
            r@ == trait_name(self),
    {
        match self {
            Trait::BitAnd => "BitAnd",
            Trait::BitOr => "BitOr",
            Trait::BitXor => "BitXor",
            Trait::Clone => "Clone",
            Trait::Copy => "Copy",
            Trait::Debug => "Debug",
            Trait::Default => "Default",
            Trait::Eq => "Eq",
            Trait::ExternType => "ExternType",
            Trait::Hash => "Hash",
            Trait::Ord => "Ord",
            Trait::PartialEq => "PartialEq",
            Trait::PartialOrd => "PartialOrd",
            Trait::Serialize => "Serialize",
            Trait::Deserialize => "Deserialize",
        }
    }
}

/// The name of a derivable trait.
pub open spec fn trait_name(t: Trait) -> Seq<char> {
    match t {
        Trait::BitAnd => "BitAnd"@,
        Trait::BitOr => "BitOr"@,
        Trait::BitXor => "BitXor"@,
        Trait::Clone => "Clone"@,
        Trait::Copy => "Copy"@,
        Trait::Debug => "Debug"@,
        Trait::Default => "Default"@,
        Trait::Eq => "Eq"@,
        Trait::ExternType => "ExternType"@,
        Trait::Hash => "Hash"@,
        Trait::Ord => "Ord"@,
        Trait::PartialEq => "PartialEq"@,
        Trait::PartialOrd => "PartialOrd"@,
        Trait::Serialize => "Serialize"@,
        Trait::Deserialize => "Deserialize"@,
    }
}

} // verus!
