//! Plain-value model of the declarations that the rewriter reads and writes.
use vstd::prelude::*;

verus! {

/// A field of a structure: its name (absent in a tuple structure) and the
/// text of its declared type.
#[derive(Clone, Debug, PartialEq, Eq)]
pub struct Field {
    pub ident: Option<String>,
    pub ty: String,
}

/// The shape of a declaration that a derive-style entry point receives.
#[derive(Clone, Debug, PartialEq, Eq)]
pub enum Data {
    Struct(Vec<Field>),
    Enum(Vec<String>),
    Union(Vec<Field>),
}

/// A structure-like declaration: its name and its shape.
#[derive(Clone, Debug, PartialEq, Eq)]
pub struct DeriveInput {
    pub ident: String,
    pub data: Data,
}

/// The `self` argument of a method; `mutability` is set for `&mut self` and
/// `mut self`, `reference` for the borrowed forms.
#[derive(Clone, Debug, PartialEq, Eq)]
pub struct Receiver {
    pub reference: bool,
    pub mutability: bool,
}

/// A typed argument: the text of its pattern and of its type.
#[derive(Clone, Debug, PartialEq, Eq)]
pub struct PatType {
    pub pat: String,
    pub ty: String,
}

/// One entry of a method's argument list.
#[derive(Clone, Debug, PartialEq, Eq)]
pub enum FnArg {
    Receiver(Receiver),
    Typed(PatType),
}

/// One segment of a type path: its identifier and the text of its generic
/// arguments (empty when there are none).
#[derive(Clone, Debug, PartialEq, Eq)]
pub struct PathSegment {
    pub ident: String,
    pub arguments: String,
}

/// The type that a reference type points to: a path, or any other type kept
/// as text.
#[derive(Clone, Debug, PartialEq, Eq)]
pub enum Referent {
    Path(Vec<PathSegment>),
    Other(String),
}

/// A type annotation: a path, a reference, or any other type kept as text.
#[derive(Clone, Debug, PartialEq, Eq)]
pub enum Type {
    Path(Vec<PathSegment>),
    Reference { mutability: bool, elem: Referent },
    Other(String),
}

/// The return-type annotation of a signature, if any.
#[derive(Clone, Debug, PartialEq, Eq)]
pub enum ReturnType {
    Default,
    Type(Type),
}

/// A method signature.
#[derive(Clone, Debug, PartialEq, Eq)]
pub struct Signature {
    pub ident: String,
    pub inputs: Vec<FnArg>,
    pub output: ReturnType,
}

/// Where a synthesized call is sent.
#[derive(Clone, Copy, Debug, PartialEq, Eq)]
pub enum CallTarget {
    /// The shared base, under its exclusive lock.
    LockedBase,
    /// The shared base handle itself, without taking the lock. Methods taking
    /// `&self` are forwarded this way on purpose: only `&mut self` methods
    /// are serialized by the generated call, and a `&self` method that needs
    /// the base under the lock goes through the wrapper's `lock` accessor.
    SharedBase,
    /// The base type's associated function.
    BaseType,
    /// The base type's associated function, its result put in a fresh
    /// shared, lock-guarded handle of a new wrapper.
    WrappedBaseType,
}

/// The single statement that forwards a wrapper method to the base.
#[derive(Clone, Debug, PartialEq, Eq)]
pub struct DelegatingCall {
    pub target: CallTarget,
    pub ident: String,
    pub args: Vec<FnArg>,
    pub terminated: bool,
}

/// A statement of a method body: one written in the source, kept as text,
/// or a synthesized delegating call.
#[derive(Clone, Debug, PartialEq, Eq)]
pub enum Statement {
    Source(String),
    Delegate(DelegatingCall),
}

/// A method body.
#[derive(Clone, Debug, PartialEq, Eq)]
pub struct Block {
    pub stmts: Vec<Statement>,
}

/// A method of an `impl` block, with its attributes and visibility as text.
#[derive(Clone, Debug, PartialEq, Eq)]
pub struct ImplItemFn {
    pub attrs: Vec<String>,
    pub vis: String,
    pub defaultness: bool,
    pub sig: Signature,
    pub block: Block,
}

/// An item of an `impl` block: a method, or any other item kept as text.
#[derive(Clone, Debug, PartialEq, Eq)]
pub enum ImplItem {
    Fn(ImplItemFn),
    Other(String),
}

impl Field {
    /// A copy of this field, equal to it.
    pub fn duplicate(&self) -> (r: Field)
        ensures
            r == *self,
    {
        let ident = match &self.ident {
            Some(s) => Some(s.clone()),
            None => None,
        };
        Field { ident, ty: self.ty.clone() }
    }
}

impl FnArg {
    /// A copy of this argument, equal to it.
    pub fn duplicate(&self) -> (r: FnArg)
        ensures
            r == *self,
    {
        match self {
            FnArg::Receiver(rc) => FnArg::Receiver(Receiver { reference: rc.reference, mutability: rc.mutability }),
            FnArg::Typed(pt) => FnArg::Typed(PatType { pat: pt.pat.clone(), ty: pt.ty.clone() }),
        }
    }
}

} // verus!
