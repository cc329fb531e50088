//! The abstract syntax of an interface-definition unit.
//!
//! A unit names a module's worth of declarations: traits of callable
//! methods, services binding a name to a trait type, nested modules and
//! imports. The engine itself never reads these; they are the vocabulary a
//! code generator works from.

use vstd::prelude::*;

verus! {

/// An identifier.
#[derive(Debug)]
pub struct Id {
    pub text: String,
}

/// A module: a name and, unless only declared, its declarations.
#[derive(Debug)]
pub struct Mod {
    pub name: Id,
    pub decls: Option<Vec<Decl>>,
}

/// A trait: a name and the methods it offers.
#[derive(Debug)]
pub struct Trait {
    pub name: Id,
    pub members: Vec<Fn>,
}

/// A dot-separated path of identifiers.
#[derive(Debug)]
pub struct Path {
    pub components: Vec<Id>,
}

/// A type, named by path.
#[derive(Debug)]
pub struct Type {
    pub path: Path,
}

/// A named, typed parameter.
#[derive(Debug)]
pub struct Param {
    pub name: Id,
    pub ty: Type,
}

/// A method: its name, parameters and optional result type.
#[derive(Debug)]
pub struct Fn {
    pub name: Id,
    pub params: Vec<Param>,
    pub result: Option<Type>,
}

/// A service: a name bound to a trait type.
#[derive(Debug)]
pub struct Svc {
    pub name: Id,
    pub ty: Type,
}

/// An import of a path.
#[derive(Debug)]
pub struct Use {
    pub path: Path,
}

/// One top-level declaration.
#[derive(Debug)]
pub enum Decl {
    Trait(Trait),
    Svc(Svc),
    Mod(Mod),
    Use(Use),
}

/// A parsed unit: its name and its declarations.
#[derive(Debug)]
pub struct Unit {
    pub name: String,
    pub decls: Vec<Decl>,
}

} // verus!
