//! The types of the source language.

use vstd::prelude::*;

verus! {

/// The type of a value of the source language.
///
/// `Generic` stands for a parameter whose type was left open in a function's
/// signature; resolving a call replaces it by a concrete type.
#[derive(Debug, PartialEq, Eq)]
pub enum Type {
    Null,
    Int,
    Num,
    Text,
    Bool,
    Array(Box<Type>),
    Generic,
    Failable(Box<Type>),
    Void,
}

impl Clone for Type {
    fn clone(&self) -> (r: Self)
        ensures
            r == *self,
        decreases self,
    {
        match self {
            Type::Null => Type::Null,
            Type::Int => Type::Int,
            Type::Num => Type::Num,
            Type::Text => Type::Text,
            Type::Bool => Type::Bool,
            Type::Array(inner) => Type::Array(Box::new((**inner).clone())),
            Type::Generic => Type::Generic,
            Type::Failable(inner) => Type::Failable(Box::new((**inner).clone())),
            Type::Void => Type::Void,
        }
    }
}

impl Type {
    /// The type of arrays whose items have type `kind`.
    pub fn array_of(kind: Type) -> (r: Type)
        ensures
            r == Type::Array(Box::new(kind)),
    {
        Type::Array(Box::new(kind))
    }

    /// Whether this is an array type.
    pub fn is_array(&self) -> (r: bool)
        ensures
            r == (*self is Array),
    {
        match self {
            Type::Array(_) => true,
            _ => false,
        }
    }

    /// Whether the two types are the same.
    pub fn same_as(&self, other: &Type) -> (r: bool)
        ensures
            r == (*self == *other),
        decreases self,
    {
        match (self, other) {
            (Type::Null, Type::Null) => true,
            (Type::Int, Type::Int) => true,
            (Type::Num, Type::Num) => true,
            (Type::Text, Type::Text) => true,
            (Type::Bool, Type::Bool) => true,
            (Type::Generic, Type::Generic) => true,
            (Type::Void, Type::Void) => true,
            (Type::Array(a), Type::Array(b)) => a.same_as(b),
            (Type::Failable(a), Type::Failable(b)) => a.same_as(b),
            _ => false,
        }
    }

    /// The name of the type as the source language writes it.
    pub open spec fn name(self) -> Seq<char>
        decreases self,
    {
        match self {
            Type::Null => "Null"@,
            Type::Int => "Int"@,
            Type::Num => "Num"@,
            Type::Text => "Text"@,
            Type::Bool => "Bool"@,
            Type::Array(inner) => "["@ + inner.name() + "]"@,
            Type::Generic => "Generic"@,
            Type::Failable(inner) => inner.name() + "?"@,
            Type::Void => "Void"@,
        }
    }

    /// The name of the type as the source language writes it.
    pub fn to_string(&self) -> (r: String)
        ensures
            r@ == self.name(),
        decreases self,
    {
        match self {
            Type::Null => String::from_str("Null"),
            Type::Int => String::from_str("Int"),
            Type::Num => String::from_str("Num"),
            Type::Text => String::from_str("Text"),
            Type::Bool => String::from_str("Bool"),
            Type::Array(inner) => {
                let mut out = String::from_str("[");
                let name = inner.to_string();
                out.append(name.as_str());
                out.append("]");
                out
            },
            Type::Generic => String::from_str("Generic"),
            Type::Failable(inner) => {
                let mut out = inner.to_string();
                out.append("?");
                out
            },
            Type::Void => String::from_str("Void"),
        }
    }

    /// The type named by `word`, for the five names of plain types.
    pub open spec fn named(word: Seq<char>) -> Option<Type> {
        if word == "Null"@ {
            Some(Type::Null)
        } else if word == "Int"@ {
            Some(Type::Int)
        } else if word == "Num"@ {
            Some(Type::Num)
        } else if word == "Text"@ {
            Some(Type::Text)
        } else if word == "Bool"@ {
            Some(Type::Bool)
        } else {
            None
        }
    }

    /// The plain type that `word` names, if it names one.
    pub fn from_name(word: &str) -> (r: Option<Type>)
        ensures
            r == Self::named(word@),
    {
        if word.eq("Null") {
            Some(Type::Null)
        } else if word.eq("Int") {
            Some(Type::Int)
        } else if word.eq("Num") {
            Some(Type::Num)
        } else if word.eq("Text") {
            Some(Type::Text)
        } else if word.eq("Bool") {
            Some(Type::Bool)
        } else {
            None
        }
    }
}

/// A copy of a list of types.
pub fn copy_types(kinds: &Vec<Type>) -> (r: Vec<Type>)
    ensures
        r@ == kinds@,
{
    let mut out: Vec<Type> = Vec::new();
    let mut i: usize = 0;
    while i < kinds.len()
        invariant
            i <= kinds@.len(),
            out@ == kinds@.take(i as int),
        decreases kinds.len() - i,
    {
        out.push(kinds[i].clone());
        assert(kinds@.take(i + 1) == kinds@.take(i as int).push(kinds@[i as int]));
        i = i + 1;
    }
    assert(kinds@.take(kinds@.len() as int) == kinds@);
    out
}

/// Whether the two lists hold the same types in the same order.
pub fn same_types(a: &Vec<Type>, b: &Vec<Type>) -> (r: bool)
    ensures
        r == (a@ == b@),
{
    if a.len() != b.len() {
        return false;
    }
    let mut i: usize = 0;
    while i < a.len()
        invariant
            i <= a@.len(),
            a@.len() == b@.len(),
            forall|j: int| 0 <= j < i ==> a@[j] == b@[j],
        decreases a.len() - i,
    {
        if !a[i].same_as(&b[i]) {
            return false;
        }
        i = i + 1;
    }
    assert(a@ =~= b@);
    true
}

} // verus!
