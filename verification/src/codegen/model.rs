//! A type definition as code generation sees it: its name, its shape and,
//! for a struct, its fields in declaration order.

use vstd::prelude::*;
use crate::sql::native::NativeType;

verus! {

/// A named field of a struct.
#[derive(Debug, PartialEq, Eq)]
pub struct FieldDefinition {
    pub name: String,
    /// The native scalar type of the field; nothing for a field of any
    /// other type, which has no SQL value.
    pub native_type: Option<NativeType>,
}

/// A named field, with its name as a sequence.
pub ghost struct FieldDefinitionView {
    pub name: Seq<char>,
    pub native_type: Option<NativeType>,
}

impl View for FieldDefinition {
    type V = FieldDefinitionView;

    open spec fn view(&self) -> FieldDefinitionView {
        FieldDefinitionView { name: self.name@, native_type: self.native_type }
    }
}

/// The fields of a struct, in declaration order.
#[derive(Debug, PartialEq, Eq)]
pub enum StructFields {
    /// `struct S { a: A, b: B }`
    Named(Vec<FieldDefinition>),
    /// `struct S(A, B);`
    Unnamed(Vec<Option<NativeType>>),
    /// `struct S;`
    Unit,
}

impl StructFields {
    /// The named fields, in declaration order. A tuple struct and a unit
    /// struct have none.
    pub open spec fn named(&self) -> Seq<FieldDefinitionView> {
        match *self {
            StructFields::Named(fields) => fields@.map_values(|f: FieldDefinition| f@),
            _ => Seq::empty(),
        }
    }

    /// The names of the named fields, in declaration order.
    pub open spec fn names(&self) -> Seq<Seq<char>> {
        self.named().map_values(|f: FieldDefinitionView| f.name)
    }
}

/// What kind of type a definition is.
#[derive(Debug, PartialEq, Eq)]
pub enum TypeShape {
    Struct(StructFields),
    Enum,
    Union,
}

/// A type that a derive was asked for.
#[derive(Debug, PartialEq, Eq)]
pub struct TypeDefinition {
    pub name: String,
    pub shape: TypeShape,
}

/// The position of the first of some names, at or after `from`, that is the
/// given name.
pub open spec fn name_position(names: Seq<Seq<char>>, name: Seq<char>, from: int) -> Option<int>
    decreases names.len() - from,
{
    if from < 0 || from >= names.len() {
        None
    } else if names[from] == name {
        Some(from)
    } else {
        name_position(names, name, from + 1)
    }
}

/// The position, among the named fields, of the first field with the given
/// name.
pub open spec fn field_position(names: Seq<Seq<char>>, name: Seq<char>) -> Option<int> {
    name_position(names, name, 0)
}

/// A name has a position among some names if and only if it is one of them,
/// and its position is that of its first occurrence.
pub proof fn lemma_name_position(names: Seq<Seq<char>>, name: Seq<char>, from: int)
    requires
        0 <= from,
    ensures
        match name_position(names, name, from) {
            Some(position) => {
                &&& from <= position < names.len()
                &&& names[position] == name
                &&& forall|earlier: int| from <= earlier < position ==> names[earlier] != name
            },
            None => forall|at: int| from <= at < names.len() ==> names[at] != name,
        },
    decreases names.len() - from,
{
    if from < names.len() && names[from] != name {
        lemma_name_position(names, name, from + 1);
    }
}

/// A name is the name of a field if and only if it is one of the names.
pub proof fn lemma_field_position(names: Seq<Seq<char>>, name: Seq<char>)
    ensures
        field_position(names, name) is Some <==> names.contains(name),
        field_position(names, name) matches Some(position) ==> 0 <= position < names.len()
            && names[position] == name,
{
    lemma_name_position(names, name, 0);
}

/// The first named field with the given name, by its index among the named
/// fields.
pub fn find_field(fields: &StructFields, name: &String) -> (found: Option<usize>)
    ensures
        match found {
            Some(index) => field_position(fields.names(), name@) == Some(index as int),
            None => field_position(fields.names(), name@) == None::<int>,
        },
{
    match fields {
        StructFields::Named(named) => {
            let mut index: usize = 0;
            while index < named.len()
                invariant
                    index <= named.len(),
                    *fields == StructFields::Named(*named),
                    field_position(fields.names(), name@) == name_position(
                        fields.names(),
                        name@,
                        index as int,
                    ),
                decreases named.len() - index,
            {
                if named[index].name == *name {
                    return Some(index);
                }
                index = index + 1;
            }
            None
        },
        _ => None,
    }
}

} // verus!
