//! The errors that end code generation for one type. None of them is ever
//! seen at run time.

use vstd::prelude::*;
use crate::text::decimal_text;
use crate::text::push_decimal_digits;

verus! {

/// One of the two derives.
#[derive(Debug, Clone, Copy, PartialEq, Eq, Structural)]
pub enum Derive {
    Script,
    SqlResult,
}

/// Why no code could be generated for a type.
#[derive(Debug, PartialEq, Eq)]
pub enum CodegenError {
    /// The derive was asked for a type that is not a struct.
    NotAStruct { type_ident: String, derive: Derive },
    /// A result struct has fields without names.
    UnnamedFields { type_ident: String },
    /// A field whose value is needed is of no native scalar type.
    UnsupportedFieldType { type_ident: String, field_name: String },
    /// The result type that the attribute names does not parse as a type.
    InvalidResultType { type_ident: String, result: String, reason: String },
    /// The script file could not be read.
    UnreadableScript { type_ident: String, path: String, reason: String },
    /// The sigil that is character number `position` of the template, counted
    /// from zero, is followed by no name.
    EmptyParameterName { type_ident: String, template: String, position: usize },
    /// The template names a parameter that is no field of the struct.
    UnresolvedParameter { type_ident: String, template: String, parameter: String },
}

/// What a code generation error holds, with its texts as sequences.
pub ghost enum CodegenErrorView {
    NotAStruct { type_ident: Seq<char>, derive: Derive },
    UnnamedFields { type_ident: Seq<char> },
    UnsupportedFieldType { type_ident: Seq<char>, field_name: Seq<char> },
    InvalidResultType { type_ident: Seq<char>, result: Seq<char>, reason: Seq<char> },
    UnreadableScript { type_ident: Seq<char>, path: Seq<char>, reason: Seq<char> },
    EmptyParameterName { type_ident: Seq<char>, template: Seq<char>, position: int },
    UnresolvedParameter { type_ident: Seq<char>, template: Seq<char>, parameter: Seq<char> },
}

impl View for CodegenError {
    type V = CodegenErrorView;

    open spec fn view(&self) -> CodegenErrorView {
        match *self {
            CodegenError::NotAStruct { type_ident, derive } => CodegenErrorView::NotAStruct {
                type_ident: type_ident@,
                derive,
            },
            CodegenError::UnnamedFields { type_ident } => CodegenErrorView::UnnamedFields {
                type_ident: type_ident@,
            },
            CodegenError::UnsupportedFieldType {
                type_ident,
                field_name,
            } => CodegenErrorView::UnsupportedFieldType {
                type_ident: type_ident@,
                field_name: field_name@,
            },
            CodegenError::InvalidResultType {
                type_ident,
                result,
                reason,
            } => CodegenErrorView::InvalidResultType {
                type_ident: type_ident@,
                result: result@,
                reason: reason@,
            },
            CodegenError::UnreadableScript {
                type_ident,
                path,
                reason,
            } => CodegenErrorView::UnreadableScript {
                type_ident: type_ident@,
                path: path@,
                reason: reason@,
            },
            CodegenError::EmptyParameterName {
                type_ident,
                template,
                position,
            } => CodegenErrorView::EmptyParameterName {
                type_ident: type_ident@,
                template: template@,
                position: position as int,
            },
            CodegenError::UnresolvedParameter {
                type_ident,
                template,
                parameter,
            } => CodegenErrorView::UnresolvedParameter {
                type_ident: type_ident@,
                template: template@,
                parameter: parameter@,
            },
        }
    }
}

impl CodegenErrorView {
    /// The text that reports the error to whoever wrote the struct.
    pub open spec fn message(self) -> Seq<char> {
        match self {
            CodegenErrorView::NotAStruct { type_ident, derive: Derive::Script } => {
                "Script can only be derived for a struct."@
            },
            CodegenErrorView::NotAStruct { type_ident, derive: Derive::SqlResult } => {
                "SqlResult can only be derived for a struct"@
            },
            CodegenErrorView::UnnamedFields { type_ident } => {
                "The type '"@ + type_ident + "' has fields without a name"@
            },
            CodegenErrorView::UnsupportedFieldType { type_ident, field_name } => {
                "The field '"@ + field_name + "' of the type '"@ + type_ident
                    + "' does not convert from or to a SQL value"@
            },
            CodegenErrorView::InvalidResultType { type_ident, result, reason } => {
                "The result type '"@ + result + "' of the type '"@ + type_ident
                    + "' is not a type:\n"@ + reason
            },
            CodegenErrorView::UnreadableScript { type_ident, path, reason } => {
                "Unable to open the script file at '"@ + path + "':\n"@ + reason
            },
            CodegenErrorView::EmptyParameterName { type_ident, template, position } => {
                "The script of the type '"@ + type_ident
                    + "' has a parameter without a name at character "@ + decimal_text(position)
            },
            CodegenErrorView::UnresolvedParameter { type_ident, template, parameter } => {
                "The type '"@ + type_ident + "' has no field with the name '"@ + parameter + "'"@
            },
        }
    }
}

impl CodegenError {
    /// The text that reports the error to whoever wrote the struct.
    pub fn message(&self) -> (text: String)
        ensures
            text@ == self@.message(),
    {
        match self {
            CodegenError::NotAStruct { type_ident, derive } => {
                match derive {
                    Derive::Script => "Script can only be derived for a struct.".to_owned(),
                    Derive::SqlResult => "SqlResult can only be derived for a struct".to_owned(),
                }
            },
            CodegenError::UnnamedFields { type_ident } => {
                let mut text = "The type '".to_owned();
                text.append(type_ident.as_str());
                text.append("' has fields without a name");
                text
            },
            CodegenError::UnsupportedFieldType { type_ident, field_name } => {
                let mut text = "The field '".to_owned();
                text.append(field_name.as_str());
                text.append("' of the type '");
                text.append(type_ident.as_str());
                text.append("' does not convert from or to a SQL value");
                text
            },
            CodegenError::InvalidResultType { type_ident, result, reason } => {
                let mut text = "The result type '".to_owned();
                text.append(result.as_str());
                text.append("' of the type '");
                text.append(type_ident.as_str());
                text.append("' is not a type:\n");
                text.append(reason.as_str());
                text
            },
            CodegenError::UnreadableScript { type_ident, path, reason } => {
                let mut text = "Unable to open the script file at '".to_owned();
                text.append(path.as_str());
                text.append("':\n");
                text.append(reason.as_str());
                text
            },
            CodegenError::EmptyParameterName { type_ident, template, position } => {
                let mut text = "The script of the type '".to_owned();
                text.append(type_ident.as_str());
                text.append("' has a parameter without a name at character ");
                push_decimal_digits(&mut text, *position as u128);
                text
            },
            CodegenError::UnresolvedParameter { type_ident, template, parameter } => {
                let mut text = "The type '".to_owned();
                text.append(type_ident.as_str());
                text.append("' has no field with the name '");
                text.append(parameter.as_str());
                text.append("'");
                text
            },
        }
    }
}

} // verus!
