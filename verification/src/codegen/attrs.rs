//! The configuration of a script: where its text lies and what its rows are
//! read as. It is resolved once, for a working directory, from the `worm`
//! attribute of the struct or, where the attribute says nothing, from the
//! struct's name.

use vstd::prelude::*;
use crate::codegen::error::CodegenError;
use crate::codegen::error::CodegenErrorView;
use crate::codegen::paths::build_script_path;
use crate::codegen::paths::script_file;

verus! {

/// The arguments of a `worm` attribute. Each of them may be left out.
#[derive(Debug, PartialEq, Eq)]
pub struct WormAttr {
    pub path: Option<String>,
    pub result: Option<String>,
}

/// The type that the rows of a script are read as.
#[derive(Debug, PartialEq, Eq)]
pub enum ResultType {
    /// The unit type, for a statement that returns no rows.
    Unit,
    /// The type of the given name.
    Named(String),
}

/// A result type, with its name as a sequence.
pub ghost enum ResultTypeView {
    Unit,
    Named(Seq<char>),
}

impl View for ResultType {
    type V = ResultTypeView;

    open spec fn view(&self) -> ResultTypeView {
        match *self {
            ResultType::Unit => ResultTypeView::Unit,
            ResultType::Named(name) => ResultTypeView::Named(name@),
        }
    }
}

/// The configuration of a script.
#[derive(Debug, PartialEq, Eq)]
pub struct WormScriptConfig {
    path: String,
    result: ResultType,
}

/// What the configuration of a script holds.
pub ghost struct WormScriptConfigView {
    /// The file of the script.
    pub path: Seq<char>,
    /// The type that the rows of the script are read as.
    pub result: ResultTypeView,
}

impl View for WormScriptConfig {
    type V = WormScriptConfigView;

    closed spec fn view(&self) -> WormScriptConfigView {
        WormScriptConfigView { path: self.path@, result: self.result@ }
    }
}

impl WormScriptConfig {
    /// The file of the script.
    pub fn path(&self) -> (path: &String)
        ensures
            path@ == self@.path,
    {
        &self.path
    }

    /// The type that the rows of the script are read as.
    pub fn result(&self) -> (result: &ResultType)
        ensures
            result@ == self@.result,
    {
        &self.result
    }

    /// Gives up the configuration for its result type.
    pub fn into_result(self) -> (result: ResultType)
        ensures
            result@ == self@.result,
    {
        self.result
    }
}

/// The greatest number of characters of the name of a result type that is
/// handed to the parser of types. A type with a longer name can be given by
/// an alias.
pub const MAX_RESULT_TYPE_LENGTH: usize = 64;

/// What is wrong with a longer name of a result type.
pub const RESULT_TYPE_TOO_LONG: &'static str = "the name of the type is too long";

/// Parses the name of a result type with `syn::parse_str`, as a `syn::Type`,
/// and drops the parsed type: what is left is whether the text parsed and,
/// if it did not, the message of the parser's error. Nothing is claimed of
/// the answer. The parser goes as deep as the type is nested, so a long text
/// is kept from it.
#[verifier::external_body]
pub(crate) fn build_result_type(name: &str) -> (parsed: Result<(), String>)
    requires
        name@.len() <= MAX_RESULT_TYPE_LENGTH,
{
    match syn::parse_str::<syn::Type>(name) {
        Ok(_) => Ok(()),
        Err(error) => Err(error.to_string()),
    }
}

/// Whether `fault` can be what is wrong with the result type that an
/// attribute gives. Where it gives none, nothing is wrong. A name that is too
/// long is too long, and is not parsed. Of any other name the parser of
/// types decides.
pub open spec fn fault_possible(result: Option<Seq<char>>, fault: Option<Seq<char>>) -> bool {
    match result {
        None => fault is None,
        Some(result) => result.len() > MAX_RESULT_TYPE_LENGTH ==> fault == Some(
            RESULT_TYPE_TOO_LONG@,
        ),
    }
}

/// What is wrong with a parsed name, if anything is.
pub open spec fn fault_of(parsed: Result<(), String>) -> Option<Seq<char>> {
    match parsed {
        Ok(_) => None,
        Err(reason) => Some(reason@),
    }
}

/// Examines the result type that an attribute gives: a name that is too long
/// is refused as it stands, any other name is parsed as a type.
pub fn examine_result_type(attr: &Option<WormAttr>) -> (parsed: Result<(), String>)
    ensures
        fault_possible(attr_result(*attr), fault_of(parsed)),
{
    match attr {
        Some(WormAttr { path: _, result: Some(result) }) => {
            if result.as_str().unicode_len() > MAX_RESULT_TYPE_LENGTH {
                Err(RESULT_TYPE_TOO_LONG.to_owned())
            } else {
                build_result_type(result.as_str())
            }
        },
        _ => Ok(()),
    }
}

/// The path that an attribute asks for.
pub open spec fn attr_path(attr: Option<WormAttr>) -> Option<Seq<char>> {
    match attr {
        Some(WormAttr { path: Some(path), result }) => Some(path@),
        _ => None,
    }
}

/// The result type that an attribute asks for.
pub open spec fn attr_result(attr: Option<WormAttr>) -> Option<Seq<char>> {
    match attr {
        Some(WormAttr { path, result: Some(result) }) => Some(result@),
        _ => None,
    }
}

/// The configuration of the script of a struct for a working directory: the
/// file of the script that the attribute names, else of the script that is
/// named as the struct is; the result type that the attribute gives, else
/// the unit type. Each of the two takes its default whatever the other is.
/// `fault` is why the result type that the attribute gives is no type, if it
/// is none.
pub open spec fn configured(
    type_ident: Seq<char>,
    working_directory: Seq<char>,
    path: Option<Seq<char>>,
    result: Option<Seq<char>>,
    fault: Option<Seq<char>>,
) -> Result<WormScriptConfigView, CodegenErrorView> {
    match (result, fault) {
        (Some(result), Some(reason)) => Err(
            CodegenErrorView::InvalidResultType { type_ident, result, reason },
        ),
        _ => Ok(
            WormScriptConfigView {
                path: script_file(
                    working_directory,
                    match path {
                        Some(path) => path,
                        None => type_ident,
                    },
                ),
                result: match result {
                    Some(result) => ResultTypeView::Named(result),
                    None => ResultTypeView::Unit,
                },
            },
        ),
    }
}

/// Resolves the configuration of the script of a struct for a working
/// directory, given whether the result type that the attribute names parsed.
pub fn resolve_config(
    type_ident: &str,
    working_directory: &str,
    attr: Option<WormAttr>,
    parsed: Result<(), String>,
) -> (config: Result<WormScriptConfig, CodegenError>)
    ensures
        match config {
            Ok(config) => configured(
                type_ident@,
                working_directory@,
                attr_path(attr),
                attr_result(attr),
                fault_of(parsed),
            ) == Ok::<WormScriptConfigView, CodegenErrorView>(config@),
            Err(error) => configured(
                type_ident@,
                working_directory@,
                attr_path(attr),
                attr_result(attr),
                fault_of(parsed),
            ) == Err::<WormScriptConfigView, CodegenErrorView>(error@),
        },
{
    let (path, result) = match attr {
        Some(attr) => (attr.path, attr.result),
        None => (None, None),
    };
    let result = match result {
        None => ResultType::Unit,
        Some(result) => match parsed {
            Ok(_) => ResultType::Named(result),
            Err(reason) => {
                return Err(
                    CodegenError::InvalidResultType {
                        type_ident: type_ident.to_owned(),
                        result,
                        reason,
                    },
                );
            },
        },
    };
    let path = match path {
        Some(path) => build_script_path(working_directory, path.as_str()),
        None => build_script_path(working_directory, type_ident),
    };
    Ok(WormScriptConfig { path, result })
}

/// Resolves the configuration of the script of a struct from the struct's
/// name, the working directory and the `worm` attribute of the struct, if it
/// has one. Whether the result type that the attribute gives is a type is
/// for the parser of types to say: the configuration is that for what the
/// parser found wrong, whatever that is.
pub fn get_helper_attr(type_ident: &str, working_directory: &str, attr: Option<WormAttr>) -> (config:
    Result<WormScriptConfig, CodegenError>)
    ensures
        exists|fault: Option<Seq<char>>|
            {
                &&& fault_possible(attr_result(attr), fault)
                &&& match config {
                    Ok(config) => #[trigger] configured(
                        type_ident@,
                        working_directory@,
                        attr_path(attr),
                        attr_result(attr),
                        fault,
                    ) == Ok::<WormScriptConfigView, CodegenErrorView>(config@),
                    Err(error) => configured(
                        type_ident@,
                        working_directory@,
                        attr_path(attr),
                        attr_result(attr),
                        fault,
                    ) == Err::<WormScriptConfigView, CodegenErrorView>(error@),
                }
            },
{
    let parsed = examine_result_type(&attr);
    let config = resolve_config(type_ident, working_directory, attr, parsed);
    proof {
        let fault = fault_of(parsed);
        assert(fault_possible(attr_result(attr), fault));
        assert(match config {
            Ok(config) => configured(
                type_ident@,
                working_directory@,
                attr_path(attr),
                attr_result(attr),
                fault,
            ) == Ok::<WormScriptConfigView, CodegenErrorView>(config@),
            Err(error) => configured(
                type_ident@,
                working_directory@,
                attr_path(attr),
                attr_result(attr),
                fault,
            ) == Err::<WormScriptConfigView, CodegenErrorView>(error@),
        });
    }
    config
}

} // verus!
