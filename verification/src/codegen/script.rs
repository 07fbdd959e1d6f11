//! Deriving `Script`: a struct gets the type that its rows are read as and
//! the compiled template of its script.

use vstd::prelude::*;
use crate::codegen::attrs::attr_path;
use crate::codegen::attrs::attr_result;
use crate::codegen::attrs::configured;
use crate::codegen::attrs::get_helper_attr;
use crate::codegen::attrs::fault_possible;
use crate::codegen::attrs::ResultType;
use crate::codegen::attrs::MAX_RESULT_TYPE_LENGTH;
use crate::codegen::attrs::RESULT_TYPE_TOO_LONG;
use crate::codegen::attrs::ResultTypeView;
use crate::codegen::attrs::WormAttr;
use crate::codegen::attrs::WormScriptConfig;
use crate::codegen::attrs::WormScriptConfigView;
use crate::codegen::error::CodegenError;
use crate::codegen::error::CodegenErrorView;
use crate::codegen::error::Derive;
use crate::codegen::laws::lemma_bindings_name_fields;
use crate::codegen::model::FieldDefinitionView;
use crate::codegen::model::StructFields;
use crate::codegen::model::TypeDefinition;
use crate::codegen::model::TypeShape;
use crate::codegen::template::build_sql;
use crate::codegen::template::compiled;
use crate::codegen::template::CompiledTemplate;
use crate::codegen::template::CompiledTemplateView;
use crate::codegen::template::positions;
use crate::sql::native::native_views;
use crate::sql::native::NativeType;
use crate::sql::native::NativeValue;
use crate::sql::native::NativeValueView;
use crate::sql::rows::value_views;
use crate::sql::values::SqlValue;
use crate::sql::values::SqlValueView;
use crate::text::alphabetic;
use crate::text::texts;

verus! {

/// What came of reading a script: its text, or what the file system
/// reported.
pub open spec fn script_read(read: Result<String, String>) -> Result<Seq<char>, Seq<char>> {
    match read {
        Ok(text) => Ok(text@),
        Err(reason) => Err(reason@),
    }
}

/// What deriving `Script` for a struct gives.
#[derive(Debug, PartialEq, Eq)]
pub struct ScriptImpl {
    type_ident: String,
    output: ResultType,
    sql_template: CompiledTemplate,
    field_types: Vec<Option<NativeType>>,
}

/// What a derived implementation of `Script` holds.
pub ghost struct ScriptImplView {
    /// The name of the struct.
    pub type_ident: Seq<char>,
    /// The type that the rows of the script are read as.
    pub output: ResultTypeView,
    /// The compiled template of the script.
    pub sql_template: CompiledTemplateView,
    /// The native types of the named fields of the struct, in declaration
    /// order; nothing for a field of another type.
    pub field_types: Seq<Option<NativeType>>,
}

/// The native types of the named fields of a struct, in declaration order;
/// nothing for a field of another type.
pub open spec fn named_types(fields: StructFields) -> Seq<Option<NativeType>> {
    fields.named().map_values(|field: FieldDefinitionView| field.native_type)
}

/// Whether some values are the values of the fields of a struct: one value
/// for each field, of the field's native type. A field of another type has
/// no SQL value: any value stands in its place.
pub open spec fn record_fits(
    field_types: Seq<Option<NativeType>>,
    record: Seq<NativeValueView>,
) -> bool {
    &&& record.len() == field_types.len()
    &&& forall|i: int|
        0 <= i < record.len() ==> (field_types[i] matches Some(native_type) ==> (
        #[trigger] record[i]).native_type() == native_type)
}

/// The first parameter at or after `from` that is bound to a field of no
/// native type; the number of parameters if there is none.
pub open spec fn first_untyped(
    bindings: Seq<int>,
    field_types: Seq<Option<NativeType>>,
    from: int,
) -> int
    decreases bindings.len() - from,
{
    if from < 0 || from >= bindings.len() {
        bindings.len() as int
    } else if field_types[bindings[from]] is None {
        from
    } else {
        first_untyped(bindings, field_types, from + 1)
    }
}

/// The SQL values of the parameters of a template for the given values of
/// the fields: each parameter has the value of the field that it is bound
/// to, converted to a SQL value.
pub open spec fn bound_values(bindings: Seq<int>, record: Seq<NativeValueView>) -> Seq<
    SqlValueView,
> {
    Seq::new(bindings.len(), |k: int| record[bindings[k]].encoded())
}

impl View for ScriptImpl {
    type V = ScriptImplView;

    closed spec fn view(&self) -> ScriptImplView {
        ScriptImplView {
            type_ident: self.type_ident@,
            output: self.output@,
            sql_template: self.sql_template@,
            field_types: self.field_types@,
        }
    }
}

impl ScriptImpl {
    #[verifier::type_invariant]
    spec fn well_formed(self) -> bool {
        forall|k: int|
            0 <= k < self.sql_template@.bindings.len() ==> 0 <= #[trigger] self.sql_template@.bindings[k]
                < self.field_types@.len()
    }

    /// The name of the struct.
    pub fn type_ident(&self) -> (type_ident: &String)
        ensures
            type_ident@ == self@.type_ident,
    {
        &self.type_ident
    }

    /// The type that the rows of the script are read as.
    pub fn output(&self) -> (output: &ResultType)
        ensures
            output@ == self@.output,
    {
        &self.output
    }

    /// The compiled template of the script.
    pub fn sql_template(&self) -> (sql_template: &CompiledTemplate)
        ensures
            sql_template@ == self@.sql_template,
    {
        &self.sql_template
    }

    /// The native types of the named fields of the struct, in declaration
    /// order; nothing for a field of another type.
    pub fn field_types(&self) -> (field_types: &Vec<Option<NativeType>>)
        ensures
            field_types@ == self@.field_types,
    {
        &self.field_types
    }

    /// The SQL text of one value of the struct, given by the values of its
    /// fields in declaration order: the literal chunks of the template with,
    /// in the place of each parameter, the literal of the value of the field
    /// that the parameter names. There is no text for values that are not
    /// those of the fields of the struct.
    pub fn compile(&self, record: &Vec<NativeValue>) -> (sql: Option<String>)
        ensures
            sql is Some <==> record_fits(self@.field_types, native_views(record@)),
            sql matches Some(text) ==> text@ == self@.sql_template.sql(
                bound_values(self@.sql_template.bindings, native_views(record@)),
            ),
    {
        proof {
            use_type_invariant(self);
        }
        if record.len() != self.field_types.len() {
            return None;
        }
        let mut i: usize = 0;
        while i < record.len()
            invariant
                i <= record.len(),
                record.len() == self.field_types.len(),
                forall|j: int|
                    0 <= j < i ==> (self.field_types@[j] matches Some(native_type) ==> (
                    #[trigger] native_views(record@)[j]).native_type() == native_type),
            decreases record.len() - i,
        {
            match self.field_types[i] {
                Some(native_type) => {
                    if record[i].native_type() != native_type {
                        assert(native_views(record@)[i as int].native_type() != native_type);
                        return None;
                    }
                },
                None => {},
            }
            i = i + 1;
        }
        let bindings = self.sql_template.bindings();
        let ghost bound = bound_values(self@.sql_template.bindings, native_views(record@));
        let mut values: Vec<SqlValue> = Vec::new();
        let mut k: usize = 0;
        while k < bindings.len()
            invariant
                k <= bindings.len(),
                bound == bound_values(self@.sql_template.bindings, native_views(record@)),
                positions(bindings@) == self@.sql_template.bindings,
                forall|j: int|
                    0 <= j < bindings@.len() ==> 0 <= #[trigger] self@.sql_template.bindings[j]
                        < record@.len(),
                value_views(values@) == bound.take(k as int),
            decreases bindings.len() - k,
        {
            assert(positions(bindings@)[k as int] == bindings@[k as int] as int);
            let value = record[bindings[k]].to_sql();
            values.push(value);
            assert(bound.take(k + 1) =~= bound.take(k as int).push(bound[k as int]));
            k = k + 1;
        }
        assert(bound.take(k as int) =~= bound);
        self.sql_template.compile(&values)
    }
}

/// The configuration of the script of a type: that of its attribute if the
/// type is a struct, else the error that only a struct can have a script.
/// `fault` is why the result type that the attribute gives is no type, if it
/// is none.
pub open spec fn script_configured(
    tagged: TypeDefinition,
    working_directory: Seq<char>,
    attr: Option<WormAttr>,
    fault: Option<Seq<char>>,
) -> Result<WormScriptConfigView, CodegenErrorView> {
    match tagged.shape {
        TypeShape::Struct(_) => configured(
            tagged.name@,
            working_directory,
            attr_path(attr),
            attr_result(attr),
            fault,
        ),
        _ => Err(CodegenErrorView::NotAStruct { type_ident: tagged.name@, derive: Derive::Script }),
    }
}

/// What is wrong with the result type that an attribute gives, as far as
/// that is known without the parser of types.
pub open spec fn known_fault(attr: Option<WormAttr>) -> Option<Seq<char>> {
    match attr_result(attr) {
        Some(result) => if result.len() > MAX_RESULT_TYPE_LENGTH {
            Some(RESULT_TYPE_TOO_LONG@)
        } else {
            None
        },
        None => None,
    }
}

/// What deriving `Script` for a struct comes to, once its script was read or
/// could not be read: the error of the reading, with the file of the script,
/// the error of the template, the error of the first parameter that names a
/// field of no native type, or the implementation.
pub open spec fn script_derived(
    type_ident: Seq<char>,
    fields: StructFields,
    config: WormScriptConfigView,
    read: Result<Seq<char>, Seq<char>>,
) -> Result<ScriptImplView, CodegenErrorView> {
    let names = fields.names();
    let field_types = named_types(fields);
    match read {
        Err(reason) => Err(
            CodegenErrorView::UnreadableScript { type_ident, path: config.path, reason },
        ),
        Ok(script) => match compiled(script, alphabetic(script), type_ident, names) {
            Ok(sql_template) => {
                let untyped = first_untyped(sql_template.bindings, field_types, 0);
                if untyped == sql_template.bindings.len() {
                    Ok(
                        ScriptImplView {
                            type_ident,
                            output: config.result,
                            sql_template,
                            field_types,
                        },
                    )
                } else {
                    Err(
                        CodegenErrorView::UnsupportedFieldType {
                            type_ident,
                            field_name: sql_template.parameters[untyped],
                        },
                    )
                }
            },
            Err(error) => Err(error),
        },
    }
}

/// The types of the named fields of a struct, in declaration order.
pub fn field_types(fields: &StructFields) -> (types: Vec<Option<NativeType>>)
    ensures
        types@ == named_types(*fields),
{
    let mut types: Vec<Option<NativeType>> = Vec::new();
    if let StructFields::Named(named) = fields {
        let mut k: usize = 0;
        while k < named.len()
            invariant
                k <= named.len(),
                *fields == StructFields::Named(*named),
                types@ == named_types(*fields).take(k as int),
            decreases named.len() - k,
        {
            types.push(named[k].native_type);
            k = k + 1;
        }
    }
    types
}

/// The first half of deriving `Script`: whether the type can have a script
/// and, if it can, the configuration of the script. The file that the
/// configuration names is then read, and `impl_derive_script_struct` does the
/// rest.
pub fn impl_derive_script(
    tagged: &TypeDefinition,
    working_directory: &str,
    attr: Option<WormAttr>,
) -> (config: Result<WormScriptConfig, CodegenError>)
    ensures
        exists|fault: Option<Seq<char>>|
            {
                &&& fault_possible(attr_result(attr), fault)
                &&& match config {
                    Ok(config) => #[trigger] script_configured(
                        *tagged,
                        working_directory@,
                        attr,
                        fault,
                    ) == Ok::<WormScriptConfigView, CodegenErrorView>(config@),
                    Err(error) => script_configured(*tagged, working_directory@, attr, fault)
                        == Err::<WormScriptConfigView, CodegenErrorView>(error@),
                }
            },
{
    match &tagged.shape {
        TypeShape::Struct(_) => {
            let config = get_helper_attr(tagged.name.as_str(), working_directory, attr);
            proof {
                let fault = choose|fault: Option<Seq<char>>|
                    {
                        &&& fault_possible(attr_result(attr), fault)
                        &&& match config {
                            Ok(config) => #[trigger] configured(
                                tagged.name@,
                                working_directory@,
                                attr_path(attr),
                                attr_result(attr),
                                fault,
                            ) == Ok::<WormScriptConfigView, CodegenErrorView>(config@),
                            Err(error) => configured(
                                tagged.name@,
                                working_directory@,
                                attr_path(attr),
                                attr_result(attr),
                                fault,
                            ) == Err::<WormScriptConfigView, CodegenErrorView>(error@),
                        }
                    };
                assert(script_configured(*tagged, working_directory@, attr, fault) == configured(
                    tagged.name@,
                    working_directory@,
                    attr_path(attr),
                    attr_result(attr),
                    fault,
                ));
            }
            config
        },
        _ => {
            let config = Err(
                CodegenError::NotAStruct {
                    type_ident: tagged.name.clone(),
                    derive: Derive::Script,
                },
            );
            proof {
                let fault = known_fault(attr);
                assert(fault_possible(attr_result(attr), fault));
                assert(script_configured(*tagged, working_directory@, attr, fault) == Err::<
                    WormScriptConfigView,
                    CodegenErrorView,
                >(config->Err_0@));
            }
            config
        },
    }
}

/// The second half of deriving `Script`: compiles the script that was read
/// against the fields of the struct. Each field that a parameter names must
/// be of a native type; the other fields may be of any type.
#[verifier::loop_isolation(false)]
pub fn impl_derive_script_struct(
    type_ident: &str,
    fields: &StructFields,
    config: WormScriptConfig,
    read: Result<String, String>,
) -> (result: Result<ScriptImpl, CodegenError>)
    ensures
        match result {
            Ok(derived) => script_derived(type_ident@, *fields, config@, script_read(read))
                == Ok::<ScriptImplView, CodegenErrorView>(derived@),
            Err(error) => script_derived(type_ident@, *fields, config@, script_read(read))
                == Err::<ScriptImplView, CodegenErrorView>(error@),
        },
{
    match read {
        Err(reason) => Err(
            CodegenError::UnreadableScript {
                type_ident: type_ident.to_owned(),
                path: config.path().clone(),
                reason,
            },
        ),
        Ok(script) => match build_sql(script.as_str(), type_ident, fields) {
            Ok(sql_template) => {
                proof {
                    lemma_bindings_name_fields(
                        script@,
                        alphabetic(script@),
                        type_ident@,
                        fields.names(),
                    );
                }
                let field_types = field_types(fields);
                let bindings = sql_template.bindings();
                let parameters = sql_template.parameters();
                let mut k: usize = 0;
                while k < bindings.len()
                    invariant
                        k <= bindings.len(),
                        positions(bindings@) == sql_template@.bindings,
                        texts(parameters@) == sql_template@.parameters,
                        parameters@.len() == bindings@.len(),
                        forall|j: int|
                            0 <= j < bindings@.len() ==> 0 <= #[trigger] sql_template@.bindings[j]
                                < field_types@.len(),
                        first_untyped(sql_template@.bindings, field_types@, 0) == first_untyped(
                            sql_template@.bindings,
                            field_types@,
                            k as int,
                        ),
                    decreases bindings.len() - k,
                {
                    assert(positions(bindings@)[k as int] == bindings@[k as int] as int);
                    if field_types[bindings[k]].is_none() {
                        assert(texts(parameters@)[k as int] == parameters@[k as int]@);
                        return Err(
                            CodegenError::UnsupportedFieldType {
                                type_ident: type_ident.to_owned(),
                                field_name: parameters[k].clone(),
                            },
                        );
                    }
                    k = k + 1;
                }
                Ok(
                    ScriptImpl {
                        type_ident: type_ident.to_owned(),
                        output: config.into_result(),
                        sql_template,
                        field_types,
                    },
                )
            },
            Err(error) => Err(error),
        },
    }
}

/// Whether `result` is what deriving `Script` comes to once the script of
/// the given configuration is read: `read_script` was handed that
/// configuration, and the result is what the script that it read, or its
/// failure to read one, comes to.
pub open spec fn derived_after_reading<F: FnOnce(&WormScriptConfig) -> Result<String, String>>(
    read_script: F,
    type_ident: Seq<char>,
    fields: StructFields,
    config: WormScriptConfigView,
    result: Result<ScriptImpl, CodegenError>,
) -> bool {
    exists|read: Result<String, String>, handed: WormScriptConfig|
        {
            &&& handed@ == config
            &&& #[trigger] call_ensures(read_script, (&handed,), read)
            &&& match result {
                Ok(derived) => script_derived(type_ident, fields, config, script_read(read))
                    == Ok::<ScriptImplView, CodegenErrorView>(derived@),
                Err(error) => script_derived(type_ident, fields, config, script_read(read))
                    == Err::<ScriptImplView, CodegenErrorView>(error@),
            }
        }
}

/// Whether `result` is what deriving `Script` for a type comes to, where
/// `fault` is what is wrong with the result type that the attribute gives: a
/// type that has no sound configuration is refused with the error of its
/// configuration and no script is read; for any other type the script of its
/// configuration is read once.
pub open spec fn script_outcome<F: FnOnce(&WormScriptConfig) -> Result<String, String>>(
    read_script: F,
    tagged: TypeDefinition,
    working_directory: Seq<char>,
    attr: Option<WormAttr>,
    fault: Option<Seq<char>>,
    result: Result<ScriptImpl, CodegenError>,
) -> bool {
    match script_configured(tagged, working_directory, attr, fault) {
        Err(refused) => result matches Err(error) && error@ == refused,
        Ok(config) => {
            &&& tagged.shape matches TypeShape::Struct(fields)
            &&& derived_after_reading(read_script, tagged.name@, fields, config, result)
        },
    }
}

/// Derives `Script` for a type, for a working directory. `read_script`
/// reads the file of the script whose configuration it is given, and gives
/// the text of the file or what the file system reported; it is called once,
/// and only for a struct whose configuration is sound.
pub fn derive_script<F>(
    tagged: &TypeDefinition,
    working_directory: &str,
    attr: Option<WormAttr>,
    read_script: F,
) -> (result: Result<ScriptImpl, CodegenError>) where
    F: FnOnce(&WormScriptConfig) -> Result<String, String>,
    requires
        forall|config: &WormScriptConfig| call_requires(read_script, (config,)),
    ensures
        exists|fault: Option<Seq<char>>|
            {
                &&& fault_possible(attr_result(attr), fault)
                &&& #[trigger] script_outcome(
                    read_script,
                    *tagged,
                    working_directory@,
                    attr,
                    fault,
                    result,
                )
            },
{
    let configured = impl_derive_script(tagged, working_directory, attr);
    let ghost fault = choose|fault: Option<Seq<char>>|
        {
            &&& fault_possible(attr_result(attr), fault)
            &&& match configured {
                Ok(config) => #[trigger] script_configured(*tagged, working_directory@, attr, fault)
                    == Ok::<WormScriptConfigView, CodegenErrorView>(config@),
                Err(error) => script_configured(*tagged, working_directory@, attr, fault) == Err::<
                    WormScriptConfigView,
                    CodegenErrorView,
                >(error@),
            }
        };
    let result = match configured {
        Err(error) => Err(error),
        Ok(config) => match &tagged.shape {
            TypeShape::Struct(fields) => {
                let read = read_script(&config);
                let ghost handed = config;
                let result = impl_derive_script_struct(tagged.name.as_str(), fields, config, read);
                assert(call_ensures(read_script, (&handed,), read));
                assert(derived_after_reading(read_script, tagged.name@, *fields, handed@, result));
                result
            },
            _ => Err(
                CodegenError::NotAStruct {
                    type_ident: tagged.name.clone(),
                    derive: Derive::Script,
                },
            ),
        },
    };
    assert(script_outcome(read_script, *tagged, working_directory@, attr, fault, result));
    result
}

} // verus!
