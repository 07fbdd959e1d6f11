//! Deriving `SqlResult`: how a result struct is read off a row, field by
//! field, in declaration order.

use vstd::prelude::*;
use vstd::std_specs::iter::IteratorSpec;
use crate::codegen::error::CodegenError;
use crate::codegen::error::CodegenErrorView;
use crate::codegen::error::Derive;
use crate::codegen::model::FieldDefinitionView;
use crate::codegen::model::StructFields;
use crate::codegen::model::TypeDefinition;
use crate::codegen::model::TypeShape;
use crate::errors::RowConversionError;
use crate::errors::RowConversionErrorView;
use crate::sql::native::native_decoded;
use crate::sql::native::native_views;
use crate::sql::native::NativeType;
use crate::sql::native::NativeValue;
use crate::sql::native::NativeValueView;
use crate::sql::rows::value_views;
use crate::sql::rows::SqlRow;
use crate::sql::rows::SqlRowIter;
use crate::sql::values::SqlValueView;

verus! {

/// How the value of one field is read off a row.
#[derive(Debug, PartialEq, Eq)]
pub struct FieldExtractor {
    pub field_name: String,
    pub native_type: NativeType,
}

/// How the value of one field is read off a row, with the field's name as a
/// sequence.
pub ghost struct FieldExtractorView {
    pub field_name: Seq<char>,
    pub native_type: NativeType,
}

impl View for FieldExtractor {
    type V = FieldExtractorView;

    open spec fn view(&self) -> FieldExtractorView {
        FieldExtractorView { field_name: self.field_name@, native_type: self.native_type }
    }
}

/// The views of some extractors, in their order.
pub open spec fn extractor_views(extractors: Seq<FieldExtractor>) -> Seq<FieldExtractorView> {
    extractors.map_values(|extractor: FieldExtractor| extractor@)
}

/// The extractors of some fields, in the order of the fields: one for each
/// field, of the field's name and native type. If a field is of no native
/// type, there are none, and the first such field is named.
pub open spec fn extractors_of(fields: Seq<FieldDefinitionView>) -> Result<
    Seq<FieldExtractorView>,
    Seq<char>,
>
    decreases fields.len(),
{
    if fields.len() == 0 {
        Ok(Seq::empty())
    } else {
        match extractors_of(fields.drop_last()) {
            Err(field_name) => Err(field_name),
            Ok(extractors) => match fields.last().native_type {
                Some(native_type) => Ok(
                    extractors.push(
                        FieldExtractorView { field_name: fields.last().name, native_type },
                    ),
                ),
                None => Err(fields.last().name),
            },
        }
    }
}

/// What building the extractors of the fields of a struct comes to: the
/// extractors of its named fields, or the error that it has fields without
/// names, or the error of the first field that is of no native type.
pub open spec fn extractors_built(type_ident: Seq<char>, fields: StructFields) -> Result<
    Seq<FieldExtractorView>,
    CodegenErrorView,
> {
    if has_unnamed_fields(fields) {
        Err(CodegenErrorView::UnnamedFields { type_ident })
    } else {
        match extractors_of(fields.named()) {
            Ok(extractors) => Ok(extractors),
            Err(field_name) => Err(CodegenErrorView::UnsupportedFieldType { type_ident, field_name }),
        }
    }
}

/// What reading the field at position `at` of a row comes to:
/// `MissingFieldValue` if the row ends before it, else the value at that
/// position converted to the field's type, or the reason why it does not
/// convert. Either error names the field.
pub open spec fn field_extracted(
    field: FieldExtractorView,
    row: Seq<SqlValueView>,
    at: int,
) -> Result<NativeValueView, RowConversionErrorView> {
    if at >= row.len() {
        Err(RowConversionErrorView::MissingFieldValue { field_name: field.field_name })
    } else {
        match native_decoded(field.native_type, row[at]) {
            Ok(native) => Ok(native),
            Err(error) => Err(
                RowConversionErrorView::FieldConversion { field_name: field.field_name, error },
            ),
        }
    }
}

/// What reading the given fields off a row comes to: the values of all the
/// fields, in declaration order, or the error of the first field that cannot
/// be read. The field at position `k` is read from the value at position `k`.
pub open spec fn row_extracted(fields: Seq<FieldExtractorView>, row: Seq<SqlValueView>) -> Result<
    Seq<NativeValueView>,
    RowConversionErrorView,
>
    decreases fields.len(),
{
    if fields.len() == 0 {
        Ok(Seq::empty())
    } else {
        match row_extracted(fields.drop_last(), row) {
            Err(error) => Err(error),
            Ok(values) => match field_extracted(fields.last(), row, fields.len() - 1) {
                Ok(native) => Ok(values.push(native)),
                Err(error) => Err(error),
            },
        }
    }
}

impl FieldExtractor {
    /// Takes the next value off a row and converts it to the field's type.
    pub fn extract(&self, values: &mut SqlRowIter) -> (result: Result<
        NativeValue,
        RowConversionError,
    >)
        ensures
            match result {
                Ok(native) => field_extracted(
                    self@,
                    value_views(old(values).values().remaining()),
                    0,
                ) == Ok::<NativeValueView, RowConversionErrorView>(native@),
                Err(error) => field_extracted(
                    self@,
                    value_views(old(values).values().remaining()),
                    0,
                ) == Err::<NativeValueView, RowConversionErrorView>(error@),
            },
            final(values).values().remaining() == if old(values).values().remaining().len() == 0 {
                old(values).values().remaining()
            } else {
                old(values).values().remaining().drop_first()
            },
    {
        match values.next() {
            None => Err(
                RowConversionError::MissingFieldValue { field_name: self.field_name.clone() },
            ),
            Some(value) => match self.native_type.from_sql(value) {
                Ok(native) => Ok(native),
                Err(error) => Err(
                    RowConversionError::FieldConversion {
                        field_name: self.field_name.clone(),
                        error,
                    },
                ),
            },
        }
    }
}

/// The extractors of the fields of the struct of the given name, in
/// declaration order. A struct with fields without names has none, and
/// neither has one with a field that is of no native type.
pub fn build_row_field_extractors(type_ident: &str, fields: &StructFields) -> (extractors: Result<
    Vec<FieldExtractor>,
    CodegenError,
>)
    ensures
        match extractors {
            Ok(extractors) => extractors_built(type_ident@, *fields) == Ok::<
                Seq<FieldExtractorView>,
                CodegenErrorView,
            >(extractor_views(extractors@)),
            Err(error) => extractors_built(type_ident@, *fields) == Err::<
                Seq<FieldExtractorView>,
                CodegenErrorView,
            >(error@),
        },
{
    match fields {
        StructFields::Named(named) => {
            let mut extractors: Vec<FieldExtractor> = Vec::new();
            let mut k: usize = 0;
            assert(fields.named().take(0) =~= Seq::<FieldDefinitionView>::empty());
            assert(extractor_views(extractors@) =~= Seq::<FieldExtractorView>::empty());
            while k < named.len()
                invariant
                    k <= named.len(),
                    *fields == StructFields::Named(*named),
                    !has_unnamed_fields(*fields),
                    extractors_of(fields.named().take(k as int)) == Ok::<
                        Seq<FieldExtractorView>,
                        Seq<char>,
                    >(extractor_views(extractors@)),
                decreases named.len() - k,
            {
                let ghost before = extractor_views(extractors@);
                proof {
                    assert(fields.named().take(k + 1).drop_last() =~= fields.named().take(k as int));
                    assert(fields.named().take(k + 1).last() == named@[k as int]@);
                    lemma_untyped_field_decides(fields.named(), k + 1);
                }
                match named[k].native_type {
                    Some(native_type) => {
                        let extractor = FieldExtractor {
                            field_name: named[k].name.clone(),
                            native_type,
                        };
                        extractors.push(extractor);
                        assert(extractor_views(extractors@) =~= before.push(extractor@));
                    },
                    None => {
                        return Err(
                            CodegenError::UnsupportedFieldType {
                                type_ident: type_ident.to_owned(),
                                field_name: named[k].name.clone(),
                            },
                        );
                    },
                }
                k = k + 1;
            }
            assert(fields.named().take(k as int) =~= fields.named());
            Ok(extractors)
        },
        StructFields::Unnamed(types) => {
            if types.len() == 0 {
                let extractors: Vec<FieldExtractor> = Vec::new();
                assert(extractor_views(extractors@) =~= Seq::<FieldExtractorView>::empty());
                Ok(extractors)
            } else {
                Err(CodegenError::UnnamedFields { type_ident: type_ident.to_owned() })
            }
        },
        StructFields::Unit => {
            let extractors: Vec<FieldExtractor> = Vec::new();
            assert(extractor_views(extractors@) =~= Seq::<FieldExtractorView>::empty());
            Ok(extractors)
        },
    }
}

/// The first field of no native type decides: if the first `k` fields have
/// no extractors, neither have all of them, and the field named is the same.
pub proof fn lemma_untyped_field_decides(fields: Seq<FieldDefinitionView>, k: int)
    requires
        0 <= k <= fields.len(),
    ensures
        extractors_of(fields.take(k)) matches Err(field_name) ==> extractors_of(fields) == Err::<
            Seq<FieldExtractorView>,
            Seq<char>,
        >(field_name),
    decreases fields.len() - k,
{
    if k < fields.len() {
        assert(fields.take(k + 1).drop_last() =~= fields.take(k));
        lemma_untyped_field_decides(fields, k + 1);
    } else {
        assert(fields.take(k) =~= fields);
    }
}

/// Whether a struct has fields without names.
pub open spec fn has_unnamed_fields(fields: StructFields) -> bool {
    fields matches StructFields::Unnamed(types) && types@.len() > 0
}

/// What deriving `SqlResult` for a struct gives: the way to read the struct
/// off a row.
#[derive(Debug, PartialEq, Eq)]
pub struct ResultImpl {
    type_ident: String,
    extractors: Vec<FieldExtractor>,
}

/// What a derived implementation of `SqlResult` holds.
pub ghost struct ResultImplView {
    /// The name of the result struct.
    pub type_ident: Seq<char>,
    /// The extractors of the fields of the result struct, in declaration
    /// order.
    pub fields: Seq<FieldExtractorView>,
}

impl View for ResultImpl {
    type V = ResultImplView;

    closed spec fn view(&self) -> ResultImplView {
        ResultImplView {
            type_ident: self.type_ident@,
            fields: extractor_views(self.extractors@),
        }
    }
}

/// What deriving `SqlResult` for a type comes to.
pub open spec fn result_derived(tagged: TypeDefinition) -> Result<ResultImplView, CodegenErrorView> {
    match tagged.shape {
        TypeShape::Struct(fields) => match extractors_built(tagged.name@, fields) {
            Ok(extractors) => Ok(ResultImplView { type_ident: tagged.name@, fields: extractors }),
            Err(error) => Err(error),
        },
        _ => Err(
            CodegenErrorView::NotAStruct { type_ident: tagged.name@, derive: Derive::SqlResult },
        ),
    }
}

/// Derives `SqlResult` for a struct with the given name and fields.
pub fn impl_derive_script_result_struct(type_ident: &str, fields: &StructFields) -> (result: Result<
    ResultImpl,
    CodegenError,
>)
    ensures
        match result {
            Ok(derived) => extractors_built(type_ident@, *fields) == Ok::<
                Seq<FieldExtractorView>,
                CodegenErrorView,
            >(derived@.fields) && derived@.type_ident == type_ident@,
            Err(error) => extractors_built(type_ident@, *fields) == Err::<
                Seq<FieldExtractorView>,
                CodegenErrorView,
            >(error@),
        },
{
    match build_row_field_extractors(type_ident, fields) {
        Ok(extractors) => Ok(ResultImpl { type_ident: type_ident.to_owned(), extractors }),
        Err(error) => Err(error),
    }
}

/// Derives `SqlResult` for a type. Only a struct can be a result.
pub fn derive_script_result(tagged: &TypeDefinition) -> (result: Result<ResultImpl, CodegenError>)
    ensures
        match result {
            Ok(derived) => result_derived(*tagged) == Ok::<ResultImplView, CodegenErrorView>(
                derived@,
            ),
            Err(error) => result_derived(*tagged) == Err::<ResultImplView, CodegenErrorView>(
                error@,
            ),
        },
{
    match &tagged.shape {
        TypeShape::Struct(fields) => impl_derive_script_result_struct(
            tagged.name.as_str(),
            fields,
        ),
        _ => Err(
            CodegenError::NotAStruct {
                type_ident: tagged.name.clone(),
                derive: Derive::SqlResult,
            },
        ),
    }
}

impl ResultImpl {
    /// The name of the result struct.
    pub fn type_ident(&self) -> (type_ident: &String)
        ensures
            type_ident@ == self@.type_ident,
    {
        &self.type_ident
    }

    /// The extractors of the fields, in declaration order.
    pub fn extractors(&self) -> (extractors: &Vec<FieldExtractor>)
        ensures
            extractor_views(extractors@) == self@.fields,
    {
        &self.extractors
    }

    /// Reads the values of the fields of the result struct off a row.
    ///
    /// The fields are read in declaration order, each from the position of
    /// the row that it has among the fields. The first field that cannot be
    /// read ends the reading with its error. Values behind the last field
    /// are left unread.
    pub fn from_row(&self, row: SqlRow) -> (result: Result<Vec<NativeValue>, RowConversionError>)
        ensures
            match result {
                Ok(values) => row_extracted(self@.fields, row@) == Ok::<
                    Seq<NativeValueView>,
                    RowConversionErrorView,
                >(native_views(values@)),
                Err(error) => row_extracted(self@.fields, row@) == Err::<
                    Seq<NativeValueView>,
                    RowConversionErrorView,
                >(error@),
            },
    {
        let ghost fields = self@.fields;
        let ghost whole = row@;
        let mut values = row.into_iter();
        let mut natives: Vec<NativeValue> = Vec::new();
        let mut k: usize = 0;
        assert(native_views(natives@) =~= Seq::<NativeValueView>::empty());
        while k < self.extractors.len()
            invariant
                k <= self.extractors.len(),
                fields == self@.fields,
                whole == row@,
                fields == extractor_views(self.extractors@),
                value_views(values.values().remaining()) == whole.skip(
                    if k <= whole.len() {
                        k as int
                    } else {
                        whole.len() as int
                    },
                ),
                row_extracted(fields.take(k as int), whole) == Ok::<
                    Seq<NativeValueView>,
                    RowConversionErrorView,
                >(native_views(natives@)),
            decreases self.extractors.len() - k,
        {
            let ghost before = native_views(natives@);
            let ghost left = values.values().remaining();
            proof {
                assert(fields.take(k + 1).drop_last() =~= fields.take(k as int));
                lemma_prefix_decides(fields, whole, k + 1);
            }
            match self.extractors[k].extract(&mut values) {
                Ok(native) => {
                    natives.push(native);
                    assert(native_views(natives@) =~= before.push(native@));
                },
                Err(error) => {
                    return Err(error);
                },
            }
            assert(value_views(left.drop_first()) =~= value_views(left).drop_first());
            assert(value_views(values.values().remaining()) =~= whole.skip(k + 1));
            k = k + 1;
        }
        assert(fields.take(k as int) =~= fields);
        Ok(natives)
    }
}

/// The first field that cannot be read decides: if the first `k` fields
/// cannot be read off a row, neither can all of them, and the error is the
/// same.
pub proof fn lemma_prefix_decides(fields: Seq<FieldExtractorView>, row: Seq<SqlValueView>, k: int)
    requires
        0 <= k <= fields.len(),
    ensures
        row_extracted(fields.take(k), row) matches Err(error) ==> row_extracted(fields, row)
            == Err::<Seq<NativeValueView>, RowConversionErrorView>(error),
    decreases fields.len() - k,
{
    if k < fields.len() {
        assert(fields.take(k + 1).drop_last() =~= fields.take(k));
        lemma_prefix_decides(fields, row, k + 1);
    } else {
        assert(fields.take(k) =~= fields);
    }
}

/// Values behind the last field are ignored: two rows that agree on the
/// positions of the fields give the same.
pub proof fn lemma_values_behind_the_fields_are_ignored(
    fields: Seq<FieldExtractorView>,
    row: Seq<SqlValueView>,
    longer: Seq<SqlValueView>,
)
    requires
        fields.len() <= row.len() <= longer.len(),
        forall|i: int| 0 <= i < fields.len() ==> row[i] == longer[i],
    ensures
        row_extracted(fields, longer) == row_extracted(fields, row),
    decreases fields.len(),
{
    if fields.len() > 0 {
        lemma_values_behind_the_fields_are_ignored(fields.drop_last(), row, longer);
    }
}

/// A row that is shorter than the fields misses the first field that it has
/// no value for: if the fields before it can be read, the error is
/// `MissingFieldValue` with the name of that field.
pub proof fn lemma_short_row_misses_field(fields: Seq<FieldExtractorView>, row: Seq<SqlValueView>)
    requires
        row.len() < fields.len(),
        row_extracted(fields.take(row.len() as int), row) is Ok,
    ensures
        row_extracted(fields, row) == Err::<Seq<NativeValueView>, RowConversionErrorView>(
            RowConversionErrorView::MissingFieldValue {
                field_name: fields[row.len() as int].field_name,
            },
        ),
{
    let missing = row.len() as int;
    let upto = fields.take(missing + 1);
    assert(upto.drop_last() =~= fields.take(missing));
    lemma_prefix_decides(fields, row, missing + 1);
}

} // verus!
