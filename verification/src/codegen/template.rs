//! The template compiler: finds the `$name` tokens of a script and splits
//! the script into the literal chunks around them.

use vstd::prelude::*;
use crate::codegen::error::CodegenError;
use crate::codegen::error::CodegenErrorView;
use crate::codegen::model::field_position;
use crate::codegen::model::find_field;
use crate::codegen::model::StructFields;
use crate::sql::rows::value_views;
use crate::sql::values::SqlValue;
use crate::sql::values::SqlValueView;
use crate::text::alphabetic;
use crate::text::classify;
use crate::text::collect_chars;
use crate::text::push_char;
use crate::text::string_of;
use crate::text::texts;

verus! {

/// The character that opens a parameter token.
pub const SIGIL: char = '$';

/// A parameter token of a script: the sigil at `start`, then the name, which
/// ends before `end`.
pub ghost struct ParameterToken {
    pub start: int,
    pub end: int,
}

impl ParameterToken {
    /// The name of the token: the token without its sigil.
    pub open spec fn name(self, script: Seq<char>) -> Seq<char> {
        script.subrange(self.start + 1, self.end)
    }

    /// The token as it stands in the script, sigil included.
    pub open spec fn text(self, script: Seq<char>) -> Seq<char> {
        script.subrange(self.start, self.end)
    }
}

/// Whether the character at `at` opens a parameter token: it is a sigil, and
/// the character after it, if there is one, is not a sigil.
pub open spec fn is_parameter_start(script: Seq<char>, at: int) -> bool {
    &&& 0 <= at < script.len()
    &&& script[at] == SIGIL
    &&& !(at + 1 < script.len() && script[at + 1] == SIGIL)
}

/// How many alphabetic characters stand in a row from `from` on, where
/// `letters` says of each character whether it is alphabetic.
pub open spec fn name_length(letters: Seq<bool>, from: int) -> nat
    decreases letters.len() - from,
{
    if 0 <= from < letters.len() && letters[from] {
        1 + name_length(letters, from + 1)
    } else {
        0
    }
}

/// A name ends within the script.
pub proof fn lemma_name_length_bound(letters: Seq<bool>, from: int)
    requires
        0 <= from <= letters.len(),
    ensures
        from + name_length(letters, from) <= letters.len(),
    decreases letters.len() - from,
{
    if from < letters.len() && letters[from] {
        lemma_name_length_bound(letters, from + 1);
    }
}

/// The token that the sigil at `start` opens.
pub open spec fn token_at(letters: Seq<bool>, start: int) -> ParameterToken {
    ParameterToken { start, end: start + 1 + name_length(letters, start + 1) }
}

/// The parameter tokens that start at or after `from`, from left to right. A
/// token's name is never searched for another token. `letters` says of each
/// character of the script whether it is alphabetic; flags that are not one
/// for each character give no tokens.
pub open spec fn tokens_from(script: Seq<char>, letters: Seq<bool>, from: int) -> Seq<
    ParameterToken,
>
    decreases script.len() - from,
{
    if from < 0 || from >= script.len() || letters.len() != script.len() {
        Seq::empty()
    } else if is_parameter_start(script, from) {
        proof {
            lemma_name_length_bound(letters, from + 1);
        }
        seq![token_at(letters, from)].add(tokens_from(script, letters, token_at(letters, from).end))
    } else {
        tokens_from(script, letters, from + 1)
    }
}

/// The parameter tokens of a script, from left to right.
pub open spec fn parameter_tokens(script: Seq<char>, letters: Seq<bool>) -> Seq<ParameterToken> {
    tokens_from(script, letters, 0)
}

/// Where the literal chunk before token `k` starts: at the start of the
/// script, or where the token before it ended.
pub open spec fn literal_start(tokens: Seq<ParameterToken>, k: int) -> int {
    if k == 0 {
        0
    } else {
        tokens[k - 1].end
    }
}

/// Where the literal chunk before token `k` ends: at that token, or, behind
/// the last token, at the end of the script.
pub open spec fn literal_end(script: Seq<char>, tokens: Seq<ParameterToken>, k: int) -> int {
    if k < tokens.len() {
        tokens[k].start
    } else {
        script.len() as int
    }
}

/// The literal chunks of a script: the text before each token and the text
/// behind the last one, so one more than there are tokens.
pub open spec fn literal_chunks(script: Seq<char>, letters: Seq<bool>) -> Seq<Seq<char>> {
    let tokens = parameter_tokens(script, letters);
    Seq::new(
        tokens.len() + 1,
        |k: int| script.subrange(literal_start(tokens, k), literal_end(script, tokens, k)),
    )
}

/// The names of the parameter tokens of a script, from left to right.
pub open spec fn parameter_names(script: Seq<char>, letters: Seq<bool>) -> Seq<Seq<char>> {
    let tokens = parameter_tokens(script, letters);
    Seq::new(tokens.len(), |k: int| tokens[k].name(script))
}

/// Whether a token names a field: its name is not empty and is the name of
/// a field.
pub open spec fn resolves(script: Seq<char>, names: Seq<Seq<char>>, token: ParameterToken) -> bool {
    token.name(script).len() > 0 && field_position(names, token.name(script)) is Some
}

/// The fields that the parameter tokens of a script name, from left to
/// right, each by its position among the named fields.
pub open spec fn parameter_bindings(
    script: Seq<char>,
    letters: Seq<bool>,
    names: Seq<Seq<char>>,
) -> Seq<int> {
    let tokens = parameter_tokens(script, letters);
    Seq::new(tokens.len(), |k: int| field_position(names, tokens[k].name(script)).unwrap())
}

/// The index of the first token at or after `from` that names no field; the
/// number of tokens if there is none.
pub open spec fn first_unresolved(
    script: Seq<char>,
    names: Seq<Seq<char>>,
    tokens: Seq<ParameterToken>,
    from: int,
) -> int
    decreases tokens.len() - from,
{
    if from < 0 || from >= tokens.len() {
        tokens.len() as int
    } else if !resolves(script, names, tokens[from]) {
        from
    } else {
        first_unresolved(script, names, tokens, from + 1)
    }
}

/// The error for a token that names no field.
pub open spec fn unresolved_error(
    script: Seq<char>,
    type_ident: Seq<char>,
    token: ParameterToken,
) -> CodegenErrorView {
    if token.name(script).len() == 0 {
        CodegenErrorView::EmptyParameterName {
            type_ident,
            template: script,
            position: token.start,
        }
    } else {
        CodegenErrorView::UnresolvedParameter {
            type_ident,
            template: script,
            parameter: token.name(script),
        }
    }
}

/// A compiled template: the literal chunks of a script and, between each two
/// of them, the field whose value goes there.
#[derive(Debug, PartialEq, Eq)]
pub struct CompiledTemplate {
    literals: Vec<String>,
    parameters: Vec<String>,
    bindings: Vec<usize>,
}

/// What a compiled template holds.
pub ghost struct CompiledTemplateView {
    /// The literal chunks, one more than there are parameters.
    pub literals: Seq<Seq<char>>,
    /// The names of the parameters, from left to right.
    pub parameters: Seq<Seq<char>>,
    /// For each parameter, the position of the field that it names.
    pub bindings: Seq<int>,
}

/// The positions that some indices stand for.
pub open spec fn positions(indices: Seq<usize>) -> Seq<int> {
    indices.map_values(|index: usize| index as int)
}

impl View for CompiledTemplate {
    type V = CompiledTemplateView;

    closed spec fn view(&self) -> CompiledTemplateView {
        CompiledTemplateView {
            literals: texts(self.literals@),
            parameters: texts(self.parameters@),
            bindings: positions(self.bindings@),
        }
    }
}

/// The text that stands in a template where a value is to go.
pub const PLACEHOLDER: &'static str = "{}";

/// The first `k + 1` literals with the first `k` inserts between them.
pub open spec fn interleaved_upto(
    literals: Seq<Seq<char>>,
    inserts: Seq<Seq<char>>,
    k: int,
) -> Seq<char>
    decreases k,
{
    if k <= 0 {
        literals[0]
    } else {
        interleaved_upto(literals, inserts, k - 1).add(inserts[k - 1]).add(literals[k])
    }
}

/// The literals with the inserts between them, in order: the first literal,
/// the first insert, the second literal, and so on to the last literal.
pub open spec fn interleaved(literals: Seq<Seq<char>>, inserts: Seq<Seq<char>>) -> Seq<char> {
    interleaved_upto(literals, inserts, inserts.len() as int)
}

/// The literal texts of some values, in their order.
pub open spec fn value_literals(values: Seq<SqlValueView>) -> Seq<Seq<char>> {
    values.map_values(|value: SqlValueView| value.literal())
}

impl CompiledTemplateView {
    /// The template as one text, with a placeholder for each parameter.
    pub open spec fn sql_template(self) -> Seq<char> {
        interleaved(self.literals, Seq::new(self.parameters.len(), |k: int| PLACEHOLDER@))
    }

    /// The SQL text for the given values of the parameters, one value for
    /// each parameter, in the order of the parameters.
    pub open spec fn sql(self, values: Seq<SqlValueView>) -> Seq<char> {
        interleaved(self.literals, value_literals(values))
    }
}

/// What compiling a script for a struct with the given field names comes to,
/// where `letters` says of each character of the script whether it is
/// alphabetic:
/// the chunks and names of the script if every token names a field, else the
/// error for the first token that names none.
pub open spec fn compiled(
    script: Seq<char>,
    letters: Seq<bool>,
    type_ident: Seq<char>,
    names: Seq<Seq<char>>,
) -> Result<CompiledTemplateView, CodegenErrorView> {
    let tokens = parameter_tokens(script, letters);
    let failing = first_unresolved(script, names, tokens, 0);
    if failing == tokens.len() {
        Ok(
            CompiledTemplateView {
                literals: literal_chunks(script, letters),
                parameters: parameter_names(script, letters),
                bindings: parameter_bindings(script, letters, names),
            },
        )
    } else {
        Err(unresolved_error(script, type_ident, tokens[failing]))
    }
}

impl CompiledTemplate {
    #[verifier::type_invariant]
    spec fn well_formed(self) -> bool {
        &&& self.literals.len() == self.parameters.len() + 1
        &&& self.bindings.len() == self.parameters.len()
    }

    /// The template of the given parts; nothing unless there is one literal
    /// chunk more than there are parameters and one binding for each
    /// parameter.
    pub fn from_parts(literals: Vec<String>, parameters: Vec<String>, bindings: Vec<usize>) -> (template:
        Option<CompiledTemplate>)
        ensures
            template is Some <==> literals@.len() == parameters@.len() + 1 && bindings@.len()
                == parameters@.len(),
            template matches Some(template) ==> template@ == (CompiledTemplateView {
                literals: texts(literals@),
                parameters: texts(parameters@),
                bindings: positions(bindings@),
            }),
    {
        if literals.len() > 0 && literals.len() - 1 == parameters.len() && bindings.len()
            == parameters.len() {
            Some(CompiledTemplate { literals, parameters, bindings })
        } else {
            None
        }
    }

    /// The literal chunks, one more than there are parameters.
    pub fn literals(&self) -> (literals: &Vec<String>)
        ensures
            texts(literals@) == self@.literals,
            literals@.len() == self@.parameters.len() + 1,
    {
        proof {
            use_type_invariant(self);
        }
        &self.literals
    }

    /// The names of the fields whose values go between the literal chunks,
    /// one for each placeholder, from left to right.
    pub fn parameters(&self) -> (parameters: &Vec<String>)
        ensures
            texts(parameters@) == self@.parameters,
            parameters@.len() + 1 == self@.literals.len(),
    {
        proof {
            use_type_invariant(self);
        }
        &self.parameters
    }

    /// For each parameter, the position of the field that it names among
    /// the named fields of the struct.
    pub fn bindings(&self) -> (bindings: &Vec<usize>)
        ensures
            positions(bindings@) == self@.bindings,
            bindings@.len() == self@.parameters.len(),
    {
        proof {
            use_type_invariant(self);
        }
        &self.bindings
    }

    /// The literal chunks with the inserts between them; nothing unless
    /// there is one insert for each parameter.
    pub fn substitute(&self, inserts: &Vec<String>) -> (text: Option<String>)
        ensures
            text is Some <==> inserts@.len() == self@.parameters.len(),
            text matches Some(text) ==> text@ == interleaved(self@.literals, texts(inserts@)),
    {
        proof {
            use_type_invariant(self);
        }
        if inserts.len() != self.parameters.len() {
            return None;
        }
        let ghost literals = texts(self.literals@);
        let ghost between = texts(inserts@);
        let mut text = self.literals[0].clone();
        let mut k: usize = 0;
        while k < inserts.len()
            invariant
                k <= inserts.len(),
                self.literals.len() == inserts.len() + 1,
                literals == texts(self.literals@),
                between == texts(inserts@),
                text@ == interleaved_upto(literals, between, k as int),
            decreases inserts.len() - k,
        {
            text.append(inserts[k].as_str());
            text.append(self.literals[k + 1].as_str());
            k = k + 1;
        }
        Some(text)
    }

    /// The template as one text, with a placeholder for each parameter.
    pub fn sql_template(&self) -> (text: String)
        ensures
            text@ == self@.sql_template(),
    {
        proof {
            use_type_invariant(self);
        }
        let mut placeholders: Vec<String> = Vec::new();
        while placeholders.len() < self.parameters.len()
            invariant
                placeholders.len() <= self.parameters.len(),
                texts(placeholders@) == Seq::new(placeholders@.len(), |k: int| PLACEHOLDER@),
            decreases self.parameters.len() - placeholders.len(),
        {
            let ghost before = texts(placeholders@);
            placeholders.push(PLACEHOLDER.to_owned());
            assert(texts(placeholders@) =~= before.push(PLACEHOLDER@));
        }
        match self.substitute(&placeholders) {
            Some(text) => text,
            None => String::new(),
        }
    }

    /// The SQL text for the given values of the parameters; nothing unless
    /// there is one value for each parameter.
    pub fn compile(&self, values: &Vec<SqlValue>) -> (text: Option<String>)
        ensures
            text is Some <==> values@.len() == self@.parameters.len(),
            text matches Some(text) ==> text@ == self@.sql(value_views(values@)),
    {
        let mut literals: Vec<String> = Vec::new();
        let mut k: usize = 0;
        while k < values.len()
            invariant
                k <= values.len(),
                texts(literals@) == value_literals(value_views(values@)).take(k as int),
            decreases values.len() - k,
        {
            let ghost before = texts(literals@);
            let literal = values[k].to_string();
            literals.push(literal);
            assert(texts(literals@) =~= before.push(literal@));
            assert(value_literals(value_views(values@)).take(k + 1) =~= before.push(literal@));
            k = k + 1;
        }
        assert(texts(literals@) =~= value_literals(value_views(values@)));
        self.substitute(&literals)
    }
}

/// Compiles a script against the fields of a struct.
///
/// The script is scanned from left to right. A sigil that is followed by
/// another sigil is literal text. Every other sigil opens a parameter token,
/// whose name runs up to the first character that is not alphabetic. The text
/// between the tokens is kept as it is.
pub fn build_sql(script: &str, type_ident: &str, fields: &StructFields) -> (result: Result<
    CompiledTemplate,
    CodegenError,
>)
    ensures
        match result {
            Ok(template) => compiled(script@, alphabetic(script@), type_ident@, fields.names())
                == Ok::<CompiledTemplateView, CodegenErrorView>(template@),
            Err(error) => compiled(script@, alphabetic(script@), type_ident@, fields.names())
                == Err::<CompiledTemplateView, CodegenErrorView>(error@),
        },
{
    let chars = collect_chars(script);
    let letters = classify(&chars);
    build_sql_classified(&chars, &letters, type_ident, fields)
}

/// Compiles a script, given by its characters, against the fields of a
/// struct. `letters` says of each character whether it is alphabetic: a name
/// runs as far as the flags say so.
pub fn build_sql_classified(
    chars: &Vec<char>,
    letters: &Vec<bool>,
    type_ident: &str,
    fields: &StructFields,
) -> (result: Result<CompiledTemplate, CodegenError>)
    requires
        letters@.len() == chars@.len(),
    ensures
        match result {
            Ok(template) => compiled(chars@, letters@, type_ident@, fields.names()) == Ok::<
                CompiledTemplateView,
                CodegenErrorView,
            >(template@),
            Err(error) => compiled(chars@, letters@, type_ident@, fields.names()) == Err::<
                CompiledTemplateView,
                CodegenErrorView,
            >(error@),
        },
{
    let n = chars.len();
    let ghost text = chars@;
    let ghost flags = letters@;
    let ghost names = fields.names();
    let ghost tokens = parameter_tokens(text, flags);
    let ghost mut done: Seq<ParameterToken> = Seq::empty();
    let ghost mut chunk_start: int = 0;
    let mut literals: Vec<String> = Vec::new();
    let mut parameters: Vec<String> = Vec::new();
    let mut bindings: Vec<usize> = Vec::new();
    let mut current = String::new();
    let mut at: usize = 0;
    while at < n
        invariant
            chars@ == text,
            letters@ == flags,
            flags.len() == text.len(),
            n == text.len(),
            names == fields.names(),
            tokens == parameter_tokens(text, flags),
            at <= n,
            tokens == done.add(tokens_from(text, flags, at as int)),
            first_unresolved(text, names, tokens, 0) == first_unresolved(
                text,
                names,
                tokens,
                done.len() as int,
            ),
            literals.len() == done.len(),
            parameters.len() == done.len(),
            bindings.len() == done.len(),
            forall|k: int|
                0 <= k < done.len() ==> #[trigger] parameters[k]@ == done[k].name(text),
            forall|k: int|
                0 <= k < done.len() ==> field_position(names, done[k].name(text)) == Some(
                    #[trigger] bindings[k] as int,
                ),
            forall|k: int|
                0 <= k < done.len() ==> #[trigger] literals[k]@ == text.subrange(
                    literal_start(done, k),
                    done[k].start,
                ),
            chunk_start == literal_start(done, done.len() as int),
            0 <= chunk_start <= at,
            current@ == text.subrange(chunk_start, at as int),
        decreases n - at,
    {
        let c = chars[at];
        let followed_by_sigil = at + 1 < n && chars[at + 1] == SIGIL;
        if c == SIGIL && !followed_by_sigil {
            let ghost token = token_at(flags, at as int);
            proof {
                lemma_name_length_bound(flags, at + 1);
            }
            let mut name = String::new();
            let mut end: usize = at + 1;
            while end < n && letters[end]
                invariant
                    letters@ == flags,
                    flags.len() == text.len(),
                    chars@ == text,
                    n == text.len(),
                    at + 1 <= end <= n,
                    name_length(flags, at + 1) == (end - (at + 1)) + name_length(flags, end as int),
                    name@ == text.subrange(at + 1, end as int),
                decreases n - end,
            {
                push_char(&mut name, chars[end]);
                end = end + 1;
            }
            if end == at + 1 {
                return Err(
                    CodegenError::EmptyParameterName {
                        type_ident: type_ident.to_owned(),
                        template: string_of(chars),
                        position: at,
                    },
                );
            }
            let binding = match find_field(fields, &name) {
                None => {
                    return Err(
                        CodegenError::UnresolvedParameter {
                            type_ident: type_ident.to_owned(),
                            template: string_of(chars),
                            parameter: name,
                        },
                    );
                },
                Some(index) => index,
            };
            proof {
                done = done.push(token);
                chunk_start = end as int;
            }
            literals.push(current);
            parameters.push(name);
            bindings.push(binding);
            current = String::new();
            at = end;
        } else {
            push_char(&mut current, c);
            at = at + 1;
        }
    }
    literals.push(current);
    let template = CompiledTemplate { literals, parameters, bindings };
    proof {
        assert(template@.literals =~= literal_chunks(text, flags));
        assert(template@.parameters =~= parameter_names(text, flags));
        assert(template@.bindings =~= parameter_bindings(text, flags, names));
    }
    Ok(template)
}

} // verus!
