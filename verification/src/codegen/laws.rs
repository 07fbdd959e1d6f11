//! What holds of every script and its compiled template.

use vstd::prelude::*;
use crate::codegen::error::CodegenErrorView;
use crate::codegen::model::lemma_field_position;
use crate::codegen::template::compiled;
use crate::codegen::template::CompiledTemplateView;
use crate::codegen::template::first_unresolved;
use crate::codegen::template::interleaved;
use crate::codegen::template::interleaved_upto;
use crate::codegen::template::is_parameter_start;
use crate::codegen::template::lemma_name_length_bound;
use crate::codegen::template::literal_chunks;
use crate::codegen::template::literal_end;
use crate::codegen::template::parameter_bindings;
use crate::codegen::template::parameter_names;
use crate::codegen::template::parameter_tokens;
use crate::codegen::template::ParameterToken;
use crate::codegen::template::resolves;
use crate::codegen::template::SIGIL;
use crate::codegen::template::token_at;
use crate::codegen::template::tokens_from;
use crate::codegen::template::unresolved_error;

verus! {

/// The tokens that start at or after `from` stand in the script from left to
/// right without overlap, each of them the token of a parameter start at or
/// after `from`.
pub proof fn lemma_tokens_from_in_order(script: Seq<char>, letters: Seq<bool>, from: int)
    requires
        0 <= from,
    ensures
        forall|k: int|
            0 <= k < tokens_from(script, letters, from).len() ==> {
                let token = #[trigger] tokens_from(script, letters, from)[k];
                &&& from <= token.start < token.end <= script.len()
                &&& is_parameter_start(script, token.start)
                &&& token == token_at(letters, token.start)
            },
        forall|j: int, k: int|
            0 <= j < k < tokens_from(script, letters, from).len() ==> (#[trigger] tokens_from(
                script,
                letters,
                from,
            )[j]).end <= (#[trigger] tokens_from(script, letters, from)[k]).start,
    decreases script.len() - from,
{
    if from >= script.len() || letters.len() != script.len() {
    } else if is_parameter_start(script, from) {
        let first = token_at(letters, from);
        let rest = tokens_from(script, letters, first.end);
        let all = tokens_from(script, letters, from);
        lemma_name_length_bound(letters, from + 1);
        lemma_tokens_from_in_order(script, letters, first.end);
        assert forall|k: int| 0 <= k < all.len() implies {
            let token = #[trigger] all[k];
            &&& from <= token.start < token.end <= script.len()
            &&& is_parameter_start(script, token.start)
            &&& token == token_at(letters, token.start)
        } by {
            assert(k > 0 ==> all[k] == rest[k - 1]);
        }
        assert forall|j: int, k: int| 0 <= j < k < all.len() implies (#[trigger] all[j]).end <= (
        #[trigger] all[k]).start by {
            assert(all[k] == rest[k - 1]);
            assert(j > 0 ==> all[j] == rest[j - 1]);
        }
    } else {
        lemma_tokens_from_in_order(script, letters, from + 1);
        assert(tokens_from(script, letters, from) == tokens_from(script, letters, from + 1));
    }
}

/// The parameter tokens of a script stand in it from left to right without
/// overlap, and each of them starts at a parameter start.
pub proof fn lemma_tokens_in_order(script: Seq<char>, letters: Seq<bool>)
    ensures
        forall|k: int|
            0 <= k < parameter_tokens(script, letters).len() ==> {
                let token = #[trigger] parameter_tokens(script, letters)[k];
                &&& 0 <= token.start < token.end <= script.len()
                &&& is_parameter_start(script, token.start)
                &&& token == token_at(letters, token.start)
            },
        forall|j: int, k: int|
            0 <= j < k < parameter_tokens(script, letters).len() ==> (#[trigger] parameter_tokens(
                script,
                letters,
            )[j]).end <= (#[trigger] parameter_tokens(script, letters)[k]).start,
{
    lemma_tokens_from_in_order(script, letters, 0);
}

/// No parameter start is passed over: each one at or after `from` opens one
/// of the tokens that start at or after `from`, or stands in the name of one.
pub proof fn lemma_parameter_start_is_covered_from(script: Seq<char>, letters: Seq<bool>, from: int, at: int)
    requires
        0 <= from <= at,
        letters.len() == script.len(),
        is_parameter_start(script, at),
    ensures
        exists|k: int|
            0 <= k < tokens_from(script, letters, from).len() && (#[trigger] tokens_from(
                script,
                letters,
                from,
            )[k]).start <= at < tokens_from(script, letters, from)[k].end,
    decreases script.len() - from,
{
    let all = tokens_from(script, letters, from);
    if is_parameter_start(script, from) {
        let first = token_at(letters, from);
        lemma_name_length_bound(letters, from + 1);
        if at < first.end {
            assert(all[0] == first);
        } else {
            lemma_parameter_start_is_covered_from(script, letters, first.end, at);
            let rest = tokens_from(script, letters, first.end);
            let k = choose|k: int| 0 <= k < rest.len() && (#[trigger] rest[k]).start <= at < rest[k].end;
            assert(all[k + 1] == rest[k]);
        }
    } else {
        lemma_parameter_start_is_covered_from(script, letters, from + 1, at);
        assert(all == tokens_from(script, letters, from + 1));
    }
}

/// No parameter start of a script is passed over: each one opens a
/// parameter token or stands in the name of one.
pub proof fn lemma_parameter_start_is_covered(script: Seq<char>, letters: Seq<bool>, at: int)
    requires
        letters.len() == script.len(),
        is_parameter_start(script, at),
    ensures
        exists|k: int|
            0 <= k < parameter_tokens(script, letters).len() && (#[trigger] parameter_tokens(
                script,
                letters,
            )[k]).start <= at < parameter_tokens(script, letters)[k].end,
{
    lemma_parameter_start_is_covered_from(script, letters, 0, at);
    let all = tokens_from(script, letters, 0);
    let k = choose|k: int| 0 <= k < all.len() && (#[trigger] all[k]).start <= at < all[k].end;
    assert(parameter_tokens(script, letters)[k] == all[k]);
}

/// A sigil that is followed by another sigil is literal text: no parameter
/// token starts at it.
pub proof fn lemma_doubled_sigil_starts_no_token(script: Seq<char>, letters: Seq<bool>, at: int)
    requires
        0 <= at,
        at + 1 < script.len(),
        script[at] == SIGIL,
        script[at + 1] == SIGIL,
    ensures
        forall|k: int|
            0 <= k < parameter_tokens(script, letters).len() ==> (#[trigger] parameter_tokens(
                script,
                letters,
            )[k]).start != at,
{
    lemma_tokens_in_order(script, letters);
}

/// A script without a sigil has no tokens from any position on.
pub proof fn lemma_no_sigil_no_tokens(script: Seq<char>, letters: Seq<bool>, from: int)
    requires
        forall|i: int| 0 <= i < script.len() ==> script[i] != SIGIL,
    ensures
        tokens_from(script, letters, from).len() == 0,
    decreases script.len() - from,
{
    if 0 <= from < script.len() {
        lemma_no_sigil_no_tokens(script, letters, from + 1);
    }
}

/// A script without a sigil compiles, against any fields, to itself: it is
/// the one literal chunk, no parameter goes with it, and its template is the
/// script as it stands.
pub proof fn lemma_script_without_sigil(
    script: Seq<char>,
    letters: Seq<bool>,
    type_ident: Seq<char>,
    names: Seq<Seq<char>>,
)
    requires
        forall|i: int| 0 <= i < script.len() ==> script[i] != SIGIL,
    ensures
        compiled(script, letters, type_ident, names) == Ok::<CompiledTemplateView, CodegenErrorView>(
            CompiledTemplateView {
                literals: seq![script],
                parameters: Seq::empty(),
                bindings: Seq::empty(),
            },
        ),
        (CompiledTemplateView {
                literals: seq![script],
                parameters: Seq::empty(),
                bindings: Seq::empty(),
            }).sql_template()
            == script,
{
    lemma_no_sigil_no_tokens(script, letters, 0);
    assert(literal_chunks(script, letters) =~= seq![script]) by {
        assert(script.subrange(0, script.len() as int) =~= script);
    }
    assert(parameter_names(script, letters) =~= Seq::<Seq<char>>::empty());
    assert(parameter_bindings(script, letters, names) =~= Seq::<int>::empty());
}

/// The texts of the parameter tokens of a script, sigils included.
pub open spec fn token_texts(script: Seq<char>, letters: Seq<bool>) -> Seq<Seq<char>> {
    let tokens = parameter_tokens(script, letters);
    Seq::new(tokens.len(), |k: int| tokens[k].text(script))
}

/// The first `k + 1` literal chunks of a script, with the tokens between
/// them, are the script up to the end of chunk `k`.
pub proof fn lemma_chunks_restore_prefix(script: Seq<char>, letters: Seq<bool>, k: int)
    requires
        0 <= k <= parameter_tokens(script, letters).len(),
    ensures
        interleaved_upto(literal_chunks(script, letters), token_texts(script, letters), k) == script.subrange(
            0,
            literal_end(script, parameter_tokens(script, letters), k),
        ),
    decreases k,
{
    lemma_tokens_in_order(script, letters);
    if k > 0 {
        lemma_chunks_restore_prefix(script, letters, k - 1);
    }
}

/// Nothing of a script is lost or moved: its literal chunks, with its
/// parameter tokens put back between them, are the script.
pub proof fn lemma_chunks_restore_script(script: Seq<char>, letters: Seq<bool>)
    ensures
        interleaved(literal_chunks(script, letters), token_texts(script, letters)) == script,
{
    lemma_chunks_restore_prefix(script, letters, parameter_tokens(script, letters).len() as int);
}

/// All the tokens before the first that names no field name a field.
pub proof fn lemma_first_unresolved(
    script: Seq<char>,
    names: Seq<Seq<char>>,
    tokens: Seq<ParameterToken>,
    from: int,
)
    requires
        0 <= from <= tokens.len(),
    ensures
        from <= first_unresolved(script, names, tokens, from) <= tokens.len(),
        forall|k: int|
            from <= k < first_unresolved(script, names, tokens, from) ==> resolves(
                script,
                names,
                #[trigger] tokens[k],
            ),
        first_unresolved(script, names, tokens, from) < tokens.len() ==> !resolves(
            script,
            names,
            tokens[first_unresolved(script, names, tokens, from)],
        ),
    decreases tokens.len() - from,
{
    if from < tokens.len() && resolves(script, names, tokens[from]) {
        lemma_first_unresolved(script, names, tokens, from + 1);
    }
}

/// A script compiles if and only if each of its tokens names a field. If one
/// does not, the error is that of the first such token, and it names the
/// token's name.
pub proof fn lemma_compiles_iff_all_resolve(
    script: Seq<char>,
    letters: Seq<bool>,
    type_ident: Seq<char>,
    names: Seq<Seq<char>>,
)
    ensures
        compiled(script, letters, type_ident, names) is Ok <==> forall|k: int|
            0 <= k < parameter_tokens(script, letters).len() ==> resolves(
                script,
                names,
                #[trigger] parameter_tokens(script, letters)[k],
            ),
        compiled(script, letters, type_ident, names) matches Err(error) ==> exists|k: int|
            {
                &&& 0 <= k < parameter_tokens(script, letters).len()
                &&& !resolves(script, names, #[trigger] parameter_tokens(script, letters)[k])
                &&& error == unresolved_error(script, type_ident, parameter_tokens(script, letters)[k])
                &&& forall|j: int|
                    0 <= j < k ==> resolves(script, names, #[trigger] parameter_tokens(script, letters)[j])
            },
{
    lemma_first_unresolved(script, names, parameter_tokens(script, letters), 0);
}

/// Each parameter of a compiled template is bound to a field of its name:
/// the binding is the position of a field, and that field has the name of
/// the parameter.
pub proof fn lemma_bindings_name_fields(
    script: Seq<char>,
    letters: Seq<bool>,
    type_ident: Seq<char>,
    names: Seq<Seq<char>>,
)
    ensures
        compiled(script, letters, type_ident, names) matches Ok(template) ==> {
            &&& template.literals.len() == template.parameters.len() + 1
            &&& template.bindings.len() == template.parameters.len()
            &&& forall|k: int|
                0 <= k < template.bindings.len() ==> {
                    &&& 0 <= #[trigger] template.bindings[k] < names.len()
                    &&& names[template.bindings[k]] == template.parameters[k]
                }
        },
{
    let tokens = parameter_tokens(script, letters);
    lemma_first_unresolved(script, names, tokens, 0);
    if compiled(script, letters, type_ident, names) is Ok {
        let template = compiled(script, letters, type_ident, names)->Ok_0;
        assert forall|k: int| 0 <= k < template.bindings.len() implies {
            &&& 0 <= #[trigger] template.bindings[k] < names.len()
            &&& names[template.bindings[k]] == template.parameters[k]
        } by {
            lemma_field_position(names, tokens[k].name(script));
        }
    }
}

} // verus!
