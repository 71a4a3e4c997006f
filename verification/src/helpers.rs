//! Helpers around query evaluation: the text a line stands for, what a reply
//! leaves behind for `ans`, the bundled data files, and the version.

use crate::text::{is_trim_of, lemma_trim_of_trimmed, lemma_trim_unique, trim};
use vstd::prelude::*;

verus! {

/// The bundled copy of `definitions.units`, the base units, units, prefixes,
/// quantities and substances. This build bundles no data files.
pub fn default_file() -> (file: Option<&'static str>)
    ensures
        file is None,
{
    None
}

/// The bundled copy of `datepatterns.txt`, the patterns that datetimes are
/// parsed with. This build bundles no data files.
pub fn dates_file() -> (file: Option<&'static str>)
    ensures
        file is None,
{
    None
}

/// The bundled copy of `currency.units`, the currency information that
/// changes rarely. This build bundles no data files.
pub fn currency_file() -> (file: Option<&'static str>)
    ensures
        file is None,
{
    None
}

/// The texts a context with core definitions only is loaded from.
pub struct CoreSources<'a> {
    /// The text of `definitions.units`.
    pub definitions: &'a str,
    /// The text of `datepatterns.txt`.
    pub dates: &'a str,
}

/// The message when a context with core definitions only cannot be made.
pub open spec fn no_bundle_message() -> Seq<char> {
    "bundle-files feature not enabled, cannot create simple context."@
}

/// The texts that a context with core definitions only (no currency data)
/// is loaded from, given the bundled copies of `definitions.units` and of
/// `datepatterns.txt` (`default_file()` and `dates_file()`): both when both
/// are bundled, and otherwise a failure.
pub fn simple_context<'a>(definitions: Option<&'a str>, dates: Option<&'a str>) -> (r: Result<
    CoreSources<'a>,
    String,
>)
    ensures
        match (definitions, dates) {
            (Some(d), Some(p)) => r matches Ok(sources) && sources.definitions@ == d@
                && sources.dates@ == p@,
            _ => r matches Err(message) && message@ == no_bundle_message(),
        },
{
    let message = "bundle-files feature not enabled, cannot create simple context.";
    let definitions = match definitions {
        Some(text) => text,
        None => return Err(message.to_owned()),
    };
    let dates = match dates {
        Some(text) => text,
        None => return Err(message.to_owned()),
    };
    Ok(CoreSources { definitions, dates })
}

/// The version of this library, in `x.y.z` form.
pub fn version() -> (v: &'static str)
    ensures
        v@ == "0.8.0"@,
{
    "0.8.0"
}

/// What the evaluator keeps of past replies: whether it keeps the number
/// that a reply produced, and the kept number, which `ans` refers to.
pub struct Recall<N> {
    pub save_previous_result: bool,
    pub previous_result: Option<N>,
}

/// The query that `line` stands for: the line without its surrounding
/// whitespace.
pub fn query_text(line: &str) -> (query: String)
    ensures
        is_trim_of(query@, line@),
{
    trim(line)
}

/// A line and the line without its surrounding whitespace stand for the
/// same query.
pub proof fn lemma_trimmed_line_same_query(
    line: Seq<char>,
    trimmed: Seq<char>,
    query: Seq<char>,
    trimmed_query: Seq<char>,
)
    requires
        is_trim_of(trimmed, line),
        is_trim_of(query, line),
        is_trim_of(trimmed_query, trimmed),
    ensures
        query == trimmed_query,
{
    lemma_trim_unique(line, query, trimmed);
    lemma_trim_of_trimmed(line, trimmed);
    lemma_trim_unique(trimmed, trimmed_query, trimmed);
}

/// The number kept for `ans` after a query that evaluated to `evaluated`.
pub open spec fn recalled<N, R, E>(recall: Recall<N>, evaluated: Result<(R, Option<N>), E>) -> Option<N> {
    match evaluated {
        Ok((_, Some(raw))) => if recall.save_previous_result {
            Some(raw)
        } else {
            recall.previous_result
        },
        _ => recall.previous_result,
    }
}

/// Finishes the evaluation of a query: `evaluated` is what evaluating
/// `query_text` of the line gave, a reply together with the exact number it
/// holds when it is a number, or an error. The reply or the error is
/// returned; when the evaluator keeps results and the reply holds a
/// number, that number becomes the one `ans` refers to.
pub fn eval<N, R, E>(recall: &mut Recall<N>, evaluated: Result<(R, Option<N>), E>) -> (r: Result<R, E>)
    ensures
        final(recall).save_previous_result == old(recall).save_previous_result,
        final(recall).previous_result == recalled(*old(recall), evaluated),
        r == match evaluated {
            Ok((reply, _)) => Ok::<R, E>(reply),
            Err(error) => Err::<R, E>(error),
        },
{
    match evaluated {
        Ok((reply, raw)) => {
            if recall.save_previous_result {
                match raw {
                    Some(number) => {
                        recall.previous_result = Some(number);
                    },
                    None => {},
                }
            }
            Ok(reply)
        },
        Err(error) => Err(error),
    }
}

} // verus!

verus! {

/// When results are kept, a reply that holds a number makes that number
/// the one `ans` refers to, whatever was kept before; a reply without a
/// number, an error, or not keeping results leaves the kept number as it
/// was.
pub proof fn lemma_ans_is_last_number<N, R, E>(
    recall: Recall<N>,
    evaluated: Result<(R, Option<N>), E>,
)
    ensures
        evaluated matches Ok((_, Some(n))) ==> (recall.save_previous_result ==> recalled(
            recall,
            evaluated,
        ) == Some(n)),
        evaluated matches Ok((_, None)) ==> recalled(recall, evaluated) == recall.previous_result,
        evaluated is Err ==> recalled(recall, evaluated) == recall.previous_result,
        !recall.save_previous_result ==> recalled(recall, evaluated) == recall.previous_result,
{
}

/// Two number replies in a row, with results kept: `ans` refers to the
/// second.
pub proof fn lemma_ans_after_two_numbers<N, R, E>(recall: Recall<N>, first: R, n1: N, second: R, n2: N)
    requires
        recall.save_previous_result,
    ensures
        ({
            let after_first = Recall {
                save_previous_result: recall.save_previous_result,
                previous_result: recalled(recall, Ok::<(R, Option<N>), E>((first, Some(n1)))),
            };
            recalled(after_first, Ok::<(R, Option<N>), E>((second, Some(n2)))) == Some(n2)
        }),
{
}

} // verus!
