//! Reading continuation state out of an OAI-PMH response.
use vstd::prelude::*;
use crate::request::opt_view;

verus! {

/// The OAI-PMH 2.0 namespace, the default element namespace of the queries.
pub const OAI_NAMESPACE: &'static str = "http://www.openarchives.org/OAI/2.0/";

/// Selects the datestamp of the last record of a response.
pub const LAST_RECORD_DATESTAMP_XPATH: &'static str = "//record[last()]//datestamp";

/// Selects the resumption token of a response.
pub const RESUMPTION_TOKEN_XPATH: &'static str = "//resumptionToken";

/// Names what `xee_xpath` makes of one of the two fixed queries of this
/// module evaluated against a document, with the OAI-PMH namespace as
/// default element namespace: `None` where the document does not parse or
/// the query fails, `Some(None)` for the empty sequence, `Some(Some(text))`
/// for the string value of a single item, and `None` again for a sequence of
/// several items, which has no string value. Both
/// queries select elements by name alone, so the result depends on the
/// document only.
pub uninterp spec fn xpath_outcome(document: Seq<char>, xpath: Seq<char>) -> Option<Option<Seq<char>>>;

pub open spec fn evaluation_view(r: Option<Option<String>>) -> Option<Option<Seq<char>>> {
    match r {
        Some(o) => Some(opt_view(o)),
        None => None,
    }
}

/// Relies on `xee_xpath`: `Documents::add_string_without_uri` parses the
/// document, `Queries::sequence` compiles the expression, `Query::execute`
/// evaluates it with the document as context item, and
/// `Sequence::string_value` gives the text of the result. Only the two fixed
/// queries are admitted: an arbitrary expression may read the clock
/// (`current-dateTime()`), so its result would not be a function of its text.
#[verifier::external_body]
fn evaluate_xpath(document: &str, xpath: &str) -> (r: Option<Option<String>>)
    requires
        is_field_xpath(xpath@),
    ensures
        evaluation_view(r) == xpath_outcome(document@, xpath@),
{
    let mut documents = xee_xpath::Documents::new();
    let doc = documents.add_string_without_uri(document).ok()?;
    let mut context = xee_xpath::context::StaticContextBuilder::default();
    context.default_element_namespace(OAI_NAMESPACE);
    let query = xee_xpath::Queries::new(context).sequence(xpath).ok()?;
    match xee_xpath::Query::execute(&query, &mut documents, doc).ok()? {
        xee_xpath::Sequence::Empty(_) => Some(None),
        sequence => Some(Some(sequence.string_value(documents.xot()).ok()?)),
    }
}

/// One of the two fixed queries.
pub open spec fn is_field_xpath(xpath: Seq<char>) -> bool {
    xpath == LAST_RECORD_DATESTAMP_XPATH@ || xpath == RESUMPTION_TOKEN_XPATH@
}

/// The value that a harvest reads out of a response.
#[derive(Clone, Copy, Debug, PartialEq, Eq, Structural)]
pub enum Field {
    /// The datestamp of the last record.
    LastRecordDatestamp,
    /// The resumption token.
    ResumptionToken,
}

/// The response could not be parsed, or the query failed on it.
#[derive(Clone, Copy, Debug, PartialEq, Eq, Structural)]
pub struct ExtractError;

pub open spec fn field_xpath(field: Field) -> Seq<char> {
    match field {
        Field::LastRecordDatestamp => LAST_RECORD_DATESTAMP_XPATH@,
        Field::ResumptionToken => RESUMPTION_TOKEN_XPATH@,
    }
}

/// An empty text counts as absent.
pub open spec fn non_empty(o: Option<Seq<char>>) -> Option<Seq<char>> {
    match o {
        Some(s) => if s.len() == 0 { None } else { Some(s) },
        None => None,
    }
}

/// The value of a field, given what the evaluator made of its query.
pub open spec fn field_value(outcome: Option<Option<Seq<char>>>) -> Result<Option<Seq<char>>, ExtractError> {
    match outcome {
        Some(o) => Ok(non_empty(o)),
        None => Err(ExtractError),
    }
}

/// The value of a field of a response.
pub open spec fn extracted(document: Seq<char>, field: Field) -> Result<Option<Seq<char>>, ExtractError> {
    field_value(xpath_outcome(document, field_xpath(field)))
}

pub open spec fn field_result_view(r: Result<Option<String>, ExtractError>) -> Result<Option<Seq<char>>, ExtractError> {
    match r {
        Ok(o) => Ok(opt_view(o)),
        Err(e) => Err(e),
    }
}

/// Turns what the evaluator returned into a field's value: a failure becomes
/// an `ExtractError`, and the empty sequence and an empty text both become
/// `None`, so that an empty resumption token never reads as a live one.
pub fn normalize_field(evaluated: Option<Option<String>>) -> (r: Result<Option<String>, ExtractError>)
    ensures
        field_result_view(r) == field_value(evaluation_view(evaluated)),
        r matches Ok(Some(s)) ==> s@.len() > 0,
{
    match evaluated {
        None => Err(ExtractError),
        Some(None) => Ok(None),
        Some(Some(text)) => {
            if text.as_str().is_empty() {
                Ok(None)
            } else {
                Ok(Some(text))
            }
        },
    }
}

/// Reads a field out of a response body.
pub fn extract(document: &str, field: Field) -> (r: Result<Option<String>, ExtractError>)
    ensures
        field_result_view(r) == extracted(document@, field),
        r matches Ok(Some(s)) ==> s@.len() > 0,
{
    let xpath = match field {
        Field::LastRecordDatestamp => LAST_RECORD_DATESTAMP_XPATH,
        Field::ResumptionToken => RESUMPTION_TOKEN_XPATH,
    };
    normalize_field(evaluate_xpath(document, xpath))
}

/// An empty text is never a value: where the evaluator gives an empty
/// string, as for an empty resumption token element, the field is absent.
pub proof fn lemma_empty_text_is_absent(document: Seq<char>, field: Field)
    requires
        xpath_outcome(document, field_xpath(field)) == Some(Some(Seq::<char>::empty())),
    ensures
        extracted(document, field) == Ok::<Option<Seq<char>>, ExtractError>(None),
{
}

} // verus!
