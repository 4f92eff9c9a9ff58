//! Pulling a reward record out of a document, and gathering the records of a
//! run.

use vstd::prelude::*;
use crate::document::{Node, field, get_field, opt_node};
use crate::record::{Amount, SalvageRewardData};

verus! {

/// Why no record came out of an asset file.
#[derive(Debug, Clone, Copy, PartialEq, Eq, Structural)]
pub enum ExtractError {
    /// The file could not be read.
    UnreadableFile,
    /// The text is not a well-formed document.
    UnparseableDocument,
    /// The text holds no document at all.
    EmptyDocumentSet,
    /// `MonoBehaviour.m_Name` is missing or is not a string.
    MissingOrWrongTypeName,
    /// `m_MassBasedValue` of the first reward entry is missing or not an integer.
    MissingOrWrongTypeMassFlag,
}

/// `MonoBehaviour.m_Name` of a document.
pub open spec fn name_node(doc: Node) -> Option<Node> {
    field(field(Some(doc), "MonoBehaviour"@), "m_Name"@)
}

/// `MonoBehaviour.m_Data.m_AwardedCurrencies` of a document.
pub open spec fn currencies_node(doc: Node) -> Option<Node> {
    field(field(field(Some(doc), "MonoBehaviour"@), "m_Data"@), "m_AwardedCurrencies"@)
}

/// A numeric field read leniently: floats and integers are kept, anything
/// else, or nothing, counts as zero.
pub open spec fn amount_of(n: Option<Node>) -> Amount {
    match n {
        Some(Node::Real(s)) => Amount::Real(s),
        Some(Node::Integer(i)) => Amount::Integer(i),
        _ => Amount::Integer(0),
    }
}

/// The record that a reward entry gives, or the error when its mass flag is
/// missing or not an integer.
pub open spec fn entry_record(name: String, entry: Node) -> Result<SalvageRewardData, ExtractError> {
    match field(Some(entry), "m_MassBasedValue"@) {
        Some(Node::Integer(m)) => Ok(
            SalvageRewardData {
                name: name,
                min_initial_value: amount_of(field(Some(entry), "m_MinInitialValue"@)),
                max_initial_value: amount_of(field(Some(entry), "m_MaxInitialValue"@)),
                mass_based_value: m == 1,
            },
        ),
        _ => Err(ExtractError::MissingOrWrongTypeMassFlag),
    }
}

/// The record of a document without reward entries.
pub open spec fn default_record(name: String) -> SalvageRewardData {
    SalvageRewardData {
        name: name,
        min_initial_value: Amount::Integer(0),
        max_initial_value: Amount::Integer(0),
        mass_based_value: false,
    }
}

/// The record a document gives: the name is required; the values come from
/// the first reward entry when the entries form a non-empty sequence, and
/// default otherwise.
pub open spec fn extract_spec(doc: Node) -> Result<SalvageRewardData, ExtractError> {
    match name_node(doc) {
        Some(Node::Text(name)) => match currencies_node(doc) {
            Some(Node::Sequence(entries)) => if entries@.len() > 0 {
                entry_record(name, entries@[0])
            } else {
                Ok(default_record(name))
            },
            _ => Ok(default_record(name)),
        },
        _ => Err(ExtractError::MissingOrWrongTypeName),
    }
}

/// The record that the documents of one file give: only the first counts.
pub open spec fn documents_spec(docs: Seq<Node>) -> Result<SalvageRewardData, ExtractError> {
    if docs.len() == 0 {
        Err(ExtractError::EmptyDocumentSet)
    } else {
        extract_spec(docs[0])
    }
}

fn amount_from(n: Option<&Node>) -> (r: Amount)
    ensures
        r == amount_of(opt_node(n)),
{
    match n {
        Some(Node::Real(s)) => Amount::Real(s.clone()),
        Some(Node::Integer(i)) => Amount::Integer(*i),
        _ => Amount::Integer(0),
    }
}

/// Extracts the reward record of a document.
pub fn extract_record(doc: &Node) -> (r: Result<SalvageRewardData, ExtractError>)
    ensures
        r == extract_spec(*doc),
{
    let mono = get_field(Some(doc), "MonoBehaviour");
    let name = match get_field(mono, "m_Name") {
        Some(Node::Text(s)) => s.clone(),
        _ => return Err(ExtractError::MissingOrWrongTypeName),
    };
    let data = get_field(mono, "m_Data");
    let currencies = get_field(data, "m_AwardedCurrencies");
    match currencies {
        Some(Node::Sequence(entries)) => {
            if entries.len() > 0 {
                let first = Some(&entries[0]);
                let mass_based_value = match get_field(first, "m_MassBasedValue") {
                    Some(Node::Integer(m)) => *m == 1,
                    _ => return Err(ExtractError::MissingOrWrongTypeMassFlag),
                };
                let min_initial_value = amount_from(get_field(first, "m_MinInitialValue"));
                let max_initial_value = amount_from(get_field(first, "m_MaxInitialValue"));
                return Ok(
                    SalvageRewardData { name, min_initial_value, max_initial_value, mass_based_value },
                );
            }
        },
        _ => {},
    }
    Ok(
        SalvageRewardData {
            name,
            min_initial_value: Amount::Integer(0),
            max_initial_value: Amount::Integer(0),
            mass_based_value: false,
        },
    )
}

/// Extracts the record of a file's documents from the first of them.
pub fn record_from_documents(docs: &Vec<Node>) -> (r: Result<SalvageRewardData, ExtractError>)
    ensures
        r == documents_spec(docs@),
{
    if docs.len() == 0 {
        Err(ExtractError::EmptyDocumentSet)
    } else {
        extract_record(&docs[0])
    }
}

/// A document with a name and no reward entries, or an empty list of them,
/// gives the default values: zero, zero, not mass-based.
pub proof fn lemma_no_entries_gives_defaults(doc: Node)
    requires
        name_node(doc) matches Some(Node::Text(_)),
        currencies_node(doc) is None || (currencies_node(doc) matches Some(Node::Sequence(entries))
            && entries@.len() == 0),
    ensures
        extract_spec(doc) matches Ok(record) && record.min_initial_value == Amount::Integer(0)
            && record.max_initial_value == Amount::Integer(0) && !record.mass_based_value,
{
}

/// With a name and a first reward entry, the mass flag decides: an integer 1
/// makes the record mass-based, any other integer does not, and anything that
/// is not an integer, or nothing, fails the extraction.
pub proof fn lemma_mass_flag(doc: Node)
    requires
        name_node(doc) matches Some(Node::Text(_)),
        currencies_node(doc) matches Some(Node::Sequence(entries)) && entries@.len() > 0,
    ensures
        ({
            let entry = currencies_node(doc)->Some_0->Sequence_0@[0];
            match field(Some(entry), "m_MassBasedValue"@) {
                Some(Node::Integer(m)) => extract_spec(doc) matches Ok(record)
                    && record.mass_based_value == (m == 1),
                _ => extract_spec(doc) == Err::<SalvageRewardData, ExtractError>(
                    ExtractError::MissingOrWrongTypeMassFlag,
                ),
            }
        }),
{
}

/// Only the first reward entry counts: two documents with the same name and
/// reward lists that agree on their first entry give the same result.
pub proof fn lemma_only_first_entry_counts(a: Node, b: Node)
    requires
        name_node(a) == name_node(b),
        currencies_node(a) matches Some(Node::Sequence(xs)) && xs@.len() > 0,
        currencies_node(b) matches Some(Node::Sequence(ys)) && ys@.len() > 0,
        currencies_node(a)->Some_0->Sequence_0@[0] == currencies_node(b)->Some_0->Sequence_0@[0],
    ensures
        extract_spec(a) == extract_spec(b),
{
}

} // verus!
