use salvage_rewards::document::{get_field, Node};
use salvage_rewards::extract::{extract_record, record_from_documents, ExtractError};
use salvage_rewards::record::{Amount, SalvageRewardData};
use salvage_rewards::yaml::{parse_documents, record_from_text};

fn asset(entries: &str) -> String {
    format!(
        "MonoBehaviour:\n  m_Name: SALV_Copper\n  m_Data:\n    m_AwardedCurrencies:{}\n",
        entries
    )
}

fn entry(min: &str, max: &str, mass: &str) -> String {
    format!(
        "\n      - m_MinInitialValue: {}\n        m_MaxInitialValue: {}\n        m_MassBasedValue: {}",
        min, max, mass
    )
}

fn defaults(name: &str) -> SalvageRewardData {
    SalvageRewardData {
        name: name.to_string(),
        min_initial_value: Amount::Integer(0),
        max_initial_value: Amount::Integer(0),
        mass_based_value: false,
    }
}

#[test]
fn full_entry_is_read() {
    let r = record_from_text(&asset(&entry("5.5", "8", "1"))).unwrap();
    assert_eq!(r.name, "SALV_Copper");
    assert_eq!(r.min_initial_value, Amount::Real("5.5".to_string()));
    assert_eq!(r.max_initial_value, Amount::Integer(8));
    assert!(r.mass_based_value);
}

#[test]
fn absent_currencies_give_defaults() {
    let text = "MonoBehaviour:\n  m_Name: SALV_Iron\n  m_Data:\n    m_Other: 3\n";
    assert_eq!(record_from_text(text), Ok(defaults("SALV_Iron")));
}

#[test]
fn absent_data_gives_defaults() {
    let text = "MonoBehaviour:\n  m_Name: SALV_Iron\n";
    assert_eq!(record_from_text(text), Ok(defaults("SALV_Iron")));
}

#[test]
fn empty_currencies_give_defaults() {
    let text = "MonoBehaviour:\n  m_Name: SALV_Tin\n  m_Data:\n    m_AwardedCurrencies: []\n";
    assert_eq!(record_from_text(text), Ok(defaults("SALV_Tin")));
}

#[test]
fn non_sequence_currencies_give_defaults() {
    let text = "MonoBehaviour:\n  m_Name: SALV_Tin\n  m_Data:\n    m_AwardedCurrencies:\n      m_MassBasedValue: 1\n";
    assert_eq!(record_from_text(text), Ok(defaults("SALV_Tin")));
}

#[test]
fn mass_flag_one_is_mass_based() {
    let r = record_from_text(&asset(&entry("1", "2", "1"))).unwrap();
    assert!(r.mass_based_value);
}

#[test]
fn mass_flag_zero_is_not_mass_based() {
    let r = record_from_text(&asset(&entry("1", "2", "0"))).unwrap();
    assert!(!r.mass_based_value);
}

#[test]
fn mass_flag_other_integers_are_not_mass_based() {
    for flag in ["2", "-1", "100"] {
        let r = record_from_text(&asset(&entry("1", "2", flag))).unwrap();
        assert!(!r.mass_based_value, "flag {}", flag);
    }
}

#[test]
fn mass_flag_not_integer_fails() {
    for flag in ["'1'", "true", "1.0", "yes"] {
        assert_eq!(
            record_from_text(&asset(&entry("1", "2", flag))),
            Err(ExtractError::MissingOrWrongTypeMassFlag),
            "flag {}",
            flag
        );
    }
}

#[test]
fn mass_flag_missing_fails() {
    let text = asset("\n      - m_MinInitialValue: 1\n        m_MaxInitialValue: 2");
    assert_eq!(record_from_text(&text), Err(ExtractError::MissingOrWrongTypeMassFlag));
}

#[test]
fn missing_name_fails() {
    let text = "MonoBehaviour:\n  m_Data:\n    m_AwardedCurrencies: []\n";
    assert_eq!(record_from_text(text), Err(ExtractError::MissingOrWrongTypeName));
}

#[test]
fn non_string_name_fails() {
    let text = "MonoBehaviour:\n  m_Name: 42\n";
    assert_eq!(record_from_text(text), Err(ExtractError::MissingOrWrongTypeName));
}

#[test]
fn missing_mono_behaviour_fails() {
    assert_eq!(record_from_text("m_Name: SALV_X\n"), Err(ExtractError::MissingOrWrongTypeName));
}

#[test]
fn only_first_entry_counts() {
    let two = format!("{}{}", entry("3", "4", "1"), entry("50.5", "60", "0"));
    let one = entry("3", "4", "1");
    let a = record_from_text(&asset(&two)).unwrap();
    let b = record_from_text(&asset(&one)).unwrap();
    assert_eq!(a, b);
    assert_eq!(a.min_initial_value, Amount::Integer(3));
    assert_eq!(a.max_initial_value, Amount::Integer(4));
    assert!(a.mass_based_value);
}

#[test]
fn later_entries_without_mass_flag_are_ignored() {
    let two = format!("{}\n      - m_MinInitialValue: 9", entry("3", "4", "0"));
    let r = record_from_text(&asset(&two)).unwrap();
    assert_eq!(r.min_initial_value, Amount::Integer(3));
}

#[test]
fn non_numeric_bounds_read_as_zero() {
    let r = record_from_text(&asset(&entry("abc", "true", "0"))).unwrap();
    assert_eq!(r.min_initial_value, Amount::Integer(0));
    assert_eq!(r.max_initial_value, Amount::Integer(0));
}

#[test]
fn missing_bounds_read_as_zero() {
    let text = asset("\n      - m_MassBasedValue: 1");
    let r = record_from_text(&text).unwrap();
    assert_eq!(r.min_initial_value, Amount::Integer(0));
    assert_eq!(r.max_initial_value, Amount::Integer(0));
    assert!(r.mass_based_value);
}

#[test]
fn empty_text_has_no_documents() {
    assert_eq!(record_from_text(""), Err(ExtractError::EmptyDocumentSet));
}

#[test]
fn malformed_text_fails_to_parse() {
    assert_eq!(record_from_text("a: [1, 2\n"), Err(ExtractError::UnparseableDocument));
    assert!(parse_documents("a: [1, 2\n").is_err());
}

#[test]
fn only_first_document_counts() {
    let text = "MonoBehaviour:\n  m_Name: First\n---\nMonoBehaviour:\n  m_Name: 7\n";
    assert_eq!(parse_documents(text).unwrap().len(), 2);
    assert_eq!(record_from_text(text), Ok(defaults("First")));
}

#[test]
fn no_documents_is_an_error() {
    assert_eq!(record_from_documents(&Vec::new()), Err(ExtractError::EmptyDocumentSet));
}

#[test]
fn built_document_is_read() {
    let entry = Node::Mapping(vec![
        (Node::Text("m_MinInitialValue".to_string()), Node::Real("2.5".to_string())),
        (Node::Text("m_MassBasedValue".to_string()), Node::Integer(0)),
    ]);
    let data = Node::Mapping(vec![(
        Node::Text("m_AwardedCurrencies".to_string()),
        Node::Sequence(vec![entry]),
    )]);
    let mono = Node::Mapping(vec![
        (Node::Text("m_Name".to_string()), Node::Text("SALV_Built".to_string())),
        (Node::Text("m_Data".to_string()), data),
    ]);
    let doc = Node::Mapping(vec![(Node::Text("MonoBehaviour".to_string()), mono)]);
    let r = extract_record(&doc).unwrap();
    assert_eq!(r.name, "SALV_Built");
    assert_eq!(r.min_initial_value, Amount::Real("2.5".to_string()));
    assert_eq!(r.max_initial_value, Amount::Integer(0));
    assert!(!r.mass_based_value);
}

#[test]
fn field_lookup_needs_text_keys() {
    let map = Node::Mapping(vec![
        (Node::Integer(1), Node::Integer(10)),
        (Node::Text("1".to_string()), Node::Integer(20)),
    ]);
    match get_field(Some(&map), "1") {
        Some(Node::Integer(v)) => assert_eq!(*v, 20),
        other => panic!("unexpected {:?}", other),
    }
    assert!(get_field(Some(&map), "2").is_none());
    assert!(get_field(Some(&Node::Integer(1)), "1").is_none());
    assert!(get_field(None, "1").is_none());
}

#[test]
fn deep_levels_are_read_whole() {
    let text = "a:\n  b:\n    c:\n      d:\n        e:\n          f:\n            g: [1, x]\n";
    let docs = parse_documents(text).unwrap();
    let mut node = Some(&docs[0]);
    for key in ["a", "b", "c", "d", "e", "f", "g"] {
        node = get_field(node, key);
    }
    match node {
        Some(Node::Sequence(items)) => {
            assert_eq!(items.len(), 2);
            assert!(matches!(&items[0], Node::Integer(1)));
            assert!(matches!(&items[1], Node::Text(s) if s == "x"));
        }
        other => panic!("unexpected {:?}", other),
    }
}
