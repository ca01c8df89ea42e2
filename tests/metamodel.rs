use std::collections::HashMap;
use tuta_metamodel::metamodel::{
    AppName, AssociationType, Cardinality, ElementType, ElementValue, ModelAssociation, ModelValue,
    TypeModel, ValueType,
};
use tuta_metamodel::TypeRef;

const ALL_APPS: [AppName; 8] = [
    AppName::Accounting,
    AppName::Base,
    AppName::Gossip,
    AppName::Monitor,
    AppName::Storage,
    AppName::Sys,
    AppName::Tutanota,
    AppName::Usage,
];

fn value(id: u64, name: &str, encrypted: bool) -> ModelValue {
    ModelValue {
        id,
        name: name.to_string(),
        value_type: ValueType::String,
        cardinality: Cardinality::One,
        is_final: false,
        encrypted,
    }
}

fn association(id: u64, name: &str) -> ModelAssociation {
    ModelAssociation {
        id,
        name: name.to_string(),
        association_type: AssociationType::Aggregation,
        cardinality: Cardinality::ZeroOrOne,
        ref_type_id: 77,
        is_final: true,
        dependency: None,
    }
}

fn type_model(element_type: ElementType, encrypted: bool, values: Vec<ModelValue>) -> TypeModel {
    let mut value_map = HashMap::new();
    for v in values {
        value_map.insert(v.id, v);
    }
    let mut association_map = HashMap::new();
    association_map.insert(456, association(456, "attachment"));
    TypeModel {
        id: 42,
        since: 1,
        app: AppName::Tutanota,
        version: 80,
        name: "Mail".to_string(),
        element_type,
        versioned: false,
        encrypted,
        values: value_map,
        associations: association_map,
    }
}

#[test]
fn app_name_round_trips_through_its_text() {
    for app in ALL_APPS {
        assert_eq!(AppName::parse(&app.to_string()), Ok(app));
        assert_eq!(AppName::parse(app.as_str()), Ok(app));
    }
    assert_eq!(AppName::Tutanota.to_string(), "tutanota");
    assert_eq!(AppName::Sys.as_str(), "sys");
    assert_eq!(AppName::try_from("usage"), Ok(AppName::Usage));
    assert!(AppName::try_from("nope").is_err());
    assert_eq!(AppName::try_from("Tutanota"), Err("Unknown AppName: Tutanota".to_string()));
    assert_eq!(AppName::try_from("tutanota"), Ok(AppName::Tutanota));
}

#[test]
fn app_name_rejects_unknown_text() {
    assert_eq!(AppName::parse("mailx"), Err("Unknown AppName: mailx".to_string()));
    assert!(AppName::parse("Tutanota").is_err());
    assert!(AppName::parse("").is_err());
}

#[test]
fn aggregate_without_encrypted_fields_is_not_encrypted() {
    let t = type_model(ElementType::Aggregated, true, vec![value(1, "a", false), value(2, "b", false)]);
    assert!(!t.is_encrypted());
    assert!(t.marked_encrypted());
}

#[test]
fn aggregate_with_an_encrypted_field_is_encrypted() {
    let t = type_model(ElementType::Aggregated, false, vec![value(1, "a", false), value(2, "b", true)]);
    assert!(t.is_encrypted());
    assert!(!t.marked_encrypted());
}

#[test]
fn non_aggregate_follows_its_own_flag() {
    for kind in [ElementType::Element, ElementType::ListElement, ElementType::DataTransfer, ElementType::BlobElement] {
        let t = type_model(kind, false, vec![value(1, "a", true)]);
        assert!(!t.is_encrypted());
        let t = type_model(kind, true, vec![value(1, "a", false)]);
        assert!(t.is_encrypted());
    }
}

#[test]
fn attribute_id_by_name_finds_fields_and_associations() {
    let t = type_model(ElementType::Element, false, vec![value(123, "subject", false)]);
    assert_eq!(t.get_attribute_id_by_attribute_name("subject").unwrap(), "123");
    assert_eq!(t.get_attribute_id_by_attribute_name("attachment").unwrap(), "456");
    let err = t.get_attribute_id_by_attribute_name("missing").unwrap_err();
    assert_eq!(err.0, "did not find attribute with name 'missing' in values or associations");
}

#[test]
fn association_by_attribute_id_reports_missing_and_malformed_ids() {
    let t = type_model(ElementType::Element, false, vec![value(123, "subject", false)]);
    let missing = t.get_association_by_attribute_id("123").unwrap_err();
    assert!(missing.0.contains("123"));
    assert_eq!(missing.0, "no association found with attribute_id '123'");
    let malformed = t.get_association_by_attribute_id("abc").unwrap_err();
    assert_eq!(
        malformed.0,
        "invalid attribute_id format: 'abc' (expected a number), invalid digit found in string"
    );
    assert!(!malformed.0.contains("no association found"));
    let found = t.get_association_by_attribute_id("456").unwrap();
    assert_eq!(found.name, "attachment");
    assert_eq!(found.ref_type_id, 77);
}

#[test]
fn attribute_id_association_checks_the_association_ids() {
    let t = type_model(ElementType::Element, false, vec![value(123, "subject", false)]);
    assert!(t.is_attribute_id_association("456".to_string()).unwrap());
    assert!(t.is_attribute_id_association("+456".to_string()).unwrap());
    assert!(!t.is_attribute_id_association("123".to_string()).unwrap());
    assert!(t.is_attribute_id_association("_finalIvs".to_string()).is_err());
    assert!(t.is_attribute_id_association("-1".to_string()).is_err());
    let err = t.is_attribute_id_association("18446744073709551616".to_string()).unwrap_err();
    assert_eq!(
        err.0,
        "invalid attribute_id format: '18446744073709551616' (expected a number), number too large to fit in target type"
    );
    let err = t.is_attribute_id_association(String::new()).unwrap_err();
    assert_eq!(
        err.0,
        "invalid attribute_id format: '' (expected a number), cannot parse integer from empty string"
    );
}

#[test]
fn cardinality_of_an_association() {
    let t = type_model(ElementType::Element, false, vec![value(123, "subject", false)]);
    assert_eq!(*t.get_attribute_id_cardinality("456".to_string()).unwrap(), Cardinality::ZeroOrOne);
    let err = t.get_attribute_id_cardinality("123".to_string()).unwrap_err();
    assert_eq!(err.0, "did not find association with attributeId 123");
    let err = t.get_attribute_id_cardinality("+0123".to_string()).unwrap_err();
    assert_eq!(err.0, "did not find association with attributeId 123");
    let err = t.get_attribute_id_cardinality("x".to_string()).unwrap_err();
    assert!(err.0.starts_with("invalid attribute_id format"));
}

#[test]
fn identity_checks_and_type_ref() {
    let t = type_model(ElementType::Element, false, vec![]);
    assert!(t.is_same_type(&TypeRef::new(AppName::Tutanota, 42)));
    assert!(!t.is_same_type(&TypeRef::new(AppName::Sys, 42)));
    assert!(!t.is_same_type(&TypeRef::new(AppName::Tutanota, 43)));
    assert!(t.is_same_type_by_attr_name(AppName::Tutanota, "Mail"));
    assert!(!t.is_same_type_by_attr_name(AppName::Tutanota, "mail"));
    assert!(!t.is_same_type_by_attr_name(AppName::Base, "Mail"));
    let r = t.type_ref();
    assert_eq!(r, TypeRef { app: AppName::Tutanota, type_id: 42 });
}

#[test]
fn default_values_are_zero_values() {
    assert!(matches!(ValueType::String.get_default(), ElementValue::String(s) if s.is_empty()));
    assert!(matches!(ValueType::CompressedString.get_default(), ElementValue::String(s) if s.is_empty()));
    assert!(matches!(ValueType::Number.get_default(), ElementValue::Number(0)));
    assert!(matches!(ValueType::Bytes.get_default(), ElementValue::Bytes(b) if b.is_empty()));
    assert!(matches!(ValueType::Date.get_default(), ElementValue::Date(d) if d.millis == 0));
    assert!(matches!(ValueType::Boolean.get_default(), ElementValue::Bool(false)));
}

#[test]
fn wire_tags_map_to_kinds() {
    assert_eq!(ElementType::from_tag("AGGREGATED_TYPE"), Some(ElementType::Aggregated));
    assert_eq!(ElementType::from_tag("LIST_ELEMENT_TYPE"), Some(ElementType::ListElement));
    assert_eq!(ElementType::from_tag("aggregated_type"), None);
    assert_eq!(
        AssociationType::from_tag("LIST_ELEMENT_ASSOCIATION_CUSTOM"),
        Some(AssociationType::ListElementAssociationCustom)
    );
    assert_eq!(AssociationType::from_tag("AGGREGATE"), None);
    assert!(matches!(ValueType::from_tag("GeneratedId"), Some(ValueType::GeneratedId)));
    assert!(ValueType::from_tag("Text").is_none());
    assert_eq!(Cardinality::from_tag("ZeroOrOne"), Some(Cardinality::ZeroOrOne));
    assert_eq!(Cardinality::from_tag("Many"), None);
}

#[test]
fn descriptors_from_wire_values() {
    let v = ModelValue::from_wire(7, "subject".to_string(), "CompressedString", "ZeroOrOne", true, true).unwrap();
    assert_eq!(v.id, 7);
    assert_eq!(v.name, "subject");
    assert!(matches!(v.value_type, ValueType::CompressedString));
    assert_eq!(v.cardinality, Cardinality::ZeroOrOne);
    assert!(v.is_final && v.encrypted);
    assert!(ModelValue::from_wire(7, "s".to_string(), "Text", "One", false, false).is_none());
    assert!(ModelValue::from_wire(7, "s".to_string(), "String", "Many", false, false).is_none());

    let a = ModelAssociation::from_wire(8, "body".to_string(), "AGGREGATION", "Any", 99, false, Some("sys")).unwrap();
    assert_eq!(a.association_type, AssociationType::Aggregation);
    assert_eq!(a.cardinality, Cardinality::Any);
    assert_eq!(a.ref_type_id, 99);
    assert_eq!(a.dependency, Some(AppName::Sys));
    let a = ModelAssociation::from_wire(8, "body".to_string(), "ELEMENT_ASSOCIATION", "One", 99, true, None).unwrap();
    assert_eq!(a.dependency, None);
    assert!(ModelAssociation::from_wire(8, "b".to_string(), "AGGREGATION", "Any", 99, false, Some("Sys")).is_none());
    assert!(ModelAssociation::from_wire(8, "b".to_string(), "AGGREGATE", "Any", 99, false, None).is_none());
}
