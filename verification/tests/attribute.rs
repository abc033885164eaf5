use minidom::Element;
use minidom_ext::attribute::converted_attribute;
use minidom_ext::{AttributeElementExt, Error};

#[test]
fn no_attribute() {
    let xml: &'static str = r#"<root />"#;
    let root: Element = xml.parse().unwrap();
    let error = root.try_attribute::<String>("id").unwrap_err();
    assert_eq!(
        "Failed to find attribute \'id\' in element \'root\'",
        error.message()
    );
}

#[test]
fn attribute_no_children() {
    let xml: &'static str = r#"<root id="root:1" />"#;
    let root: Element = xml.parse().unwrap();
    let error = root.try_attribute::<f64>("id").unwrap_err();
    assert_eq!("Failed to parse and convert the value \'root:1\' of attribute \'id\' in element \'root\'", error.message());
}

#[test]
fn attribute_is_parsed_into_the_chosen_type() {
    let root: Element = r#"<root id="42" />"#.parse().unwrap();
    let id: u64 = root.try_attribute("id").unwrap();
    assert_eq!(42, id);
    let id: i8 = root.try_attribute("id").unwrap();
    assert_eq!(42, id);
    let id: String = root.try_attribute("id").unwrap();
    assert_eq!("42", id);
}

#[test]
fn attribute_text_is_handed_to_the_parser_as_it_is() {
    let root: Element = r#"<root label=" two words " />"#.parse().unwrap();
    let label: String = root.try_attribute("label").unwrap();
    assert_eq!(" two words ", label);
}

#[test]
fn missing_attribute_carries_both_names() {
    let root: Element = r#"<root id="42" />"#.parse().unwrap();
    match root.try_attribute::<u64>("ref") {
        Err(Error::AttributeNotFound(element, attribute)) => {
            assert_eq!("root", element);
            assert_eq!("ref", attribute);
        }
        other => panic!("unexpected outcome: {:?}", other),
    }
}

#[test]
fn failed_conversion_carries_the_text_verbatim() {
    let root: Element = r#"<root id="root:1" />"#.parse().unwrap();
    match root.try_attribute::<u64>("id") {
        Err(Error::ParseError {
            element_name,
            attribute_name,
            value,
            source,
        }) => {
            assert_eq!("root", element_name);
            assert_eq!("id", attribute_name);
            assert_eq!("root:1", value);
            assert!(source.downcast_ref::<std::num::ParseIntError>().is_some());
        }
        other => panic!("unexpected outcome: {:?}", other),
    }
}

#[test]
fn empty_attribute_is_present() {
    let root: Element = r#"<root id="" />"#.parse().unwrap();
    let id: String = root.try_attribute("id").unwrap();
    assert_eq!("", id);
    assert!(matches!(
        root.try_attribute::<u64>("id"),
        Err(Error::ParseError { .. })
    ));
}

#[test]
fn attribute_without_error() {
    let root: Element = r#"<root id="42" name="root:1" />"#.parse().unwrap();
    assert_eq!(Some(42_u64), root.attribute("id"));
    assert_eq!(Some("42".to_owned()), root.attribute::<String>("id"));
    assert_eq!(None, root.attribute::<u64>("name"));
    assert_eq!(None, root.attribute::<u64>("ref"));
    assert_eq!(None, root.attribute::<String>("ref"));
}

#[test]
fn attribute_agrees_with_try_attribute() {
    let root: Element = r#"<root a="1" b="-7" c="x" />"#.parse().unwrap();
    for name in ["a", "b", "c", "d"] {
        assert_eq!(
            root.try_attribute::<i32>(name).ok(),
            root.attribute::<i32>(name)
        );
        assert_eq!(
            root.try_attribute::<u32>(name).ok(),
            root.attribute::<u32>(name)
        );
    }
}

#[test]
fn attributes_of_children_are_not_the_element_s() {
    let root: Element = r#"<root><child id="1" /></root>"#.parse().unwrap();
    assert!(matches!(
        root.try_attribute::<u64>("id"),
        Err(Error::AttributeNotFound(..))
    ));
}

#[test]
fn converted_value_is_returned() {
    let extracted = converted_attribute::<u64>("root", "id", "42", Ok(42));
    assert_eq!(42, extracted.unwrap());
}

#[test]
fn conversion_failure_becomes_parse_error() {
    let source = anyhow::Error::msg("not a number");
    let extracted = converted_attribute::<u64>("root", "id", "root:1", Err(source));
    match extracted {
        Err(Error::ParseError {
            element_name,
            attribute_name,
            value,
            source,
        }) => {
            assert_eq!("root", element_name);
            assert_eq!("id", attribute_name);
            assert_eq!("root:1", value);
            assert_eq!("not a number", source.to_string());
        }
        other => panic!("unexpected outcome: {:?}", other),
    }
}
