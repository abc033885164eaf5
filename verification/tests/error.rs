use minidom_ext::Error;

fn text(s: &str) -> String {
    s.to_owned()
}

#[test]
fn message_of_attribute_not_found() {
    let error = Error::AttributeNotFound(text("root"), text("id"));
    assert_eq!(
        "Failed to find attribute 'id' in element 'root'",
        error.message()
    );
}

#[test]
fn message_of_no_children_found() {
    let error = Error::NoChildrenFound(text("root"));
    assert_eq!(
        "No children matching predicate found in Element 'root'",
        error.message()
    );
}

#[test]
fn message_of_no_children() {
    let error = Error::NoChildren(text("root"), text("child"));
    assert_eq!(
        "No children with name 'child' in Element 'root'",
        error.message()
    );
}

#[test]
fn message_of_multiple_children_found() {
    let error = Error::MultipleChildrenFound(text("root"), 2);
    assert_eq!(
        "Multiple children matching predicate found in Element 'root' (found 2 elements)",
        error.message()
    );
}

#[test]
fn message_of_multiple_children() {
    let error = Error::MultipleChildren(text("root"), text("child"), 3);
    assert_eq!(
        "Multiple children with name 'child' in Element 'root' (found 3 elements)",
        error.message()
    );
}

#[test]
fn message_of_parse_error() {
    let error = Error::ParseError {
        element_name: text("root"),
        attribute_name: text("id"),
        value: text("root:1"),
        source: anyhow::Error::msg("invalid digit"),
    };
    assert_eq!(
        "Failed to parse and convert the value 'root:1' of attribute 'id' in element 'root'",
        error.message()
    );
}

#[test]
fn message_keeps_texts_as_they_are() {
    let error = Error::NoChildren(text(""), text("a 'quoted' name"));
    assert_eq!(
        "No children with name 'a 'quoted' name' in Element ''",
        error.message()
    );
    let error = Error::AttributeNotFound(text("élément"), text("名"));
    assert_eq!(
        "Failed to find attribute '名' in element 'élément'",
        error.message()
    );
}

#[test]
fn counts_are_written_in_decimal() {
    for count in [
        0,
        1,
        9,
        10,
        11,
        99,
        100,
        101,
        1005,
        90_210,
        1_000_000,
        usize::MAX - 1,
        usize::MAX,
    ] {
        let error = Error::MultipleChildrenFound(text("root"), count);
        assert_eq!(
            format!(
                "Multiple children matching predicate found in Element 'root' (found {} elements)",
                count
            ),
            error.message()
        );
        let error = Error::MultipleChildren(text("root"), text("child"), count);
        assert_eq!(
            format!(
                "Multiple children with name 'child' in Element 'root' (found {} elements)",
                count
            ),
            error.message()
        );
    }
}

#[test]
fn by_name_renames_the_failures_of_a_search() {
    match Error::NoChildrenFound(text("root")).by_name("child") {
        Error::NoChildren(element, child) => {
            assert_eq!("root", element);
            assert_eq!("child", child);
        }
        other => panic!("unexpected error: {:?}", other),
    }
    match Error::MultipleChildrenFound(text("root"), 7).by_name("child") {
        Error::MultipleChildren(element, child, count) => {
            assert_eq!("root", element);
            assert_eq!("child", child);
            assert_eq!(7, count);
        }
        other => panic!("unexpected error: {:?}", other),
    }
}

#[test]
fn by_name_leaves_other_errors_alone() {
    match Error::AttributeNotFound(text("root"), text("id")).by_name("child") {
        Error::AttributeNotFound(element, attribute) => {
            assert_eq!("root", element);
            assert_eq!("id", attribute);
        }
        other => panic!("unexpected error: {:?}", other),
    }
    match Error::NoChildren(text("root"), text("first")).by_name("child") {
        Error::NoChildren(element, child) => {
            assert_eq!("root", element);
            assert_eq!("first", child);
        }
        other => panic!("unexpected error: {:?}", other),
    }
    match Error::MultipleChildren(text("root"), text("first"), 2).by_name("child") {
        Error::MultipleChildren(element, child, count) => {
            assert_eq!("root", element);
            assert_eq!("first", child);
            assert_eq!(2, count);
        }
        other => panic!("unexpected error: {:?}", other),
    }
    let parse_error = Error::ParseError {
        element_name: text("root"),
        attribute_name: text("id"),
        value: text("x"),
        source: anyhow::Error::msg("invalid digit"),
    };
    match parse_error.by_name("child") {
        Error::ParseError {
            element_name,
            attribute_name,
            value,
            source,
        } => {
            assert_eq!("root", element_name);
            assert_eq!("id", attribute_name);
            assert_eq!("x", value);
            assert_eq!("invalid digit", source.to_string());
        }
        other => panic!("unexpected error: {:?}", other),
    }
}
