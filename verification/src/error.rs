//! The failures of the queries, and the text each one is reported with.

use anyhow::Error as Source;
use crate::text::{decimal, decimal_text};
use vstd::prelude::*;
use vstd::string::*;

verus! {

/// [`anyhow::Error`]: what a failed conversion reported, wrapped. It is
/// carried along and never looked into.
#[verifier::external_type_specification]
#[verifier::external_body]
pub struct ExSource(Source);

/// Error type of the queries.
#[derive(Debug)]
pub enum Error {
    /// The attribute could not be found by name.
    /// First the element's name, then the attribute's name.
    AttributeNotFound(String, String),
    /// No child satisfies the predicate.
    /// Holds the element's name.
    NoChildrenFound(String),
    /// No child has the expected name.
    /// First the element's name, then the child's name.
    NoChildren(String, String),
    /// Several children satisfy the predicate.
    /// First the element's name, then the number of children that satisfy it.
    MultipleChildrenFound(String, usize),
    /// Several children have the expected name.
    /// First the element's name, then the child's name, then the number of
    /// children of that name.
    MultipleChildren(String, String, usize),
    /// The attribute's text could not be converted into the expected type.
    ParseError {
        /// Element's name
        element_name: String,
        /// Attribute's name
        attribute_name: String,
        /// Text of the attribute
        value: String,
        /// What the conversion reported. Its type depends on the type the
        /// text was converted into.
        source: Source,
    },
}

/// An [`Error`] as the contracts see it: each text as the sequence of its
/// characters, each count as a natural number.
pub enum ErrorView {
    AttributeNotFound(Seq<char>, Seq<char>),
    NoChildrenFound(Seq<char>),
    NoChildren(Seq<char>, Seq<char>),
    MultipleChildrenFound(Seq<char>, nat),
    MultipleChildren(Seq<char>, Seq<char>, nat),
    ParseError {
        element_name: Seq<char>,
        attribute_name: Seq<char>,
        value: Seq<char>,
        source: Source,
    },
}

impl View for Error {
    type V = ErrorView;

    open spec fn view(&self) -> ErrorView {
        match *self {
            Error::AttributeNotFound(element, attribute) => ErrorView::AttributeNotFound(
                element@,
                attribute@,
            ),
            Error::NoChildrenFound(element) => ErrorView::NoChildrenFound(element@),
            Error::NoChildren(element, child) => ErrorView::NoChildren(element@, child@),
            Error::MultipleChildrenFound(element, count) => ErrorView::MultipleChildrenFound(
                element@,
                count as nat,
            ),
            Error::MultipleChildren(element, child, count) => ErrorView::MultipleChildren(
                element@,
                child@,
                count as nat,
            ),
            Error::ParseError { element_name, attribute_name, value, source } => {
                ErrorView::ParseError {
                    element_name: element_name@,
                    attribute_name: attribute_name@,
                    value: value@,
                    source,
                }
            },
        }
    }
}

impl ErrorView {
    /// The text that reports the error.
    pub open spec fn message(self) -> Seq<char> {
        match self {
            ErrorView::AttributeNotFound(element, attribute) => {
                "Failed to find attribute '"@ + attribute + "' in element '"@ + element + "'"@
            },
            ErrorView::NoChildrenFound(element) => {
                "No children matching predicate found in Element '"@ + element + "'"@
            },
            ErrorView::NoChildren(element, child) => {
                "No children with name '"@ + child + "' in Element '"@ + element + "'"@
            },
            ErrorView::MultipleChildrenFound(element, count) => {
                "Multiple children matching predicate found in Element '"@ + element
                    + "' (found "@ + decimal(count) + " elements)"@
            },
            ErrorView::MultipleChildren(element, child, count) => {
                "Multiple children with name '"@ + child + "' in Element '"@ + element
                    + "' (found "@ + decimal(count) + " elements)"@
            },
            ErrorView::ParseError { element_name, attribute_name, value, .. } => {
                "Failed to parse and convert the value '"@ + value + "' of attribute '"@
                    + attribute_name + "' in element '"@ + element_name + "'"@
            },
        }
    }

    /// The error that a search by the name `child_name` reports where a
    /// search by predicate reports `self`. An error of another kind stays
    /// as it is.
    pub open spec fn by_name(self, child_name: Seq<char>) -> ErrorView {
        match self {
            ErrorView::NoChildrenFound(element) => ErrorView::NoChildren(element, child_name),
            ErrorView::MultipleChildrenFound(element, count) => ErrorView::MultipleChildren(
                element,
                child_name,
                count,
            ),
            other => other,
        }
    }

    /// The error is a `ParseError` that carries these three texts.
    pub open spec fn is_parse_error_of(
        self,
        element: Seq<char>,
        attribute: Seq<char>,
        text: Seq<char>,
    ) -> bool {
        self matches ErrorView::ParseError { element_name, attribute_name, value, .. }
            && element_name == element && attribute_name == attribute && value == text
    }
}

impl Error {
    /// Turns the failure of a search by predicate into that of a search by
    /// the name `child_name`. An error of another kind stays as it is.
    pub fn by_name(self, child_name: &str) -> (error: Error)
        ensures
            error@ == self@.by_name(child_name@),
    {
        match self {
            Error::NoChildrenFound(element) => Error::NoChildren(element, child_name.to_owned()),
            Error::MultipleChildrenFound(element, count) => Error::MultipleChildren(
                element,
                child_name.to_owned(),
                count,
            ),
            other => other,
        }
    }

    /// The text that reports the error.
    pub fn message(&self) -> (text: String)
        ensures
            text@ == self@.message(),
    {
        match self {
            Error::AttributeNotFound(element, attribute) => {
                let mut text = "Failed to find attribute '".to_owned();
                text.append(attribute.as_str());
                text.append("' in element '");
                text.append(element.as_str());
                text.append("'");
                text
            },
            Error::NoChildrenFound(element) => {
                let mut text = "No children matching predicate found in Element '".to_owned();
                text.append(element.as_str());
                text.append("'");
                text
            },
            Error::NoChildren(element, child) => {
                let mut text = "No children with name '".to_owned();
                text.append(child.as_str());
                text.append("' in Element '");
                text.append(element.as_str());
                text.append("'");
                text
            },
            Error::MultipleChildrenFound(element, count) => {
                let mut text = "Multiple children matching predicate found in Element '".to_owned();
                text.append(element.as_str());
                text.append("' (found ");
                text.append(decimal_text(*count).as_str());
                text.append(" elements)");
                text
            },
            Error::MultipleChildren(element, child, count) => {
                let mut text = "Multiple children with name '".to_owned();
                text.append(child.as_str());
                text.append("' in Element '");
                text.append(element.as_str());
                text.append("' (found ");
                text.append(decimal_text(*count).as_str());
                text.append(" elements)");
                text
            },
            Error::ParseError { element_name, attribute_name, value, .. } => {
                let mut text = "Failed to parse and convert the value '".to_owned();
                text.append(value.as_str());
                text.append("' of attribute '");
                text.append(attribute_name.as_str());
                text.append("' in element '");
                text.append(element_name.as_str());
                text.append("'");
                text
            },
        }
    }
}

} // verus!
