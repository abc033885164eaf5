//! Extraction of an attribute's text, converted into a type of the
//! caller's choice.

use crate::element::NodeView;
use crate::error::{Error, ErrorView};
use anyhow::Error as Source;
use minidom::Element;
use std::str::FromStr;
use vstd::prelude::*;

verus! {

/// Converts `text` with [`str::parse`], which leaves the conversion to
/// `F`'s implementation of [`FromStr`], and hands what a failed conversion
/// reported to [`anyhow::Error`]'s `From`. Nothing is claimed of the result:
/// it is for `F`'s implementation to say which texts it accepts.
#[verifier::external_body]
fn parse_text<F>(text: &str) -> (converted: Result<F, Source>) where
    F: FromStr,
    F::Err: std::error::Error + Send + Sync + 'static,
{
    text.parse::<F>().map_err(Source::from)
}

/// The outcome of extracting an attribute whose text `value` was converted
/// with the result `converted`: the converted value, or a
/// [`Error::ParseError`] that carries the text as it was.
pub fn converted_attribute<F>(
    element_name: &str,
    attribute_name: &str,
    value: &str,
    converted: Result<F, Source>,
) -> (extracted: Result<F, Error>)
    ensures
        match converted {
            Ok(parsed) => extracted == Ok::<F, Error>(parsed),
            Err(source) => extracted matches Err(error) && error@ == (ErrorView::ParseError {
                element_name: element_name@,
                attribute_name: attribute_name@,
                value: value@,
                source,
            }),
        },
{
    match converted {
        Ok(parsed) => Ok(parsed),
        Err(source) => Err(
            Error::ParseError {
                element_name: element_name.to_owned(),
                attribute_name: attribute_name.to_owned(),
                value: value.to_owned(),
                source,
            },
        ),
    }
}

/// Get an attribute from an element.
pub trait AttributeElementExt: NodeView {
    /// Tries to get the attribute `attr_name`, converted into `F`.
    ///
    /// The type of the value is the caller's choice among the types that
    /// can be parsed from `&str`. An element without that attribute gives
    /// [`Error::AttributeNotFound`]. Which texts convert is for `F` to say;
    /// where the text does not, the error is an [`Error::ParseError`] with
    /// the element's name, the attribute's name and the text as it stands
    /// in the element.
    fn try_attribute<F>(&self, attr_name: &str) -> (extracted: Result<F, Error>) where
        F: FromStr,
        F::Err: std::error::Error + Send + Sync + 'static,
        ensures
            match self.attr_view(attr_name@) {
                None => extracted matches Err(error) && error@ == ErrorView::AttributeNotFound(
                    self.name_view(),
                    attr_name@,
                ),
                Some(text) => extracted matches Err(error) ==> error@.is_parse_error_of(
                    self.name_view(),
                    attr_name@,
                    text,
                ),
            },
    ;

    /// Gets the attribute `attr_name`, converted into `F`, if the element
    /// has it and its text can be converted.
    ///
    /// This is what [`try_attribute`](Self::try_attribute) returns, with
    /// the error left out.
    fn attribute<F>(&self, attr_name: &str) -> (extracted: Option<F>) where
        F: FromStr,
        F::Err: std::error::Error + Send + Sync + 'static,
        ensures
            self.attr_view(attr_name@) is None ==> extracted is None,
            exists|tried: Result<F, Error>|
                call_ensures(Self::try_attribute::<F>, (self, attr_name), tried) && extracted
                    == tried.ok(),
    {
        self.try_attribute(attr_name).ok()
    }
}

impl AttributeElementExt for Element {
    /// Gives access to an attribute's value of an XML element, such as the
    /// value of `id` in `<tag id="value" />`.
    fn try_attribute<F>(&self, attr_name: &str) -> (extracted: Result<F, Error>) where
        F: FromStr,
        F::Err: std::error::Error + Send + Sync + 'static,
    {
        match self.attr(attr_name) {
            None => Err(Error::AttributeNotFound(self.name().to_owned(), attr_name.to_owned())),
            Some(value) => {
                converted_attribute(self.name(), attr_name, value, parse_text::<F>(value))
            },
        }
    }
}

} // verus!
