//! What the queries of this crate read of a [`minidom::Element`]: its name,
//! the text of its attributes, and its child elements.
//!
//! An element is opaque to the verifier. The three spec functions below
//! stand for what its accessors return, and the contracts in this file say
//! so of each accessor. Those contracts are taken from minidom's source and
//! are not proved.

use minidom::{Children, Element};
use vstd::prelude::*;

verus! {

/// [`minidom::Element`]: an element of a document, with nothing known of
/// what it holds but through the accessors specified below.
#[verifier::external_type_specification]
#[verifier::external_body]
pub struct ExElement(Element);

/// [`minidom::Children`]: the iterator over the child elements of an
/// element, with nothing known of it but through [`children_left`].
#[verifier::external_type_specification]
#[verifier::external_body]
pub struct ExChildren<'a>(Children<'a>);

/// The name of an element, as [`Element::name`] returns it.
pub uninterp spec fn element_name(element: Element) -> Seq<char>;

/// The text of the attribute `name` of an element, as [`Element::attr`]
/// returns it: `None` where the element has no attribute of that name.
pub uninterp spec fn element_attr(element: Element, name: Seq<char>) -> Option<Seq<char>>;

/// The child elements of an element in document order, as the iterator of
/// [`Element::children`] hands them out. Text between them is no child.
pub uninterp spec fn element_children(element: Element) -> Seq<Element>;

/// The child elements that an iterator has yet to hand out, in the order
/// in which it will.
pub uninterp spec fn children_left(children: Children<'_>) -> Seq<Element>;

/// [`Element::name`] borrows the element's name.
pub assume_specification[ Element::name ](element: &Element) -> (name: &str)
    ensures
        name@ == element_name(*element),
;

/// [`Element::attr`] looks `name` up among the element's attributes and
/// borrows the text found.
pub assume_specification<'a>[ Element::attr ](element: &'a Element, name: &str) -> (text: Option<
    &'a str,
>)
    ensures
        match text {
            Some(found) => element_attr(*element, name@) == Some(found@),
            None => element_attr(*element, name@) is None,
        },
;

/// [`Element::children`] starts an iterator that has all the child elements
/// yet to hand out. An element keeps its child nodes in a `Vec`, so they
/// are at most `usize::MAX`.
pub assume_specification[ Element::children ](element: &Element) -> (children: Children<'_>)
    ensures
        children_left(children) == element_children(*element),
        children_left(children).len() <= usize::MAX,
;

/// The `next` of [`minidom::Children`] hands out the first child element
/// that is left and leaves those behind it, or returns `None` where none is
/// left.
#[verifier::external_body]
pub(crate) fn next_child<'a>(children: &mut Children<'a>) -> (child: Option<&'a Element>)
    ensures
        match child {
            Some(first) => {
                &&& children_left(*old(children)).len() > 0
                &&& *first == children_left(*old(children)).first()
                &&& children_left(*final(children)) == children_left(*old(children)).drop_first()
            },
            None => {
                &&& children_left(*old(children)).len() == 0
                &&& children_left(*final(children)).len() == 0
            },
        },
{
    children.next()
}

/// A node of the tree as the contracts of the queries see it.
pub trait NodeView: Sized {
    /// The node's name.
    spec fn name_view(&self) -> Seq<char>;

    /// The text of the attribute `name`, or `None` where the node has no
    /// attribute of that name.
    spec fn attr_view(&self, name: Seq<char>) -> Option<Seq<char>>;

    /// The node's direct children, in document order.
    spec fn children_view(&self) -> Seq<Self>;
}

impl NodeView for Element {
    open spec fn name_view(&self) -> Seq<char> {
        element_name(*self)
    }

    open spec fn attr_view(&self, name: Seq<char>) -> Option<Seq<char>> {
        element_attr(*self, name)
    }

    open spec fn children_view(&self) -> Seq<Element> {
        element_children(*self)
    }
}

} // verus!
