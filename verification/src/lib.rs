//! Extension traits for [`minidom::Element`].
//!
//! - [`OnlyChildElementExt`] gets the one and only child of an element that
//!   satisfies a predicate or bears a name, and tells "none" from "several".
//! - [`AttributeElementExt`] gets an attribute of an element, converted
//!   into the type the caller asks for.
//!
//! Both fail with an [`Error`] that says what was looked for and where.
//!
//! The contracts of the two traits speak of an element through
//! [`NodeView`]: its name, the text of its attributes, and its child
//! elements in document order.

pub mod attribute;
pub mod element;
pub mod error;
pub mod only_child;
pub mod text;

pub use attribute::AttributeElementExt;
pub use element::NodeView;
pub use error::{Error, ErrorView};
pub use only_child::OnlyChildElementExt;
