//! Presentation and editing of values, derived from the shape of their type.
//!
//! A type is described once by a [`shape::Shape`]: a primitive, a container,
//! a record of fields or a sum of variants, with the customizations its
//! markers ask for ([`attrs`]). From that description the library shows a
//! value read-only ([`layout::present`]), lays out its editor
//! ([`layout::editor`]) and applies what the user did to one of the editor's
//! controls ([`edit::edit`]). The host toolkit draws the widgets and reports
//! the events.

pub mod attrs;
pub mod convert;
pub mod demo;
pub mod edit;
pub mod laws;
pub mod layout;
pub mod shape;
pub mod text;
pub mod value;
