//! Generation of the code fragments that declare and access a Qt-style
//! property: the property declaration, its getter, its setter and its change
//! notifier, from a type name, a property name and three switches.

pub mod camel;
pub mod laws;
pub mod property;

pub use property::{PropertySpec, QProperty};
