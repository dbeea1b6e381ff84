//! A minimal native-extension library: one exported greeting function and a
//! model of the module descriptor through which a host runtime learns of it.

pub mod greeting;
pub mod registration;
