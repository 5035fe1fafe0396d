//! Validation of Romanian company identification numbers (CUI), together with
//! the plain-value replies of the small service built around it.

pub mod clock;
pub mod cui;
pub mod service;
