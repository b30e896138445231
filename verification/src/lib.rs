//! A small form library: an email, a date range and a repository link are
//! validated in a fixed order, and a submission either produces a
//! confirmation message or is handed to an external report generator whose
//! outcome is turned into the text shown to the user.

pub mod email;
pub mod form;
pub mod link;
pub mod report;
pub mod submit;
pub mod validate;
