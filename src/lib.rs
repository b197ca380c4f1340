//! Time-locked encryption front end: lock-date validation, protocol-version
//! selection, share-link construction and the encrypt / decrypt flows around
//! the snailcrypt client library.

pub mod version;
pub mod lockdate;
pub mod share_link;
pub mod encrypt;
pub mod decrypt;
pub mod mode;
pub mod lemmas;
