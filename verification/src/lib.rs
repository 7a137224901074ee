//! Reading the repository of installed application packages.
//!
//! The repository is kept in a hierarchical store of the operating system.
//! This crate holds everything about it that can be said without touching
//! the store: the wide strings that native calls take, the two kinds of
//! identity and their fields, which calls to make, in which order, and what
//! their answers mean. The calls themselves are made by whoever drives the
//! machines of [`repository`], [`attribute`] and [`install`].

pub mod attribute;
pub mod error;
pub mod family;
pub mod identity;
pub mod install;
pub mod package;
pub mod reg;
pub mod repository;
pub mod utf16;
pub mod wstring;

pub use error::Error;
pub use family::PackageFamilyName;
pub use package::PackageFullName;
pub use wstring::WString;
