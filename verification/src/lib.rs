//! The commit side of a template language: the values that a template can
//! name on a commit, how keywords and method calls resolve to them, and what
//! they come to when a commit is rendered.
//!
//! Resolving and rendering are apart. Resolving a name builds a description of
//! a value, a property, and reads nothing of the repository. Rendering asks
//! for the value of a property for one commit, and reads of the repository only
//! what that value needs.
//!
//! - [`ids`]: commit and change ids, and how they are written.
//! - [`repo`]: the repository as the templater reads it.
//! - [`ref_names`]: branch, tag and Git ref names, and the index from a commit
//!   to the names that point to it.
//! - [`cache`]: the indexes of one session, each built at its first use.
//! - [`syntax`]: calls, arguments and errors.
//! - [`property`]: the kinds of values and the conversions between them.
//! - [`extension`]: what a host can add to the language.
//! - [`language`]: the resolver.
//! - [`keywords`] and [`eval`]: the values of properties.
//! - [`template`]: how values are written out.
//! - [`hex_counter`]: an extension, as an example.
//! - [`text`]: texts.

pub mod text;
pub mod ids;
pub mod repo;
pub mod ref_names;
pub mod cache;
pub mod syntax;
pub mod property;
pub mod extension;
pub mod language;
pub mod keywords;
pub mod template;
pub mod eval;
pub mod hex_counter;
