//! Static import/export dependency scanning for ECMAScript module source
//! text: the source is handed to an outside parser, the top-level statement
//! list is walked exactly once, and every declaration that carries a module
//! specifier is reported with its literal specifier text, its kind (import
//! or export) and its source position (1-based line, 0-based UTF-16 column).
//! A rewriting mode additionally replaces prefix-marked specifiers in the
//! parsed items, after the report has been taken from the source as written.

pub mod laws;
pub mod model;
pub mod parse;
pub mod position;
pub mod scan;

pub use model::ImportDescriptor;
pub use model::ImportKind;
pub use model::RawItem;
pub use scan::scan_source;
pub use scan::scan_source_rewrite;
