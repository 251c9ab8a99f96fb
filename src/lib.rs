//! Harvesting of item attributes from wiki pages: token extraction,
//! record assembly, detail and index page handling, and the tabular layout.

pub mod builder;
pub mod index;
pub mod page;
pub mod record;
pub mod table;
pub mod text;
pub mod tokens;
