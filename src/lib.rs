//! A small SQL statement composer.
//!
//! Builders accumulate projection columns, joins, predicates, ordering and
//! pagination, and render them into SQL text together with the ordered list
//! of values to bind to the placeholders of that text.
pub mod assignment;
pub mod bind;
pub mod builder;
pub mod condition;
pub mod delete;
pub mod delete_item;
pub mod fragment;
pub mod insert;
pub mod insert_item;
pub mod placeholder;
pub mod select;
pub mod select_item;
pub mod statement;
pub mod table;
pub mod update;
pub mod update_item;
pub mod where_item;

pub use bind::Bind;
pub use builder::Builder;
pub use delete::Delete;
pub use insert::Insert;
pub use select::Select;
pub use update::Update;
