//! A small convenience layer over an embedded SQL engine: it opens a
//! connection and materializes query results as rows of column-name /
//! rendered-text pairs, consumed once, front to back.

pub mod db;
pub mod engine;
pub mod laws;
pub mod num;
pub mod row;
pub mod value;

pub use db::Database;
pub use db::materialize;
pub use engine::open;
pub use engine::open_in_memory;
pub use num::i64_to_dec;
pub use num::u64_to_dec;
pub use row::Row;
pub use value::CellValue;
pub use value::render_cell;
