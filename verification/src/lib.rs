//! Finds the star systems of a tabular catalogue that lie within a given
//! distance of a reference system.
//!
//! The catalogue text is split into rows, each row is decoded into a
//! [`StarSystem`] or dropped, and the names of the systems whose measured
//! distance does not exceed the limit are listed in catalogue order.
//! Single-precision values are carried as their IEEE-754 bit patterns.

pub mod proximity;
pub mod record;
pub mod table;

pub use proximity::{
    home_system, name_if_within, nearby_names, within_range, Measured, DEFAULT_LIMIT,
};
pub use record::{assemble, decode_fields, locate, select_fields, RowFields, StarSystem};
pub use table::{keep_readable, make_table, read_table, Table, TableError};
