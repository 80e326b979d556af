//! A type-directed, column-batched transport pipeline: typed cell values are
//! produced row by row from partitioned sources and consumed into bounded-size
//! Arrow record batches through a canonical type system.

pub mod arrow_api;
pub mod bigquery;
pub mod builders;
pub mod destination;
pub mod duckdb;
pub mod errors;
pub mod parse;
pub mod pipeline;
pub mod strutil;
pub mod typesys;
