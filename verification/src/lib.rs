//! Typed filter expressions and SQL statements for a guest module, with the
//! text that each of them renders to stated and proved.

pub mod ddl;
pub mod gql;
pub mod sql;
