//! An object-relational layer whose key-value backend re-interprets
//! parameterized SQL against a store that only knows whole values under
//! string keys.

pub mod assoc;
pub mod compress;
pub mod ddl;
pub mod error;
pub mod eval;
pub mod execute;
pub mod info;
pub mod json;
pub mod keys;
pub mod model;
pub mod mysql;
pub mod registry;
pub mod relation;
pub mod select;
pub mod sql;
pub mod sqlite;
pub mod sqlite_pool;
pub mod strings;
pub mod value;
