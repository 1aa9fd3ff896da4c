//! Storage of RDF triples in a relational schema derived from the shape of each
//! triple, and planning of triple-pattern queries over that schema.

pub mod text;
pub mod type_part;
pub mod db_operation_cache;
pub mod element_type;
pub mod text_id;
pub mod uuid;
pub mod entity;
pub mod decimal;
pub mod date_time;
pub mod lat_lon;
pub mod entity_statement;
pub mod element;
pub mod database_table;
pub mod element_parse;
pub mod error;
pub mod parser;
pub mod app_state;
pub mod query_triples;
pub mod app_state_mysql_stdout;
pub mod database_wrapper;
pub mod laws;
