pub mod system_id_table;
pub mod tickrate;
