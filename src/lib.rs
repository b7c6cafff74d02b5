pub mod stage;
pub mod text;
pub mod yaml;
pub mod schema;
pub mod config;
pub mod defaults;
pub mod template;
pub mod generate;
pub mod lemmas;
