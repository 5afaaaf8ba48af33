pub mod id_generator;
pub mod json_read;
pub mod password_helper;
pub mod text;
