//! Reading class files: the constant pool, attributes, fields, methods and the
//! class file as a whole.

pub mod constant_pool;
pub mod format;
pub mod attributes;
pub mod annotations;
pub mod attribute_info;
pub mod fields;
pub mod interfaces;
pub mod methods;
pub mod static_fields;
pub mod class_file;
pub mod loader;
