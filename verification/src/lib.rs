//! A Java virtual machine core: class-file decoding, the constant pool and
//! attribute tables, the class loader with its method and field resolution and
//! the order of class initialization, the object heap with arrays, strings and
//! class objects, frames with their operand stacks, the integer, array, object,
//! exception, switch, constant and call instructions of the interpreter, static
//! fields, the table that routes every native method to its routine, those
//! routines among them that this library carries out itself (the others are
//! handed to the host), and the decisions of method handles: what a direct
//! handle calls, and what each name of a lambda form asks for.

pub mod opcode;
pub mod utils;
pub mod text;
pub mod errors;
pub mod types;
pub mod frame;
pub mod class_loader;
pub mod jvm;
pub mod constants;
pub mod nativememory;
pub mod lambdamanager;
pub mod modulemanager;
pub mod instance;
pub mod heap;
pub mod natives;
pub mod arrays;
pub mod switch;
pub mod assign;
pub mod objects;
pub mod heapops;
pub mod exceptions;
pub mod ldc;
pub mod multiarray;
pub mod floatbits;
pub mod invoke;
pub mod calls;
pub mod statics;
pub mod native_calls;
pub mod native_classes;
pub mod member_info;
pub mod method_handles;
pub mod lambda_forms;
pub mod vm_properties;
pub mod instruction_laws;
