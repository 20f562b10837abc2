//! The argument and method rules of the savefile ABI, as the derive macro
//! applies them to the methods of an exported trait: which argument types are
//! accepted and how each one travels across the ABI, the names of the helper
//! items the macro emits, and the size of the buffers it reserves.
pub mod classify;
pub mod closure;
pub mod laws;
pub mod method;
pub mod model;
pub mod text;
