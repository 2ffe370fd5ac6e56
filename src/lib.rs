//! Memory introspection and split-trigger logic for an auto-splitter.
//!
//! The library reads a foreign process's memory through the [`memory::ProcessMemory`]
//! capability, locates root structures by byte signatures, chases pointer chains,
//! decodes interned flag names and turns watched values into timer actions.
pub mod memory;
pub mod signature;
pub mod deep_pointer;
pub mod watcher;
pub mod flag_name;
pub mod roots;
pub mod text;
pub mod splitter;
pub mod tracker;
