//! Zork++ is a build system for modern C++ projects: it turns a project
//! description into the compiler invocations that precompile the module
//! interface units of a project.
pub mod config_cli;
pub mod config_file;
pub mod utils;
pub mod compiler;
