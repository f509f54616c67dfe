//! Logic of the image signing tool.

pub mod certificates;
pub mod config;
pub mod elf;
pub mod hex;
pub mod mbi;
pub mod objcopy;
pub mod paths;
pub mod run;
pub mod sign;
pub mod sign_flow;
pub mod text;
