#![verifier::loop_isolation(false)]
pub mod text;
pub mod types;
pub mod resources;
pub mod analyzers;
pub mod names;
pub mod cli;
pub mod yaml;
pub mod manifest;
pub mod report;
pub mod mustgather;
pub mod kinds;
pub mod order;
pub mod gather;
pub mod site;
pub mod registry;
