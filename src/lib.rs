//! Packages a directory of static files as an application of a serverless
//! WebAssembly platform: collects the files, plans the platform tool's calls, and
//! keeps the deployed application's name in a small metadata record.
pub mod assets;
pub mod deploy;
pub mod metadata;
