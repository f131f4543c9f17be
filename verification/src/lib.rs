//! Content discovery engine: recursive file enumeration under a project
//! root, include/exclude glob filtering, semantic classification of files
//! by extension, and a live filesystem watch that bridges OS change
//! notifications into a typed, bounded event channel.

pub mod file_type;
pub mod paths;
pub mod patterns;
pub mod scanner;
pub mod watcher;
pub mod laws;
pub mod tailwind;
