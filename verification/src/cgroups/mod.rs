//! Resource limits through control groups, for both layouts of the cgroup
//! file system.

pub mod cgroup_manager;
pub mod subsystems;
