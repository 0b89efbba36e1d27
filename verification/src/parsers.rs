pub mod courses;
pub mod topic;
pub mod user;
