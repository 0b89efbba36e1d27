//! An authenticated client for a single-sign-on-protected academic portal.
//!
//! The library holds everything the client decides and computes: the login
//! state machine and its checks, the pacing and identity-rotation policy of
//! the request dispatcher, the extraction of typed domain records from
//! server-rendered HTML, the derivation of submission status, the academic
//! period encoding, and the cache's paths, framing and expiry rule. What only
//! the outside world can do — HTTP, the file system, the clock, randomness —
//! is taken through thin trusted boundaries or left to the caller.

pub mod auth;
pub mod cache;
pub mod dates;
pub mod dispatch;
pub mod error;
pub mod models;
pub mod parsers;
pub mod routes;
pub mod scrape;
pub mod text;

pub use auth::{AuthEvent, AuthState, SessionCookies};
pub use cache::{CacheBackend, FileCache, MemoryCache};
pub use dispatch::CallPlan;
pub use error::ScraperError;
pub use models::{
    Answer, Content, Course, DelayConfig, DetailCourse, Period, Rps, Semester, Task, TaskStatus,
    TopicDetail, TopicInfo, User,
};
pub use parsers::user::parse_user_from_html;
