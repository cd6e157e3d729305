//! Audience resolution and view dispatch for a server-rendered portal.
//!
//! A request is classified by device and by load mode, joined with the
//! signed-in principal if there is one, and resolved to the content variant
//! that is to be rendered. Page views are counted once per statistics key.
//! Every decision is a function on plain values with a proved contract; the
//! HTTP, session, persistence and templating layers call in from outside.
//!
//! - [`request`]: device class and load mode of a request.
//! - [`access`]: identities, authorization tiers and gates.
//! - [`variant`]: the request context and the selector of the content variant.
//! - [`pages`], [`blogs`]: what each page answers.
//! - [`stats`]: the counter of page views, as a machine that names the store
//!   operation to come; [`table`]: the statistics table in memory;
//!   [`concurrent`]: many requests counting at the same time.
//! - [`upload`]: stored files and the category form.
//! - [`records`]: records of the portal's tables before they are stored.
//! - [`response`]: statuses of failed requests.
//! - [`text`], [`calendar`]: character sequences and the day of a time.

pub mod access;
pub mod blogs;
pub mod calendar;
pub mod concurrent;
pub mod pages;
pub mod records;
pub mod request;
pub mod response;
pub mod stats;
pub mod table;
pub mod text;
pub mod upload;
pub mod variant;
