//! Verified core of a desktop media companion.
//!
//! The library decides; its caller acts. Nothing here starts a process,
//! touches a file or opens a connection: each part takes what the caller
//! has learned and answers with what to do next, and every answer is
//! stated in a contract that is proved.
//!
//! The download side: [`classify`] sorts a URL into a category,
//! [`format`] turns a hint into a format selection, [`metadata`] and
//! [`download`] build the downloader's argument vectors and read its
//! metadata answer, [`progress`] decides what becomes of each line of
//! output, and [`supervisor`] holds the single-flight guard around the
//! steps of one job.
//!
//! The provisioning side: [`locator`] says where the two tools are
//! expected and what a probe means, [`installer`] runs the package
//! pipeline, and [`fetcher`] runs the download, flattening and cleanup of
//! the tools' files.
//!
//! The watch-along side: [`watchalong`] reads and writes the two-line
//! file, and [`timer`] keeps its clock.
//!
//! [`text`], [`numbers`], [`paths`] and [`process`] are shared ground.

pub mod classify;
pub mod download;
pub mod fetcher;
pub mod format;
pub mod installer;
pub mod locator;
pub mod metadata;
pub mod numbers;
pub mod paths;
pub mod process;
pub mod progress;
pub mod supervisor;
pub mod text;
pub mod timer;
pub mod watchalong;
