//! Triage of issue-tracker records: raw issues are normalized into flat
//! records, classified into review buckets, and rendered as Markdown review
//! documents.

pub mod classify;
pub mod compiler_tracking_issue;
pub mod config;
pub mod issue_metadata;
pub mod markdown;
pub mod p_high;
pub mod text;
pub mod timestamp;
