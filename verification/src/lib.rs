//! Verified core of the `gb` GitBucket command-line client.
pub mod error;
pub mod text;
pub mod weburl;
pub mod api_url;
pub mod api_command;
pub mod common;
pub mod label;
pub mod due_date;
pub mod models;
pub mod pull_request;
pub mod pr_git;
pub mod repo;
pub mod issue;
pub mod web_session;
pub mod link;
pub mod milestone;
pub mod entries;
pub mod config;
pub mod auth;
pub mod laws;
pub mod report;
pub mod cli_args;
pub mod pr_view;
pub mod web_forms;
pub mod outcomes;
pub mod repo_view;
