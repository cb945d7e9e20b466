//! Decision logic of the workinabox application layer, with its contracts.
//!
//! Each use case of the backend loads aggregates, asks ports for outside work and saves
//! the result. What a use case decides on its own stands here: how it normalises text,
//! lays out a meeting, handles a transcript line, orders a listing, scopes a token,
//! drains the outbox, and configures a sandbox.

pub mod text;

pub mod authorization_service;
pub mod concurrency;
pub mod listing;
pub mod outbox_publisher;

pub mod agent_application_service;
pub mod meeting_application_service;
pub mod pull_request_application_service;
pub mod team_application_service;
pub mod user_application_service;
pub mod vm_application_service;

pub mod access_requests;
pub mod agent_requests;
pub mod board_requests;
pub mod create_meeting_request;
pub mod create_work_request;
pub mod messaging;
pub mod organization_requests;
pub mod pipeline_requests;
pub mod project_requests;
pub mod pull_request_requests;
pub mod repo_requests;
pub mod task_requests;
pub mod team_requests;
pub mod user_requests;
pub mod vm_requests;
pub mod vm_runtime;
