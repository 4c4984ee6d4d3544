//! Verified core of the Koro issue-tracker API: identifiers, text rules,
//! query construction and the decision logic of each request flow.

pub mod error;
pub mod text;
pub mod numbers;
pub mod issue_key;
pub mod uploads;
pub mod slug;
pub mod workflow;
pub mod workflow_flows;
pub mod workflow_edits;
pub mod paging;
pub mod sql;
pub mod my_issues;
pub mod my_issues_flow;
pub mod issue_create;
pub mod ids;
pub mod auth;
pub mod auth_flows;
pub mod accounts;
pub mod invites;
pub mod comments;
pub mod health;
pub mod issue_lists;
pub mod board;
pub mod issue_status;
pub mod issue_edit;
pub mod issue_view;
pub mod relations;
pub mod relation_flows;
pub mod events;
pub mod projects;
pub mod project_flows;
