//! Version 2 of the REST API: the resources, and the requests that fetch
//! and change them.

pub mod application_role;
pub mod attachment;
pub mod changelog;
pub mod comment;
pub mod component;
pub mod group;
pub mod history;
pub mod issue;
pub mod issue_link;
pub mod issue_link_type;
pub mod issue_type;
pub mod item;
pub mod pagination;
pub mod permission;
pub mod priority;
pub mod progress;
pub mod project;
pub mod resolution;
pub mod status;
pub mod status_category;
pub mod time_tracking;
pub mod user;
pub mod version;
pub mod vote;
pub mod watches;
pub mod worklog;

pub use crate::v2::application_role::{ApplicationRole, ApplicationRoleOptions};
pub use crate::v2::attachment::Attachment;
pub use crate::v2::changelog::Changelog;
pub use crate::v2::comment::{Comment, PaginatedComments};
pub use crate::v2::component::Component;
pub use crate::v2::group::{Group, GroupOptions};
pub use crate::v2::history::{History, HistoryItem};
pub use crate::v2::issue::{Issue, IssueExpand, IssueFieldOptions, IssueFields, IssuePropertyOptions, IssueUpdateHistory};
pub use crate::v2::issue_link::IssueLink;
pub use crate::v2::issue_link_type::IssueLinkType;
pub use crate::v2::issue_type::IssueType;
pub use crate::v2::item::Item;
pub use crate::v2::pagination::Pagination;
pub use crate::v2::permission::{MyPermission, MyPermissionCollection, MyPermissionKey, Permission, PermissionCollection};
pub use crate::v2::priority::Priority;
pub use crate::v2::progress::Progress;
pub use crate::v2::project::{Project, ProjectExpand};
pub use crate::v2::resolution::Resolution;
pub use crate::v2::status::Status;
pub use crate::v2::status_category::StatusCategory;
pub use crate::v2::time_tracking::TimeTracking;
pub use crate::v2::user::{User, UserExpand, UserOptions};
pub use crate::v2::version::Version;
pub use crate::v2::vote::Vote;
pub use crate::v2::watches::Watches;
pub use crate::v2::worklog::{PaginatedWorklog, Worklog};
