//! Record keeping for project-outsourcing management: projects, employees,
//! assignment history, special attendance and calendar exceptions, each kept
//! in an in-memory collection store with exact create / list / get / update /
//! delete contracts.

pub mod attendance;
pub mod date;
pub mod employee;
pub mod employee_change;
pub mod project;
pub mod query;
pub mod response;
pub mod special_date;
pub mod store;
pub mod text;
