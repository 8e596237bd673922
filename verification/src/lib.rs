//! A small issue tracker: projects with members, tickets that move through a
//! fixed workflow, repositories that store them, and the use cases that
//! assign tickets to project members.

pub mod ids;
pub mod text;
pub mod ticket;
pub mod project;
pub mod repository;
pub mod application;
pub mod response;
