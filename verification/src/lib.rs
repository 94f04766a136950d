//! Event management for 蓮華: paging, the event domain, its validation rules
//! and the decisions that the web front end makes around them.

pub mod clock;
pub mod config;
pub mod event;
pub mod http;
pub mod modeling;
pub mod paging;
pub mod presenter;
pub mod repository;
pub mod text;
pub mod usecase;
pub mod views;
