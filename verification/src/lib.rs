//! Verified core of a ticket-and-diary sharing service: calendar arithmetic,
//! settings assembly, the bookkeeping rules of the ticket and diary services
//! and the transactions that apply them, the query descriptions, error
//! mapping, test fixtures and the database migration plans.

mod clock;

pub mod calendar;
pub mod diary_api;
pub mod diary_flow;
pub mod diary_query;
pub mod diary_store;
pub mod error_responses;
pub mod factory;
pub mod migration;
pub mod query;
pub mod records;
pub mod settings;
pub mod text;
pub mod ticket_flow;
pub mod ticket_query;
pub mod ticket_service;
pub mod user_relations;
pub mod web_push;
pub mod wishes;
