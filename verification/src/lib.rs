//! Request handling logic of the TownLink server: the SQL statements it sends,
//! the bearer-token checks that guard its routes, the social login flow and the
//! answers each route gives.

pub mod text;
pub mod timestamp;
pub mod models;
pub mod sql;
pub mod routes;
pub mod auth;
pub mod social;
pub mod login;
pub mod database;
