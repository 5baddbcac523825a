//! Verified core of the report designer: the login service's decisions, the
//! HTTP answers of its routes, the state of the desktop pages, and the calendar
//! arithmetic behind the dates that the service hands out.
pub mod calendar;
pub mod dates;
pub mod generic_services;
pub mod service;
pub mod login;
pub mod designer;
