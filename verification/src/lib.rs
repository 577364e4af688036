//! Looks up cities in a table of population records.
//!
//! The table is comma-separated text with a header line and the columns
//! country, city, accented city name, region, population, latitude and
//! longitude. A search keeps, in the order of the table, the records whose
//! city is the one asked for and whose population is known.

pub mod cli;
pub mod error;
pub mod record;
pub mod report;
pub mod search;
pub mod table;
