//! Decision logic for driving a business-registry web portal: validated search
//! criteria, the search and payment workflows as step machines, the retry
//! policy around a whole browser session, and the text-level rules that turn
//! scraped page fragments into records.

pub mod config;
pub mod criteria;
pub mod browser;
pub mod search;
pub mod payment;
pub mod retry;
pub mod extract;
mod dom;
pub mod corporation;
