//! Device setup rules of a renderer: which GPU features and limits a
//! rendering profile needs, how an adapter is checked against them, and how
//! the adapter to use is chosen among those the system offers.
pub mod error;
pub mod features;
pub mod limits;
pub mod adapter;
pub mod compute;
