//! The terminal front end: its state, its decisions and its text.

pub mod app;
pub mod clock_laws;
pub mod demo;
pub mod detail;
pub mod dispatch;
pub mod events;
pub mod input_laws;
pub mod keys;
pub mod legs;
pub mod lines;
pub mod order_laws;
pub mod orders;
pub mod panels;
pub mod reload;
pub mod rolls;
pub mod safety;
pub mod schedule;
pub mod screen_laws;
pub mod ui;
pub mod wording_laws;
pub mod zerodte;
