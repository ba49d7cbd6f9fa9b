//! A trading engine for two natural-gas funds that move against each other.
//!
//! Three signals (temperature, gas in storage, storms) are blended into one
//! number; the number decides whether to buy the fund, to buy its inverse or
//! to hold; and the decision is carried out at a brokerage so that never both
//! funds are held.
//!
//! The library does no input or output. Whoever uses it sends the requests
//! it asks for and hands back what came of them:
//!
//! - [`broker`] maps each operation on the brokerage to its request and each
//!   reply to what it means;
//! - [`price`], [`orders`], [`reconcile`], [`portfolio`] and [`cycle`] are
//!   the operations that take several round trips, each as a state and a
//!   step function ([`machine`]);
//! - [`simulation`] states what holds of every run of a reconciliation;
//! - [`signals`] blends and decides; [`weather`], [`eia`] and [`noaa`] make
//!   the three signals from the feeds' replies;
//! - [`decimal`], [`text`], [`json`] and [`calendar`] are the groundwork.

pub mod broker;
pub mod calendar;
pub mod config;
pub mod cycle;
pub mod decimal;
pub mod eia;
pub mod feed;
pub mod json;
pub mod machine;
pub mod model;
pub mod noaa;
pub mod orders;
pub mod portfolio;
pub mod price;
pub mod reconcile;
pub mod signals;
pub mod simulation;
pub mod text;
pub mod weather;
