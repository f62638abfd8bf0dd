//! An ordering session: a menu of drinks, a cart, placed orders and the
//! people who order them, driven by abstract commands and a frame tick.

pub mod app;
pub mod laws;
pub mod order;
pub mod order_item;
pub mod storage;
