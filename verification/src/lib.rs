use vstd::prelude::*;

pub mod decode;
pub mod index;
pub mod listing;
pub mod prices;
pub mod scanner;
pub mod text;
pub mod tier;
pub mod time;
pub mod valuation;
