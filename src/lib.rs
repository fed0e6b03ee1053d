//! Cells of a single-item market: the capabilities a cell offers to trade,
//! pairwise price formation, classification of a cell, and the choice of a
//! counterparty in a population.

pub mod price;
pub mod single_item;
pub mod basic_cell;
