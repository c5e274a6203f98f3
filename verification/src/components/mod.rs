pub mod chart;
pub mod hardware_card;
pub mod header;
pub mod sensors;
