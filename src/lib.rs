pub mod rnd;
pub mod gates;
