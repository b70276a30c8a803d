pub mod collection;
pub mod geometry;
pub mod integrity;
pub mod mode;
pub mod naming;
pub mod object;
pub mod project;
pub mod resolve;
pub mod state;
pub mod store;
pub mod surface;
pub mod types;
