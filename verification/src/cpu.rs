pub mod execute;
pub mod fetch;
