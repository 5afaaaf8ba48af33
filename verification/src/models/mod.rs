pub mod customer;
pub mod games;
