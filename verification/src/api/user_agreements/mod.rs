pub mod v1;
