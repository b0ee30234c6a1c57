pub mod jh7100;
