pub mod i82371eb;
