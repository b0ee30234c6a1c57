pub mod ux00;
