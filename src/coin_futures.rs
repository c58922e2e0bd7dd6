pub mod general;
