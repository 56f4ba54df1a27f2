pub mod sunshine;
