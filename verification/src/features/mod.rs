pub mod visuals;
