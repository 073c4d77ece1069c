pub mod make;
