//! Core of a driver for the Melexis MLX9064x family of thermal-array sensors: the
//! error-correcting code of the calibration memory, the decoding of that memory into
//! calibration coefficients, the pixel geometry of the MLX90641 and MLX90642, and the
//! decisions of the frame-polling loop.
pub mod camera;
pub mod driver;
pub mod eeprom;
pub mod error;
pub mod hamming;
pub mod mlx90642;
pub mod register;
