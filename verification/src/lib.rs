//! A small interactive camera demo, modelled exactly.
//!
//! The library keeps the state that an interactive front end mutates once
//! per scheduler tick: a camera transform driven by held keys, and a text
//! readout that mirrors the cursor position. Both are held as plain values
//! (whole translation units, zoom-tick counts, tenth-radian rotation steps,
//! character sequences), so every per-tick rule is stated and checked
//! exactly; a front end turns the model into whatever its renderer needs.

pub mod camera;
pub mod keys;
pub mod text;
