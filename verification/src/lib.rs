//! A 2D vector-graphics rendering backend for an OpenGL-ES-class device, written as a
//! pure core: every operation turns its input into a list of [`gl::GlCommand`] values and
//! a new backend state. Whoever owns the GPU context plays the list back in order.
//!
//! The core holds no floating-point value. A quantity it must compare or compute is kept
//! as an exact fixed-point integer; a quantity it only passes on is kept by its 32 bits.
//!
//! - [`gl`] is the vocabulary of driver calls.
//! - [`shader`] knows the three programs, [`mesh`] the vertex layout and the upload of a
//!   draw, [`gradient`] the table of stops a gradient fill hands to its shader.
//! - [`mask`] and [`blend`] are the two state machines: nested stencil masks and the
//!   stack of blend modes.
//! - [`render`] resolves one draw to the calls it needs, leaving out what the GPU
//!   already holds.
//! - [`backend`] is the backend itself with its frame controller; [`bitmaps`] and
//!   [`shapes`] are its two registries, on top of [`arena`]; [`executor`] carries out
//!   display lists, which [`commands`] defines.
//! - [`draw_calls`] and [`holds`] prove what ties registration, rendering and release
//!   together.
//! - [`context3d`] makes the objects of a 3D context; [`error`] names what can fail;
//!   [`bytes`], [`twips`] and [`text`] hold what is taken on trust from outside.
//! - [`input`], [`log`] and [`navigator`] are what the frontend of a player decides.

#![allow(unused_imports)]

pub mod arena;
pub mod backend;
pub mod bitmaps;
pub mod blend;
pub mod bytes;
pub mod commands;
pub mod context3d;
pub mod draw_calls;
pub mod error;
pub mod executor;
pub mod gl;
pub mod gradient;
pub mod holds;
pub mod input;
pub mod log;
pub mod mask;
pub mod mesh;
pub mod navigator;
pub mod render;
pub mod shader;
pub mod shapes;
pub mod text;
pub mod twips;
