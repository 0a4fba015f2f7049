//! Verified examples of shared and exclusive access to a growable text buffer.
//!
//! A buffer has one owner. Others reach it through views that own nothing: a
//! shared view reads, an exclusive view reads and writes. [`buffer`] holds the
//! operations on a buffer, with contracts over the sequence of its characters;
//! [`views`] shows in which order views of one buffer may be taken.

pub mod buffer;
pub mod views;
