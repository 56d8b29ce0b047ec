//! Typestate bindings for the graphics driver's binding points.
//!
//! A binding point (a slot) is a token that must be borrowed exclusively to
//! build a target; binding an object through the target yields a handle that
//! offers only the operations valid for that object and that target. Every
//! driver call goes through [`driver::Gl`], which keeps the sequence of calls
//! made so far as its model: the contracts of this crate say exactly which
//! calls each operation makes.

pub mod diagnostic;
pub mod driver;
pub mod framebuffer;
pub mod id;
pub mod layout;
pub mod mock;
pub mod obj;
pub mod palette;
pub mod program;
pub mod renderbuffer;
pub mod shader;
pub mod texture;
pub mod vertex_array;
pub mod vertex_buffer;
pub mod viewport;
