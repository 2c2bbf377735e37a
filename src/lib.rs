//! Generation of actix message handlers from the methods of an `impl` block.
//!
//! Each method of the form `fn name(&self, msg: M, ctx: C) -> R` becomes an
//! `actix::Handler<M>` impl that delegates to it, and the block as a whole
//! gets a client trait with one send method per handler, implemented for
//! `::actix::Addr` of the type. The library works on a plain model of the
//! block's syntax and produces the generated items as source text.

pub mod expand_addr;
pub mod expand_impl_handlers;
pub mod expand_method_handlers;
pub mod options;
