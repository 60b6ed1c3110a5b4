mod slot;
mod no_inline_drop;
mod forward;
mod step;
pub mod laws;

pub use no_inline_drop::NoInlineDrop;
