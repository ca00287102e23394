//! A small stack-based bytecode machine with an operand stack and named
//! variables, whose instruction semantics are stated as spec functions and
//! proved of the executable interpreter, and a newline counter for text chunks.

pub mod interp;
pub mod lemmas;
pub mod line_count;
