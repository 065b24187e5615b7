//! A small scripting language: lexer, Pratt parser and evaluator.
//!
//! Source text becomes tokens ([`lexer`]), tokens become syntax trees, one
//! statement at a time ([`parser`]), and trees are evaluated by a machine
//! that takes one step per call ([`interpreter`]). The language has
//! variables, arithmetic, comparisons, conditionals, loops, blocks and
//! functions that see their parameters and nothing else.
//!
//! Each stage is specified by functions on mathematical values: [`scan`]
//! for the lexer, [`grammar`] for the parser and [`machine`] for the
//! interpreter. The executable code is proved to compute what they say, and
//! [`laws`] holds what follows from them.
//!
//! Numbers are doubles. The library carries them as bit patterns and leaves
//! reading, arithmetic, comparison and output to its host: a step of the
//! machine yields an [`interpreter::Action`], the host performs it and hands
//! the answer to the next step as a [`machine::Event`]. A loop that never
//! ends is therefore the host's loop, and the depth of calls is bounded by
//! memory alone.

pub mod diagnostic;
pub mod grammar;
pub mod interpreter;
pub mod laws;
pub mod lexer;
pub mod machine;
pub mod parser;
pub mod scan;
pub mod syntax;
pub mod text;
pub mod token;
pub mod value;

pub use interpreter::Interpreter;
pub use lexer::Lexer;
pub use lexer::TokenKind;
pub use parser::Op;
pub use parser::Parser;
pub use parser::S;
