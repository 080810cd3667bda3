//! A verified compiler backend for a small expression language with
//! compile-time constants: straight-line, single-block functions over
//! integers and booleans, lowered in two stages.
//!
//! The first stage walks the syntax tree, folds constant declarations
//! through a symbol table, and emits a linear intermediate representation —
//! one instruction per non-trivial operation, literals inline. The second
//! stage walks the representation's value graph and generates target
//! assembly text, memoizing per-value results and drawing output registers
//! from a fixed pool by a reuse heuristic.
//!
//! Every stage carries an exact contract: the evaluator and the emitter
//! against the `*_val` and `emit_*` specification functions, the renderer
//! and the generator against `render_*` and `gen_*_spec`. The laws module
//! proves the guarantees that span stages, among them that emitting an
//! expression and folding the result back agrees with direct evaluation.
pub mod arith;
pub mod ast;
pub mod codegen;
pub mod emit;
pub mod errors;
pub mod ir;
pub mod laws;
pub mod symbol_table;
pub mod text;
