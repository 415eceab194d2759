//! Static analysis of the operand-stack height of WebAssembly functions.
//!
//! The analyzer walks the opcode sequence of one function once, simulating
//! the structured control stack of the format, and reports an upper bound on
//! the number of operand-stack slots that any reachable program point uses.
pub mod context;
pub mod max_height;
pub mod module;
pub mod source;

pub use context::{Context, ContextView, Frame};
pub use max_height::{max_stack_height, try_max_stack_height};
pub use module::{BlockType, FunctionType, Module, ModuleView, Opcode, StackHeightError, ValueType};
pub use source::{cargo_output_path, has_ctor, wasm_path, CREATE_SYMBOL, SourceInput, SourceTarget, EMSCRIPTEN_TRIPLET, UNKNOWN_TRIPLET};
