pub mod constraint;
pub mod definitions;
pub mod field;
pub mod timestamps;
pub mod common_constants;
pub mod text;
pub mod fermat;
pub mod placeholder;
pub mod oracle;
pub mod circuit;
pub mod lookup_input;
pub mod witness_placer;
pub mod scalar_types;
pub mod witness_proxy;
pub mod witness_generation;
pub mod witness_semantics;
pub mod utils;
pub mod cs_debug_evaluator;
