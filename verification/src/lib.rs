//! A verified core for a visual pipeline editor: a directed graph of typed
//! processing nodes (cameras, neural-network blocks, link endpoints,
//! arithmetic blocks), built from per-kind templates, evaluated by a
//! memoized pull-based evaluator, and loadable from a schema dump.

pub mod editor;
pub mod eval;
pub mod graph;
pub mod ports;
pub mod schema;
pub mod style;
pub mod template;
pub mod value;

pub use value::DepthaiNode;
pub use value::EvalError;
pub use value::MyDataType;
pub use value::MyValueType;
pub use value::Vec2;
