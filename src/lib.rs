//! Typed, verified core of a binding to the ONNX Runtime inference engine.
//!
//! The native engine is reached through raw handles; this crate holds the
//! decisions taken around those calls: how a status becomes a typed error,
//! how raw shape and element-type codes are decoded, how input arrays are
//! checked against the model's declared inputs, and how a session builder
//! records its settings.
mod decode;
mod error;
mod session;
mod types;

pub use decode::{
    check_dimensions_count, check_element_type, check_io_count, check_output_type, decode_dimensions, output_shape,
};
pub use error::{
    check_status, status_to_result, ApiCall, NonMatchingDimensionsError, OrtApiError, OrtError,
};
pub use session::{validate_input_shapes, BuilderSettings, Input, Output};
pub use types::{AllocatorType, GraphOptimizationLevel, MemType, TensorElementDataType};
