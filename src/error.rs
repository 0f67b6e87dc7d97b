use vstd::prelude::*;

verus! {

/// An error reported by the engine itself.
#[derive(Debug)]
pub enum OrtApiError {
    /// The message the engine attached to a failed status
    Msg(String),
    /// The engine's message could not be read as a string
    IntoStringError,
}

/// The engine call whose status reported a failure.
#[derive(Clone, Copy, Debug, PartialEq, Eq, Structural)]
pub enum ApiCall {
    /// Creating the engine's environment
    Environment,
    /// Creating or changing session options
    SessionOptions,
    /// Creating a session
    Session,
    /// Getting the default allocator
    Allocator,
    /// Counting a model's inputs or outputs
    InOutCount,
    /// Reading an input's or output's name
    InputName,
    /// Reading an input's or output's type information
    GetTypeInfo,
    /// Casting type information to tensor information
    CastTypeInfoToTensorInfo,
    /// Reading a tensor's element type
    TensorElementType,
    /// Counting a tensor's dimensions
    GetDimensionsCount,
    /// Reading a tensor's dimensions
    GetDimensions,
    /// Reading an output tensor's type and shape
    GetTensorTypeAndShape,
    /// Creating a description of CPU memory
    CreateCpuMemoryInfo,
    /// Creating a tensor over an array's data
    CreateTensorWithData,
    /// Reading a tensor's data
    GetTensorMutableData,
    /// Running inference
    Run,
}

/// Input arrays that do not fit the model's declared inputs.
#[derive(Debug)]
pub enum NonMatchingDimensionsError {
    /// The number of input arrays differs from the number of model inputs.
    InputsCount {
        /// Number of input arrays given for inference
        inference_input_count: usize,
        /// Number of inputs the model declares
        model_input_count: usize,
        /// Shapes of the input arrays
        inference_input: Vec<Vec<usize>>,
        /// Declared shapes of the model's inputs
        model_input: Vec<Vec<Option<u32>>>,
    },
    /// An input array's rank or a fixed dimension differs from the model's.
    InputsLength {
        /// Shapes of the input arrays
        inference_input: Vec<Vec<usize>>,
        /// Declared shapes of the model's inputs
        model_input: Vec<Vec<Option<u32>>>,
    },
}

/// Every error this crate reports.
#[derive(Debug)]
pub enum OrtError {
    /// An engine call returned a failed status
    Api(ApiCall, OrtApiError),
    /// The model file does not exist
    FileDoesNotExists {
        /// Path of the missing file
        filename: String,
    },
    /// Input arrays do not fit the model
    NonMatchingDimensions(NonMatchingDimensionsError),
    /// The engine reported the undefined element type
    UndefinedTensorElementType,
    /// The engine reported an element type this crate does not support
    UnsupportedTensorElementType(u32),
    /// An output tensor's element type differs from the one asked for
    NonMatchingElementType {
        /// Element type the engine produced
        produced: crate::types::TensorElementDataType,
        /// Element type the caller asked for
        requested: crate::types::TensorElementDataType,
    },
    /// The engine reported a tensor without dimensions
    InvalidDimensions,
    /// A handle that should be null is not
    PointerShouldBeNull(String),
    /// A handle that should not be null is
    PointerShouldNotBeNull(String),
}

/// Translates an engine status: `None` is success, `Some` carries the
/// engine's message.
pub fn status_to_result(status: Option<String>) -> (r: Result<(), OrtApiError>)
    ensures
        status is None <==> r is Ok,
        status matches Some(m) ==> r == Err::<(), OrtApiError>(OrtApiError::Msg(m)),
{
    match status {
        None => Ok(()),
        Some(m) => Err(OrtApiError::Msg(m)),
    }
}

/// Translates the status of the engine call `call` into this crate's error.
pub fn check_status(call: ApiCall, status: Option<String>) -> (r: Result<(), OrtError>)
    ensures
        status is None <==> r is Ok,
        status matches Some(m) ==> r == Err::<(), OrtError>(
            OrtError::Api(call, OrtApiError::Msg(m)),
        ),
{
    match status_to_result(status) {
        Ok(()) => Ok(()),
        Err(e) => Err(OrtError::Api(call, e)),
    }
}

} // verus!
