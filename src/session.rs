use vstd::prelude::*;

use crate::error::{NonMatchingDimensionsError, OrtError};
use crate::types::{AllocatorType, MemType, TensorElementDataType};

verus! {

/// Converts a stored dimension to the `usize` that callers index with.
pub open spec fn dimension_as_usize(d: Option<u32>) -> Option<usize> {
    match d {
        Some(n) => Some(n as usize),
        None => None,
    }
}

/// The dimensions of a layer as seen by callers: `None` stands for a
/// dynamic (free) dimension.
pub open spec fn dimensions_as_usize(dims: Seq<Option<u32>>) -> Seq<Option<usize>> {
    dims.map_values(|d: Option<u32>| dimension_as_usize(d))
}

fn widen_dimensions(dims: &Vec<Option<u32>>) -> (r: Vec<Option<usize>>)
    ensures
        r@ == dimensions_as_usize(dims@),
{
    let mut r: Vec<Option<usize>> = Vec::new();
    let mut i: usize = 0;
    while i < dims.len()
        invariant
            i <= dims@.len(),
            r@ == dimensions_as_usize(dims@.subrange(0, i as int)),
        decreases dims@.len() - i,
    {
        let d = match dims[i] {
            Some(n) => Some(n as usize),
            None => None,
        };
        r.push(d);
        proof {
            assert(dims@.subrange(0, i as int + 1) =~= dims@.subrange(0, i as int).push(dims@[i as int]));
        }
        i = i + 1;
    }
    proof {
        assert(dims@.subrange(0, i as int) =~= dims@);
    }
    r
}

/// Information about one input of a loaded model.
#[derive(Debug)]
pub struct Input {
    /// Name of the input layer
    pub name: String,
    /// Type of the input layer's elements
    pub input_type: TensorElementDataType,
    /// Shape of the input layer. The engine reports `i64` dimensions: a
    /// dynamic one (`-1`) is `None`, a fixed one is kept in 32 bits.
    pub dimensions: Vec<Option<u32>>,
}

/// Information about one output of a loaded model.
#[derive(Debug)]
pub struct Output {
    /// Name of the output layer
    pub name: String,
    /// Type of the output layer's elements
    pub output_type: TensorElementDataType,
    /// Shape of the output layer, encoded as for [`Input::dimensions`].
    pub dimensions: Vec<Option<u32>>,
}

impl Input {
    /// The shape of the input layer, each fixed dimension as a `usize`.
    pub fn dimensions(&self) -> (r: Vec<Option<usize>>)
        ensures
            r@ == dimensions_as_usize(self.dimensions@),
    {
        widen_dimensions(&self.dimensions)
    }
}

impl Output {
    /// The shape of the output layer, each fixed dimension as a `usize`.
    pub fn dimensions(&self) -> (r: Vec<Option<usize>>)
        ensures
            r@ == dimensions_as_usize(self.dimensions@),
    {
        widen_dimensions(&self.dimensions)
    }
}

/// The settings a session builder records before the session is committed.
///
/// They start as an arena allocator and the default memory type.
#[derive(Clone, Copy, Debug, PartialEq, Eq, Structural)]
pub struct BuilderSettings {
    /// Allocator for the session's memory
    pub allocator: AllocatorType,
    /// Memory type of the session's buffers
    pub memory_type: MemType,
}

impl BuilderSettings {
    /// The settings of a new builder.
    pub fn new() -> (r: BuilderSettings)
        ensures
            r.allocator == AllocatorType::Arena,
            r.memory_type == MemType::Default,
    {
        BuilderSettings { allocator: AllocatorType::Arena, memory_type: MemType::Default }
    }

    /// Sets the allocator and keeps the rest.
    pub fn with_allocator(self, allocator: AllocatorType) -> (r: BuilderSettings)
        ensures
            r.allocator == allocator,
            r.memory_type == self.memory_type,
    {
        BuilderSettings { allocator, ..self }
    }

    /// Sets the memory type and keeps the rest.
    pub fn with_memory_type(self, memory_type: MemType) -> (r: BuilderSettings)
        ensures
            r.allocator == self.allocator,
            r.memory_type == memory_type,
    {
        BuilderSettings { memory_type, ..self }
    }
}

/// Whether an array dimension fits a declared one: a dynamic dimension fits
/// any size, a fixed one only its own.
pub open spec fn dimension_fits(actual: usize, declared: Option<u32>) -> bool {
    match declared {
        Some(d) => d as usize == actual,
        None => true,
    }
}

/// Whether each dimension of an array fits the declared dimension at the same
/// place (compared as far as both shapes go).
pub open spec fn shape_fits(actual: Seq<usize>, declared: Seq<Option<u32>>) -> bool {
    forall|j: int|
        0 <= j < actual.len() && j < declared.len() ==> dimension_fits(
            #[trigger] actual[j],
            declared[j],
        )
}

/// The shapes of a list of arrays, as sequences.
pub open spec fn shapes_view(shapes: Seq<Vec<usize>>) -> Seq<Seq<usize>> {
    shapes.map_values(|s: Vec<usize>| s@)
}

/// A list of declared shapes, as sequences.
pub open spec fn declared_view(dims: Seq<Vec<Option<u32>>>) -> Seq<Seq<Option<u32>>> {
    dims.map_values(|d: Vec<Option<u32>>| d@)
}

/// The declared shapes of a model's inputs.
pub open spec fn declared_shapes(inputs: Seq<Input>) -> Seq<Seq<Option<u32>>> {
    inputs.map_values(|i: Input| i.dimensions@)
}

/// Whether each array has as many dimensions as the input it is given for.
pub open spec fn ranks_match(actual: Seq<Seq<usize>>, declared: Seq<Seq<Option<u32>>>) -> bool {
    forall|i: int|
        0 <= i < actual.len() && i < declared.len() ==> (#[trigger] actual[i]).len()
            == declared[i].len()
}

/// Whether each array's dimensions fit those of the input it is given for.
pub open spec fn shapes_fit(actual: Seq<Seq<usize>>, declared: Seq<Seq<Option<u32>>>) -> bool {
    forall|i: int|
        0 <= i < actual.len() && i < declared.len() ==> shape_fits(
            #[trigger] actual[i],
            declared[i],
        )
}

/// Whether arrays of the given shapes can be fed to inputs of the given
/// declared shapes.
pub open spec fn inputs_fit(actual: Seq<Seq<usize>>, declared: Seq<Seq<Option<u32>>>) -> bool {
    &&& actual.len() == declared.len()
    &&& ranks_match(actual, declared)
    &&& shapes_fit(actual, declared)
}

/// `r` is the error for a number of arrays that differs from the number of
/// model inputs, reporting both lists of shapes.
pub open spec fn is_count_error(
    r: Result<(), OrtError>,
    actual: Seq<Vec<usize>>,
    inputs: Seq<Input>,
) -> bool {
    match r {
        Err(
            OrtError::NonMatchingDimensions(
                NonMatchingDimensionsError::InputsCount {
                    inference_input_count,
                    model_input_count,
                    inference_input,
                    model_input,
                },
            ),
        ) => {
            &&& inference_input_count == actual.len()
            &&& model_input_count == inputs.len()
            &&& shapes_view(inference_input@) == shapes_view(actual)
            &&& declared_view(model_input@) == declared_shapes(inputs)
        },
        _ => false,
    }
}

/// `r` is the error for an array whose rank or fixed dimensions differ from
/// its input's, reporting both lists of shapes.
pub open spec fn is_length_error(
    r: Result<(), OrtError>,
    actual: Seq<Vec<usize>>,
    inputs: Seq<Input>,
) -> bool {
    match r {
        Err(
            OrtError::NonMatchingDimensions(
                NonMatchingDimensionsError::InputsLength { inference_input, model_input },
            ),
        ) => {
            &&& shapes_view(inference_input@) == shapes_view(actual)
            &&& declared_view(model_input@) == declared_shapes(inputs)
        },
        _ => false,
    }
}

fn copy_vec<T: Copy>(v: &Vec<T>) -> (r: Vec<T>)
    ensures
        r@ == v@,
{
    let mut r: Vec<T> = Vec::new();
    let mut i: usize = 0;
    while i < v.len()
        invariant
            i <= v@.len(),
            r@ == v@.subrange(0, i as int),
        decreases v@.len() - i,
    {
        r.push(v[i]);
        proof {
            assert(v@.subrange(0, i as int + 1) =~= v@.subrange(0, i as int).push(v@[i as int]));
        }
        i = i + 1;
    }
    proof {
        assert(v@.subrange(0, i as int) =~= v@);
    }
    r
}

fn copy_shapes(shapes: &Vec<Vec<usize>>) -> (r: Vec<Vec<usize>>)
    ensures
        shapes_view(r@) == shapes_view(shapes@),
{
    let mut r: Vec<Vec<usize>> = Vec::new();
    let mut i: usize = 0;
    while i < shapes.len()
        invariant
            i <= shapes@.len(),
            shapes_view(r@) == shapes_view(shapes@.subrange(0, i as int)),
        decreases shapes@.len() - i,
    {
        let s = copy_vec(&shapes[i]);
        r.push(s);
        proof {
            assert(shapes_view(shapes@.subrange(0, i as int + 1)) =~= shapes_view(
                shapes@.subrange(0, i as int),
            ).push(shapes@[i as int]@));
            assert(shapes_view(r@) =~= shapes_view(shapes@.subrange(0, i as int)).push(
                shapes@[i as int]@,
            ));
        }
        i = i + 1;
    }
    proof {
        assert(shapes@.subrange(0, i as int) =~= shapes@);
    }
    r
}

fn copy_declared_shapes(inputs: &Vec<Input>) -> (r: Vec<Vec<Option<u32>>>)
    ensures
        declared_view(r@) == declared_shapes(inputs@),
{
    let mut r: Vec<Vec<Option<u32>>> = Vec::new();
    let mut i: usize = 0;
    while i < inputs.len()
        invariant
            i <= inputs@.len(),
            declared_view(r@) == declared_shapes(inputs@.subrange(0, i as int)),
        decreases inputs@.len() - i,
    {
        let d = copy_vec(&inputs[i].dimensions);
        r.push(d);
        proof {
            assert(declared_shapes(inputs@.subrange(0, i as int + 1)) =~= declared_shapes(
                inputs@.subrange(0, i as int),
            ).push(inputs@[i as int].dimensions@));
            assert(declared_view(r@) =~= declared_shapes(inputs@.subrange(0, i as int)).push(
                inputs@[i as int].dimensions@,
            ));
        }
        i = i + 1;
    }
    proof {
        assert(inputs@.subrange(0, i as int) =~= inputs@);
    }
    r
}

fn shape_fits_exec(actual: &Vec<usize>, declared: &Vec<Option<u32>>) -> (b: bool)
    ensures
        b == shape_fits(actual@, declared@),
{
    let mut j: usize = 0;
    while j < actual.len() && j < declared.len()
        invariant
            j <= actual@.len(),
            forall|k: int| 0 <= k < j ==> k < declared@.len() && dimension_fits(actual@[k], declared@[k]),
        decreases actual@.len() - j,
    {
        let fits = match declared[j] {
            Some(d) => d as usize == actual[j],
            None => true,
        };
        if !fits {
            assert(!dimension_fits(actual@[j as int], declared@[j as int]));
            return false;
        }
        j = j + 1;
    }
    true
}

/// Checks arrays of the shapes `inference` against the inputs that a model
/// declares, before they are handed to the engine.
///
/// The number of arrays must equal the number of inputs; each array must
/// have as many dimensions as its input; and each of its dimensions must
/// equal the input's dimension wherever that one is fixed. The first of these
/// that fails decides the error.
pub fn validate_input_shapes(inference: &Vec<Vec<usize>>, inputs: &Vec<Input>) -> (r: Result<
    (),
    OrtError,
>)
    ensures
        r is Ok <==> inputs_fit(shapes_view(inference@), declared_shapes(inputs@)),
        inference@.len() != inputs@.len() ==> is_count_error(r, inference@, inputs@),
        inference@.len() == inputs@.len() && r is Err ==> is_length_error(r, inference@, inputs@),
{
    if inference.len() != inputs.len() {
        return Err(
            OrtError::NonMatchingDimensions(
                NonMatchingDimensionsError::InputsCount {
                    inference_input_count: inference.len(),
                    model_input_count: inputs.len(),
                    inference_input: copy_shapes(inference),
                    model_input: copy_declared_shapes(inputs),
                },
            ),
        );
    }
    let ghost actual = shapes_view(inference@);
    let ghost declared = declared_shapes(inputs@);
    let mut i: usize = 0;
    while i < inference.len()
        invariant
            inference@.len() == inputs@.len(),
            i <= inference@.len(),
            actual == shapes_view(inference@),
            declared == declared_shapes(inputs@),
            forall|k: int| 0 <= k < i ==> (#[trigger] actual[k]).len() == declared[k].len(),
        decreases inference@.len() - i,
    {
        if inference[i].len() != inputs[i].dimensions.len() {
            assert(actual[i as int].len() != declared[i as int].len());
            return Err(
                OrtError::NonMatchingDimensions(
                    NonMatchingDimensionsError::InputsLength {
                        inference_input: copy_shapes(inference),
                        model_input: copy_declared_shapes(inputs),
                    },
                ),
            );
        }
        i = i + 1;
    }
    assert(ranks_match(actual, declared));
    let mut i: usize = 0;
    while i < inference.len()
        invariant
            inference@.len() == inputs@.len(),
            i <= inference@.len(),
            actual == shapes_view(inference@),
            declared == declared_shapes(inputs@),
            ranks_match(actual, declared),
            forall|k: int| 0 <= k < i ==> shape_fits(#[trigger] actual[k], declared[k]),
        decreases inference@.len() - i,
    {
        if !shape_fits_exec(&inference[i], &inputs[i].dimensions) {
            assert(!shape_fits(actual[i as int], declared[i as int]));
            return Err(
                OrtError::NonMatchingDimensions(
                    NonMatchingDimensionsError::InputsLength {
                        inference_input: copy_shapes(inference),
                        model_input: copy_declared_shapes(inputs),
                    },
                ),
            );
        }
        i = i + 1;
    }
    assert(shapes_fit(actual, declared));
    Ok(())
}

} // verus!
