use vstd::prelude::*;

use crate::error::{check_status, ApiCall, OrtApiError, OrtError};
use crate::types::{element_type_code, element_type_of_code, TensorElementDataType};

verus! {

/// The message given when a model declares no inputs or no outputs.
pub open spec fn no_nodes_message() -> Seq<char> {
    "No nodes in model"@
}

/// Decides the number of a model's inputs (or outputs) from the status of
/// the counting call and the count it wrote. A model needs at least one.
pub fn check_io_count(status: Option<String>, num_nodes: usize) -> (r: Result<usize, OrtError>)
    ensures
        r is Ok <==> status is None && num_nodes != 0,
        r matches Ok(n) ==> n == num_nodes,
        status matches Some(m) ==> r == Err::<usize, OrtError>(
            OrtError::Api(ApiCall::InOutCount, OrtApiError::Msg(m)),
        ),
        status is None && num_nodes == 0 ==> (r matches Err(
            OrtError::Api(ApiCall::InOutCount, OrtApiError::Msg(m)),
        ) && m@ == no_nodes_message()),
{
    match check_status(ApiCall::InOutCount, status) {
        Err(e) => Err(e),
        Ok(()) => {
            if num_nodes == 0 {
                Err(OrtError::Api(ApiCall::InOutCount, OrtApiError::Msg("No nodes in model".to_owned())))
            } else {
                Ok(num_nodes)
            }
        },
    }
}

/// Decides the number of a tensor's dimensions from the status of the
/// counting call and the count it wrote. A tensor needs at least one.
pub fn check_dimensions_count(status: Option<String>, num_dims: usize) -> (r: Result<
    usize,
    OrtError,
>)
    ensures
        r is Ok <==> status is None && num_dims != 0,
        r matches Ok(n) ==> n == num_dims,
        status matches Some(m) ==> r == Err::<usize, OrtError>(
            OrtError::Api(ApiCall::GetDimensionsCount, OrtApiError::Msg(m)),
        ),
        status is None && num_dims == 0 ==> r == Err::<usize, OrtError>(
            OrtError::InvalidDimensions,
        ),
{
    match check_status(ApiCall::GetDimensionsCount, status) {
        Err(e) => Err(e),
        Ok(()) => {
            if num_dims == 0 {
                Err(OrtError::InvalidDimensions)
            } else {
                Ok(num_dims)
            }
        },
    }
}

/// Decides a tensor's element type from the status of the call that read it
/// and the code it wrote.
pub fn check_element_type(status: Option<String>, code: u32) -> (r: Result<
    TensorElementDataType,
    OrtError,
>)
    ensures
        r is Ok <==> status is None && element_type_of_code(code) is Some,
        r matches Ok(t) ==> element_type_code(t) == code && Some(t) == element_type_of_code(code),
        status matches Some(m) ==> r == Err::<TensorElementDataType, OrtError>(
            OrtError::Api(ApiCall::TensorElementType, OrtApiError::Msg(m)),
        ),
        status is None && code == 0 ==> r == Err::<TensorElementDataType, OrtError>(
            OrtError::UndefinedTensorElementType,
        ),
        status is None && code != 0 && element_type_of_code(code) is None ==> r == Err::<
            TensorElementDataType,
            OrtError,
        >(OrtError::UnsupportedTensorElementType(code)),
{
    match check_status(ApiCall::TensorElementType, status) {
        Err(e) => Err(e),
        Ok(()) => {
            if code == 0 {
                Err(OrtError::UndefinedTensorElementType)
            } else {
                match TensorElementDataType::from_code(code) {
                    Some(t) => Ok(t),
                    None => Err(OrtError::UnsupportedTensorElementType(code)),
                }
            }
        },
    }
}

/// Checks that an output tensor holds the element type the caller asked for.
pub fn check_output_type(produced: TensorElementDataType, requested: TensorElementDataType) -> (r:
    Result<(), OrtError>)
    ensures
        r is Ok <==> produced == requested,
        produced != requested ==> r == Err::<(), OrtError>(
            OrtError::NonMatchingElementType { produced, requested },
        ),
{
    if produced == requested {
        Ok(())
    } else {
        Err(OrtError::NonMatchingElementType { produced, requested })
    }
}

/// A dimension as the engine reports it: `-1` for a dynamic dimension,
/// otherwise its size, kept in 32 bits.
pub open spec fn decode_dimension(d: i64) -> Option<u32> {
    if d == -1 {
        None
    } else {
        Some(d as u32)
    }
}

/// The declared shape of a model input or output, from the engine's raw
/// dimensions.
pub fn decode_dimensions(raw: &Vec<i64>) -> (r: Vec<Option<u32>>)
    ensures
        r@ == raw@.map_values(|d: i64| decode_dimension(d)),
{
    let mut r: Vec<Option<u32>> = Vec::new();
    let mut i: usize = 0;
    while i < raw.len()
        invariant
            i <= raw@.len(),
            r@ == raw@.subrange(0, i as int).map_values(|d: i64| decode_dimension(d)),
        decreases raw@.len() - i,
    {
        let d = raw[i];
        let v = if d == -1 {
            None
        } else {
            Some(#[verifier::truncate] (d as u32))
        };
        r.push(v);
        proof {
            assert(raw@.subrange(0, i as int + 1) =~= raw@.subrange(0, i as int).push(d));
        }
        i = i + 1;
    }
    proof {
        assert(raw@.subrange(0, i as int) =~= raw@);
    }
    r
}

/// The shape of an output tensor, from the engine's raw dimensions.
pub fn output_shape(raw: &Vec<i64>) -> (r: Vec<usize>)
    ensures
        r@ == raw@.map_values(|d: i64| d as usize),
{
    let mut r: Vec<usize> = Vec::new();
    let mut i: usize = 0;
    while i < raw.len()
        invariant
            i <= raw@.len(),
            r@ == raw@.subrange(0, i as int).map_values(|d: i64| d as usize),
        decreases raw@.len() - i,
    {
        let d = raw[i];
        r.push(#[verifier::truncate] (d as usize));
        proof {
            assert(raw@.subrange(0, i as int + 1) =~= raw@.subrange(0, i as int).push(d));
        }
        i = i + 1;
    }
    proof {
        assert(raw@.subrange(0, i as int) =~= raw@);
    }
    r
}

} // verus!
