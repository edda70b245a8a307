//! The message types of the interchange format, held as plain values.
//!
//! A singular field that the format marks optional is an `Option`: `None`
//! means "not set", which is distinct from a field set to an empty value.
//! A repeated field is a `Vec` whose order is significant.
//! Floating-point payloads are held as their IEEE 754 bit patterns
//! (`u32` for single precision, `u64` for double precision).
use vstd::prelude::*;

verus! {

/// The format version that this library emits.
pub const IR_VERSION: i64 = 3;

/// Element kinds of a tensor.
#[derive(Clone, Copy, Debug, PartialEq, Eq, Structural)]
pub enum TensorProto_DataType {
    UNDEFINED,
    FLOAT,
    UINT8,
    INT8,
    UINT16,
    INT16,
    INT32,
    INT64,
    STRING,
    BOOL,
    FLOAT16,
    DOUBLE,
    UINT32,
    UINT64,
    COMPLEX64,
    COMPLEX128,
}

/// Kinds of attribute payload.
#[derive(Clone, Copy, Debug, PartialEq, Eq, Structural)]
pub enum AttributeProto_AttributeType {
    UNDEFINED,
    FLOAT,
    INT,
    STRING,
    TENSOR,
    GRAPH,
    FLOATS,
    INTS,
    STRINGS,
    TENSORS,
    GRAPHS,
}

/// Pins an operator domain to a version; an absent domain is the default one.
#[derive(Clone, Debug, PartialEq)]
pub struct OperatorSetIdProto {
    pub domain: Option<String>,
    pub version: Option<i64>,
}

/// One key/value pair of a model's metadata.
#[derive(Clone, Debug, PartialEq)]
pub struct StringStringEntryProto {
    pub key: Option<String>,
    pub value: Option<String>,
}

/// A dense array. Exactly one of the data buffers is meant to be filled,
/// the one that `data_type` selects.
#[derive(Clone, Debug, PartialEq)]
pub struct TensorProto {
    pub dims: Vec<i64>,
    pub data_type: Option<TensorProto_DataType>,
    pub float_data: Vec<u32>,
    pub int32_data: Vec<i32>,
    pub string_data: Vec<Vec<u8>>,
    pub int64_data: Vec<i64>,
    pub name: Option<String>,
    pub doc_string: Option<String>,
    pub double_data: Vec<u64>,
    pub uint64_data: Vec<u64>,
}

/// The value of one axis of a shape: a fixed size or a symbolic name.
#[derive(Clone, Debug, PartialEq)]
pub enum TensorShapeProto_Dimension_oneof_value {
    dim_value(i64),
    dim_param(String),
}

/// One axis of a shape.
#[derive(Clone, Debug, PartialEq)]
pub struct TensorShapeProto_Dimension {
    pub value: Option<TensorShapeProto_Dimension_oneof_value>,
}

/// An ordered sequence of axes.
#[derive(Clone, Debug, PartialEq)]
pub struct TensorShapeProto {
    pub dim: Vec<TensorShapeProto_Dimension>,
}

/// The type of a tensor value: element kind and shape.
#[derive(Clone, Debug, PartialEq)]
pub struct TypeProto_Tensor {
    pub elem_type: Option<TensorProto_DataType>,
    pub shape: Option<TensorShapeProto>,
}

/// The type of a value.
#[derive(Clone, Debug, PartialEq)]
pub struct TypeProto {
    pub tensor_type: Option<TypeProto_Tensor>,
}

/// The name, type and shape of a graph input or output.
#[derive(Clone, Debug, PartialEq)]
pub struct ValueInfoProto {
    pub name: Option<String>,
    pub field_type: Option<TypeProto>,
    pub doc_string: Option<String>,
}

/// A named value of exactly one kind; `field_type` tells which field holds it.
#[derive(Debug)]
pub struct AttributeProto {
    pub name: Option<String>,
    pub doc_string: Option<String>,
    pub field_type: Option<AttributeProto_AttributeType>,
    pub f: Option<u32>,
    pub i: Option<i64>,
    pub s: Option<Vec<u8>>,
    pub t: Option<TensorProto>,
    pub g: Option<GraphProto>,
    pub floats: Vec<u32>,
    pub ints: Vec<i64>,
    pub strings: Vec<Vec<u8>>,
    pub tensors: Vec<TensorProto>,
    pub graphs: Vec<GraphProto>,
}

/// One computation step.
#[derive(Debug)]
pub struct NodeProto {
    pub input: Vec<String>,
    pub output: Vec<String>,
    pub name: Option<String>,
    pub op_type: Option<String>,
    pub domain: Option<String>,
    pub attribute: Vec<AttributeProto>,
    pub doc_string: Option<String>,
}

/// A named computation graph.
#[derive(Debug)]
pub struct GraphProto {
    pub node: Vec<NodeProto>,
    pub name: Option<String>,
    pub initializer: Vec<TensorProto>,
    pub doc_string: Option<String>,
    pub input: Vec<ValueInfoProto>,
    pub output: Vec<ValueInfoProto>,
}

/// The top-level container.
#[derive(Debug)]
pub struct ModelProto {
    pub ir_version: Option<i64>,
    pub opset_import: Vec<OperatorSetIdProto>,
    pub producer_name: Option<String>,
    pub producer_version: Option<String>,
    pub domain: Option<String>,
    pub model_version: Option<i64>,
    pub doc_string: Option<String>,
    pub graph: Option<GraphProto>,
    pub metadata_props: Vec<StringStringEntryProto>,
}

} // verus!
