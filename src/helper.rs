//! Builders that turn partially optional inputs into fully populated,
//! internally consistent messages.
use crate::proto::{
    AttributeProto, AttributeProto_AttributeType, GraphProto, ModelProto, NodeProto,
    OperatorSetIdProto, StringStringEntryProto, TensorProto, TensorProto_DataType, TensorShapeProto,
    TensorShapeProto_Dimension, TensorShapeProto_Dimension_oneof_value, TypeProto,
    TypeProto_Tensor, ValueInfoProto, IR_VERSION,
};
use vstd::prelude::*;
use vstd::string::StrSliceExecFns;
use vstd::utf8::{decode_utf8, encode_utf8};

verus! {

/// Builds an operator-set id: the domain is set only when given, the
/// version always.
pub fn make_opsetid(domain: Option<String>, version: i64) -> (r: OperatorSetIdProto)
    ensures
        r.domain == domain,
        r.version == Some(version),
{
    OperatorSetIdProto { domain, version: Some(version) }
}

/// The version of the default operator set that a model imports when the
/// caller names none.
pub const DEFAULT_OPSET_VERSION: i64 = 3;

/// `e` is the metadata entry for the pair `kv`.
pub open spec fn entry_holds(e: StringStringEntryProto, kv: (String, String)) -> bool {
    e.key == Some(kv.0) && e.value == Some(kv.1)
}

/// Turns key/value pairs into metadata entries, in the same order.
fn metadata_entries(metadata: Vec<(String, String)>) -> (r: Vec<StringStringEntryProto>)
    ensures
        r@.len() == metadata@.len(),
        forall|i: int| 0 <= i < r@.len() ==> entry_holds(#[trigger] r@[i], metadata@[i]),
{
    let mut entries: Vec<StringStringEntryProto> = Vec::new();
    let mut rest = metadata;
    while rest.len() > 0
        invariant
            entries@.len() + rest@.len() == metadata@.len(),
            rest@ == metadata@.subrange(entries@.len() as int, metadata@.len() as int),
            forall|i: int| 0 <= i < entries@.len() ==> entry_holds(#[trigger] entries@[i], metadata@[i]),
        decreases rest.len(),
    {
        let (key, value) = rest.remove(0);
        entries.push(StringStringEntryProto { key: Some(key), value: Some(value) });
    }
    entries
}

/// Builds a model around `graph`. The format version is always
/// [`IR_VERSION`]. An empty `opset_imports` is replaced by the single
/// default import (no domain, version [`DEFAULT_OPSET_VERSION`]); a non-empty
/// one is kept as given. Each optional field is set exactly when given.
/// Metadata pairs become entries in the order given.
pub fn make_model(
    graph: GraphProto,
    opset_imports: Vec<OperatorSetIdProto>,
    domain: Option<String>,
    model_version: Option<i64>,
    producer_name: Option<String>,
    producer_version: Option<String>,
    doc_string: Option<String>,
    metadata: Option<Vec<(String, String)>>,
) -> (r: ModelProto)
    ensures
        r.ir_version == Some(IR_VERSION),
        r.graph == Some(graph),
        opset_imports@.len() > 0 ==> r.opset_import@ == opset_imports@,
        opset_imports@.len() == 0 ==> r.opset_import@.len() == 1
            && r.opset_import@[0].domain is None
            && r.opset_import@[0].version == Some(DEFAULT_OPSET_VERSION),
        r.domain == domain,
        r.model_version == model_version,
        r.producer_name == producer_name,
        r.producer_version == producer_version,
        r.doc_string == doc_string,
        metadata is None ==> r.metadata_props@.len() == 0,
        metadata matches Some(m) ==> r.metadata_props@.len() == m@.len()
            && forall|i: int| 0 <= i < m@.len() ==> entry_holds(#[trigger] r.metadata_props@[i], m@[i]),
{
    let opset_import = if opset_imports.len() > 0 {
        opset_imports
    } else {
        vec![make_opsetid(None, DEFAULT_OPSET_VERSION)]
    };
    let metadata_props = match metadata {
        Some(metadata) => metadata_entries(metadata),
        None => Vec::new(),
    };
    ModelProto {
        ir_version: Some(IR_VERSION),
        opset_import,
        producer_name,
        producer_version,
        domain,
        model_version,
        doc_string,
        graph: Some(graph),
        metadata_props,
    }
}

/// Builds a graph. Nodes, inputs, outputs and initializers keep the order
/// given; the doc string is set exactly when given.
pub fn make_graph(
    nodes: Vec<NodeProto>,
    name: String,
    inputs: Vec<ValueInfoProto>,
    outputs: Vec<ValueInfoProto>,
    initializer: Vec<TensorProto>,
    doc_string: Option<String>,
) -> (r: GraphProto)
    ensures
        r.name == Some(name),
        r.node@ == nodes@,
        r.input@ == inputs@,
        r.output@ == outputs@,
        r.initializer@ == initializer@,
        r.doc_string == doc_string,
{
    GraphProto { node: nodes, name: Some(name), initializer, doc_string, input: inputs, output: outputs }
}

/// Builds a node. Input names, output names and attributes keep the order
/// given; each optional field is set exactly when given.
pub fn make_node(
    op_type: Option<String>,
    inputs: Vec<String>,
    outputs: Vec<String>,
    name: Option<String>,
    doc_string: Option<String>,
    domain: Option<String>,
    attributes: Vec<AttributeProto>,
) -> (r: NodeProto)
    ensures
        r.op_type == op_type,
        r.input@ == inputs@,
        r.output@ == outputs@,
        r.name == name,
        r.doc_string == doc_string,
        r.domain == domain,
        r.attribute@ == attributes@,
{
    NodeProto { input: inputs, output: outputs, name, op_type, domain, attribute: attributes, doc_string }
}

/// The payload of an attribute: exactly one value of exactly one kind.
/// Single-precision floats are given as their IEEE 754 bit patterns.
pub enum Attribute {
    Float(u32),
    Floats(Vec<u32>),
    Int(i64),
    Ints(Vec<i64>),
    String(Vec<u8>),
    Strings(Vec<Vec<u8>>),
    Tensor(TensorProto),
    Tensors(Vec<TensorProto>),
    Graph(GraphProto),
    Graphs(Vec<GraphProto>),
}

/// The kind tag that belongs to each attribute payload.
pub open spec fn attribute_kind(a: Attribute) -> AttributeProto_AttributeType {
    match a {
        Attribute::Float(_) => AttributeProto_AttributeType::FLOAT,
        Attribute::Floats(_) => AttributeProto_AttributeType::FLOATS,
        Attribute::Int(_) => AttributeProto_AttributeType::INT,
        Attribute::Ints(_) => AttributeProto_AttributeType::INTS,
        Attribute::String(_) => AttributeProto_AttributeType::STRING,
        Attribute::Strings(_) => AttributeProto_AttributeType::STRINGS,
        Attribute::Tensor(_) => AttributeProto_AttributeType::TENSOR,
        Attribute::Tensors(_) => AttributeProto_AttributeType::TENSORS,
        Attribute::Graph(_) => AttributeProto_AttributeType::GRAPH,
        Attribute::Graphs(_) => AttributeProto_AttributeType::GRAPHS,
    }
}

/// `r` is the attribute named `name` that holds `a`: its tag is the kind of
/// `a`, the field of that kind holds the payload of `a`, and every other
/// value field is empty.
pub open spec fn attribute_holds(r: AttributeProto, name: String, a: Attribute) -> bool {
    &&& r.name == Some(name)
    &&& r.doc_string is None
    &&& r.field_type == Some(attribute_kind(a))
    &&& r.f == (match a {
        Attribute::Float(v) => Some(v),
        _ => None,
    })
    &&& r.i == (match a {
        Attribute::Int(v) => Some(v),
        _ => None,
    })
    &&& r.s == (match a {
        Attribute::String(v) => Some(v),
        _ => None,
    })
    &&& r.t == (match a {
        Attribute::Tensor(v) => Some(v),
        _ => None,
    })
    &&& r.g == (match a {
        Attribute::Graph(v) => Some(v),
        _ => None,
    })
    &&& r.floats@ == (match a {
        Attribute::Floats(v) => v@,
        _ => Seq::empty(),
    })
    &&& r.ints@ == (match a {
        Attribute::Ints(v) => v@,
        _ => Seq::empty(),
    })
    &&& r.strings@ == (match a {
        Attribute::Strings(v) => v@,
        _ => Seq::empty(),
    })
    &&& r.tensors@ == (match a {
        Attribute::Tensors(v) => v@,
        _ => Seq::empty(),
    })
    &&& r.graphs@ == (match a {
        Attribute::Graphs(v) => v@,
        _ => Seq::empty(),
    })
}

/// An attribute named `name` with no kind and no value yet.
fn empty_attribute(name: String) -> (r: AttributeProto)
    ensures
        r.name == Some(name),
        r.doc_string is None,
        r.field_type is None,
        r.f is None,
        r.i is None,
        r.s is None,
        r.t is None,
        r.g is None,
        r.floats@ == Seq::<u32>::empty(),
        r.ints@ == Seq::<i64>::empty(),
        r.strings@ == Seq::<Vec<u8>>::empty(),
        r.tensors@ == Seq::<TensorProto>::empty(),
        r.graphs@ == Seq::<GraphProto>::empty(),
{
    AttributeProto {
        name: Some(name),
        doc_string: None,
        field_type: None,
        f: None,
        i: None,
        s: None,
        t: None,
        g: None,
        floats: Vec::new(),
        ints: Vec::new(),
        strings: Vec::new(),
        tensors: Vec::new(),
        graphs: Vec::new(),
    }
}

/// Builds the attribute named `name` holding `attribute`; the kind tag and
/// the value are set together, so they always agree.
pub fn make_attribute(name: String, attribute: Attribute) -> (r: AttributeProto)
    ensures
        attribute_holds(r, name, attribute),
{
    let mut attr_proto = empty_attribute(name);
    match attribute {
        Attribute::Float(val) => {
            attr_proto.f = Some(val);
            attr_proto.field_type = Some(AttributeProto_AttributeType::FLOAT);
        },
        Attribute::Floats(vals) => {
            attr_proto.floats = vals;
            attr_proto.field_type = Some(AttributeProto_AttributeType::FLOATS);
        },
        Attribute::Int(val) => {
            attr_proto.i = Some(val);
            attr_proto.field_type = Some(AttributeProto_AttributeType::INT);
        },
        Attribute::Ints(vals) => {
            attr_proto.ints = vals;
            attr_proto.field_type = Some(AttributeProto_AttributeType::INTS);
        },
        Attribute::String(val) => {
            attr_proto.s = Some(val);
            attr_proto.field_type = Some(AttributeProto_AttributeType::STRING);
        },
        Attribute::Strings(vals) => {
            attr_proto.strings = vals;
            attr_proto.field_type = Some(AttributeProto_AttributeType::STRINGS);
        },
        Attribute::Graph(val) => {
            attr_proto.g = Some(val);
            attr_proto.field_type = Some(AttributeProto_AttributeType::GRAPH);
        },
        Attribute::Graphs(vals) => {
            attr_proto.graphs = vals;
            attr_proto.field_type = Some(AttributeProto_AttributeType::GRAPHS);
        },
        Attribute::Tensor(val) => {
            attr_proto.t = Some(val);
            attr_proto.field_type = Some(AttributeProto_AttributeType::TENSOR);
        },
        Attribute::Tensors(vals) => {
            attr_proto.tensors = vals;
            attr_proto.field_type = Some(AttributeProto_AttributeType::TENSORS);
        },
    }
    attr_proto
}

/// One axis of a shape: a fixed size or a symbolic name.
pub enum Dimension {
    Value(i64),
    Param(String),
}

/// The axis entry that encodes `d`.
pub open spec fn dim_entry(d: Dimension) -> TensorShapeProto_Dimension {
    match d {
        Dimension::Value(v) => TensorShapeProto_Dimension {
            value: Some(TensorShapeProto_Dimension_oneof_value::dim_value(v)),
        },
        Dimension::Param(p) => TensorShapeProto_Dimension {
            value: Some(TensorShapeProto_Dimension_oneof_value::dim_param(p)),
        },
    }
}

/// Reads an axis entry back as a dimension; `None` for an entry with no value.
pub open spec fn dimension_of(e: TensorShapeProto_Dimension) -> Option<Dimension> {
    match e.value {
        Some(TensorShapeProto_Dimension_oneof_value::dim_value(v)) => Some(Dimension::Value(v)),
        Some(TensorShapeProto_Dimension_oneof_value::dim_param(p)) => Some(Dimension::Param(p)),
        None => None,
    }
}

/// `ty` is the tensor type with element kind `elem_type` whose shape has
/// the axes `shape`, in order.
pub open spec fn tensor_type_holds(
    ty: TypeProto,
    elem_type: TensorProto_DataType,
    shape: Seq<Dimension>,
) -> bool {
    &&& ty.tensor_type matches Some(tt)
    &&& tt.elem_type == Some(elem_type)
    &&& tt.shape matches Some(sh)
    &&& sh.dim@ == shape.map_values(|d: Dimension| dim_entry(d))
}

/// Reading the axes of `ty`'s shape back gives `shape`, axis by axis and in
/// order, each as a fixed size or a symbolic name as it was.
pub open spec fn shape_reads_back(ty: TypeProto, shape: Seq<Dimension>) -> bool {
    &&& ty.tensor_type matches Some(tt)
    &&& tt.shape matches Some(sh)
    &&& sh.dim@.len() == shape.len()
    &&& forall|i: int| 0 <= i < shape.len() ==> dimension_of(#[trigger] sh.dim@[i]) == Some(shape[i])
}

/// Reading back an encoded axis gives the axis that was encoded.
pub proof fn lemma_dimension_round_trip(d: Dimension)
    ensures
        dimension_of(dim_entry(d)) == Some(d),
{
}

/// Builds the description of a graph input or output: its name, a tensor
/// type with element kind `elem_type`, and a shape whose axes encode
/// `shape` in order, each as a fixed size or a symbolic name as given.
/// The doc string is set exactly when given.
pub fn make_tensor_value_info(
    name: String,
    elem_type: TensorProto_DataType,
    shape: Vec<Dimension>,
    doc_string: Option<String>,
) -> (r: ValueInfoProto)
    ensures
        r.name == Some(name),
        r.doc_string == doc_string,
        r.field_type matches Some(ty) && tensor_type_holds(ty, elem_type, shape@),
        r.field_type matches Some(ty) && shape_reads_back(ty, shape@),
{
    let mut dims: Vec<TensorShapeProto_Dimension> = Vec::new();
    let mut rest = shape;
    while rest.len() > 0
        invariant
            dims@.len() + rest@.len() == shape@.len(),
            rest@ == shape@.subrange(dims@.len() as int, shape@.len() as int),
            dims@ == shape@.subrange(0, dims@.len() as int).map_values(|d: Dimension| dim_entry(d)),
        decreases rest.len(),
    {
        let s = rest.remove(0);
        let ghost before = dims@;
        let value = match s {
            Dimension::Value(v) => TensorShapeProto_Dimension_oneof_value::dim_value(v),
            Dimension::Param(p) => TensorShapeProto_Dimension_oneof_value::dim_param(p),
        };
        dims.push(TensorShapeProto_Dimension { value: Some(value) });
        assert(shape@.subrange(0, dims@.len() as int) =~= shape@.subrange(0, before.len() as int).push(shape@[before.len() as int]));
    }
    assert(shape@.subrange(0, shape@.len() as int) =~= shape@);
    proof {
        assert forall|i: int| 0 <= i < shape@.len() implies dimension_of(#[trigger] dims@[i]) == Some(shape@[i]) by {
            lemma_dimension_round_trip(shape@[i]);
        }
    }
    let tensor_type_proto = TypeProto_Tensor {
        elem_type: Some(elem_type),
        shape: Some(TensorShapeProto { dim: dims }),
    };
    let type_proto = TypeProto { tensor_type: Some(tensor_type_proto) };
    ValueInfoProto { name: Some(name), field_type: Some(type_proto), doc_string }
}

/// The data of a tensor: one buffer of one element kind. Floating-point
/// elements are given as their IEEE 754 bit patterns.
pub enum TensorValue {
    Float(Vec<u32>),
    UInt8(Vec<u8>),
    Int8(Vec<i8>),
    UInt16(Vec<u16>),
    Int16(Vec<i16>),
    Int32(Vec<i32>),
    Int64(Vec<i64>),
    String(Vec<String>),
    Bool(Vec<bool>),
    Double(Vec<u64>),
    UInt32(Vec<u32>),
    UInt64(Vec<u64>),
}

/// The element kind that belongs to each kind of tensor data.
pub open spec fn tensor_kind(v: TensorValue) -> TensorProto_DataType {
    match v {
        TensorValue::Float(_) => TensorProto_DataType::FLOAT,
        TensorValue::UInt8(_) => TensorProto_DataType::UINT8,
        TensorValue::Int8(_) => TensorProto_DataType::INT8,
        TensorValue::UInt16(_) => TensorProto_DataType::UINT16,
        TensorValue::Int16(_) => TensorProto_DataType::INT16,
        TensorValue::Int32(_) => TensorProto_DataType::INT32,
        TensorValue::Int64(_) => TensorProto_DataType::INT64,
        TensorValue::String(_) => TensorProto_DataType::STRING,
        TensorValue::Bool(_) => TensorProto_DataType::BOOL,
        TensorValue::Double(_) => TensorProto_DataType::DOUBLE,
        TensorValue::UInt32(_) => TensorProto_DataType::UINT32,
        TensorValue::UInt64(_) => TensorProto_DataType::UINT64,
    }
}

/// What the 32-bit integer buffer holds for `v`: narrow integers widened,
/// unsigned 32-bit values as the signed values with the same bits, booleans
/// as 0 and 1; empty for the other kinds.
pub open spec fn int32_storage(v: TensorValue) -> Seq<i32> {
    match v {
        TensorValue::UInt8(x) => x@.map_values(|e: u8| e as i32),
        TensorValue::Int8(x) => x@.map_values(|e: i8| e as i32),
        TensorValue::UInt16(x) => x@.map_values(|e: u16| e as i32),
        TensorValue::Int16(x) => x@.map_values(|e: i16| e as i32),
        TensorValue::Int32(x) => x@,
        TensorValue::UInt32(x) => x@.map_values(|e: u32| #[verifier::truncate] (e as i32)),
        TensorValue::Bool(x) => x@.map_values(|b: bool| if b { 1i32 } else { 0i32 }),
        _ => Seq::empty(),
    }
}

/// What the string buffer holds for `v`: the UTF-8 encoding of each string;
/// empty for the other kinds.
pub open spec fn string_storage(v: TensorValue) -> Seq<Seq<u8>> {
    match v {
        TensorValue::String(x) => x@.map_values(|e: String| encode_utf8(e@)),
        _ => Seq::empty(),
    }
}

/// `r` is the tensor built from `name`, `dims` and `vals`: its element kind
/// is the kind of `vals`, the buffer of that kind holds the data, and every
/// other buffer is empty.
pub open spec fn tensor_holds(
    r: TensorProto,
    name: Option<String>,
    dims: Seq<i64>,
    vals: TensorValue,
) -> bool {
    &&& r.name == name
    &&& r.doc_string is None
    &&& r.dims@ == dims
    &&& r.data_type == Some(tensor_kind(vals))
    &&& r.float_data@ == (match vals {
        TensorValue::Float(x) => x@,
        _ => Seq::empty(),
    })
    &&& r.int32_data@ == int32_storage(vals)
    &&& r.string_data@.map_values(|b: Vec<u8>| b@) == string_storage(vals)
    &&& r.int64_data@ == (match vals {
        TensorValue::Int64(x) => x@,
        _ => Seq::empty(),
    })
    &&& r.double_data@ == (match vals {
        TensorValue::Double(x) => x@,
        _ => Seq::empty(),
    })
    &&& r.uint64_data@ == (match vals {
        TensorValue::UInt64(x) => x@,
        _ => Seq::empty(),
    })
}

/// Reading the buffer that the element kind of `vals` selects, and
/// narrowing or decoding each stored element back to that kind, gives the
/// data of `vals`.
pub open spec fn tensor_reads_back(r: TensorProto, vals: TensorValue) -> bool {
    &&& r.data_type == Some(tensor_kind(vals))
    &&& match vals {
        TensorValue::Float(x) => r.float_data@ == x@,
        TensorValue::UInt8(x) => r.int32_data@.map_values(|e: i32| e as u8) == x@,
        TensorValue::Int8(x) => r.int32_data@.map_values(|e: i32| e as i8) == x@,
        TensorValue::UInt16(x) => r.int32_data@.map_values(|e: i32| e as u16) == x@,
        TensorValue::Int16(x) => r.int32_data@.map_values(|e: i32| e as i16) == x@,
        TensorValue::Int32(x) => r.int32_data@ == x@,
        TensorValue::Int64(x) => r.int64_data@ == x@,
        TensorValue::String(x) => r.string_data@.map_values(|b: Vec<u8>| decode_utf8(b@))
            == x@.map_values(|e: String| e@),
        TensorValue::Bool(x) => r.int32_data@.map_values(|e: i32| e != 0) == x@,
        TensorValue::Double(x) => r.double_data@ == x@,
        TensorValue::UInt32(x) => r.int32_data@.map_values(|e: i32| #[verifier::truncate] (e as u32)) == x@,
        TensorValue::UInt64(x) => r.uint64_data@ == x@,
    }
}

/// Every tensor that the builder makes reads back as the data it was
/// built from, in its own element kind.
pub proof fn lemma_tensor_round_trip(
    r: TensorProto,
    name: Option<String>,
    dims: Seq<i64>,
    vals: TensorValue,
)
    requires
        tensor_holds(r, name, dims, vals),
    ensures
        tensor_reads_back(r, vals),
{
    broadcast use vstd::utf8::encode_utf8_decode_utf8;

    match vals {
        TensorValue::UInt8(x) => {
            assert(r.int32_data@.map_values(|e: i32| e as u8) =~= x@);
        },
        TensorValue::Int8(x) => {
            assert(r.int32_data@.map_values(|e: i32| e as i8) =~= x@);
        },
        TensorValue::UInt16(x) => {
            assert(r.int32_data@.map_values(|e: i32| e as u16) =~= x@);
        },
        TensorValue::Int16(x) => {
            assert(r.int32_data@.map_values(|e: i32| e as i16) =~= x@);
        },
        TensorValue::UInt32(x) => {
            assert forall|i: int| 0 <= i < x@.len() implies (#[verifier::truncate] ((
            #[verifier::truncate] (x@[i] as i32)) as u32)) == x@[i] by {
                let e = x@[i];
                assert((#[verifier::truncate] ((#[verifier::truncate] (e as i32)) as u32)) == e)
                    by (bit_vector);
            }
            assert(r.int32_data@.map_values(|e: i32| #[verifier::truncate] (e as u32)) =~= x@);
        },
        TensorValue::Bool(x) => {
            assert(r.int32_data@.map_values(|e: i32| e != 0) =~= x@);
        },
        TensorValue::String(x) => {
            let stored = r.string_data@.map_values(|b: Vec<u8>| b@);
            assert(stored.len() == x@.len());
            assert forall|i: int| 0 <= i < x@.len() implies decode_utf8(
                #[trigger] r.string_data@[i]@,
            ) == x@[i]@ by {
                assert(stored[i] == r.string_data@[i]@);
                assert(stored[i] == encode_utf8(x@[i]@));
            }
            assert(r.string_data@.map_values(|b: Vec<u8>| decode_utf8(b@)) =~= x@.map_values(
                |e: String| e@,
            ));
        },
        _ => {},
    }
}

/// Widens each element into 32-bit storage.
fn widen_u8(vals: &Vec<u8>) -> (r: Vec<i32>)
    ensures
        r@ == vals@.map_values(|e: u8| e as i32),
{
    let mut r: Vec<i32> = Vec::new();
    let mut i: usize = 0;
    while i < vals.len()
        invariant
            i <= vals@.len(),
            r@.len() == i,
            forall|j: int| 0 <= j < i ==> r@[j] == (vals@[j] as i32),
        decreases vals@.len() - i,
    {
        r.push(vals[i] as i32);
        i += 1;
    }
    assert(r@ =~= vals@.map_values(|e: u8| e as i32));
    r
}

/// Widens each element into 32-bit storage.
fn widen_i8(vals: &Vec<i8>) -> (r: Vec<i32>)
    ensures
        r@ == vals@.map_values(|e: i8| e as i32),
{
    let mut r: Vec<i32> = Vec::new();
    let mut i: usize = 0;
    while i < vals.len()
        invariant
            i <= vals@.len(),
            r@.len() == i,
            forall|j: int| 0 <= j < i ==> r@[j] == (vals@[j] as i32),
        decreases vals@.len() - i,
    {
        r.push(vals[i] as i32);
        i += 1;
    }
    assert(r@ =~= vals@.map_values(|e: i8| e as i32));
    r
}

/// Widens each element into 32-bit storage.
fn widen_u16(vals: &Vec<u16>) -> (r: Vec<i32>)
    ensures
        r@ == vals@.map_values(|e: u16| e as i32),
{
    let mut r: Vec<i32> = Vec::new();
    let mut i: usize = 0;
    while i < vals.len()
        invariant
            i <= vals@.len(),
            r@.len() == i,
            forall|j: int| 0 <= j < i ==> r@[j] == (vals@[j] as i32),
        decreases vals@.len() - i,
    {
        r.push(vals[i] as i32);
        i += 1;
    }
    assert(r@ =~= vals@.map_values(|e: u16| e as i32));
    r
}

/// Widens each element into 32-bit storage.
fn widen_i16(vals: &Vec<i16>) -> (r: Vec<i32>)
    ensures
        r@ == vals@.map_values(|e: i16| e as i32),
{
    let mut r: Vec<i32> = Vec::new();
    let mut i: usize = 0;
    while i < vals.len()
        invariant
            i <= vals@.len(),
            r@.len() == i,
            forall|j: int| 0 <= j < i ==> r@[j] == (vals@[j] as i32),
        decreases vals@.len() - i,
    {
        r.push(vals[i] as i32);
        i += 1;
    }
    assert(r@ =~= vals@.map_values(|e: i16| e as i32));
    r
}

/// Stores each element as the signed 32-bit value with the same bits.
fn reinterpret_u32(vals: &Vec<u32>) -> (r: Vec<i32>)
    ensures
        r@ == vals@.map_values(|e: u32| #[verifier::truncate] (e as i32)),
{
    let mut r: Vec<i32> = Vec::new();
    let mut i: usize = 0;
    while i < vals.len()
        invariant
            i <= vals@.len(),
            r@.len() == i,
            forall|j: int| 0 <= j < i ==> r@[j] == (#[verifier::truncate] (vals@[j] as i32)),
        decreases vals@.len() - i,
    {
        r.push(vals[i] as i32);
        i += 1;
    }
    assert(r@ =~= vals@.map_values(|e: u32| #[verifier::truncate] (e as i32)));
    r
}

/// Encodes each boolean as 1 (true) or 0 (false).
fn bools_as_int32(vals: &Vec<bool>) -> (r: Vec<i32>)
    ensures
        r@ == vals@.map_values(|b: bool| if b { 1i32 } else { 0i32 }),
{
    let mut r: Vec<i32> = Vec::new();
    let mut i: usize = 0;
    while i < vals.len()
        invariant
            i <= vals@.len(),
            r@.len() == i,
            forall|j: int| 0 <= j < i ==> r@[j] == (if vals@[j] { 1i32 } else { 0i32 }),
        decreases vals@.len() - i,
    {
        r.push(if vals[i] { 1 } else { 0 });
        i += 1;
    }
    assert(r@ =~= vals@.map_values(|b: bool| if b { 1i32 } else { 0i32 }));
    r
}

/// Encodes each string as its UTF-8 bytes.
fn strings_as_utf8(vals: &Vec<String>) -> (r: Vec<Vec<u8>>)
    ensures
        r@.map_values(|b: Vec<u8>| b@) == vals@.map_values(|e: String| encode_utf8(e@)),
{
    let mut r: Vec<Vec<u8>> = Vec::new();
    let mut i: usize = 0;
    while i < vals.len()
        invariant
            i <= vals@.len(),
            r@.len() == i,
            forall|j: int| 0 <= j < i ==> r@[j]@ == encode_utf8(vals@[j]@),
        decreases vals@.len() - i,
    {
        r.push(vals[i].as_str().as_bytes_vec());
        i += 1;
    }
    assert(r@.map_values(|b: Vec<u8>| b@) =~= vals@.map_values(|e: String| encode_utf8(e@)));
    r
}

/// A tensor with the given name and dimensions, no element kind and no data.
fn empty_tensor(name: Option<String>, dims: Vec<i64>) -> (r: TensorProto)
    ensures
        r.name == name,
        r.doc_string is None,
        r.dims@ == dims@,
        r.data_type is None,
        r.float_data@ == Seq::<u32>::empty(),
        r.int32_data@ == Seq::<i32>::empty(),
        r.string_data@ == Seq::<Vec<u8>>::empty(),
        r.int64_data@ == Seq::<i64>::empty(),
        r.double_data@ == Seq::<u64>::empty(),
        r.uint64_data@ == Seq::<u64>::empty(),
{
    TensorProto {
        dims,
        data_type: None,
        float_data: Vec::new(),
        int32_data: Vec::new(),
        string_data: Vec::new(),
        int64_data: Vec::new(),
        name,
        doc_string: None,
        double_data: Vec::new(),
        uint64_data: Vec::new(),
    }
}

/// Builds a tensor with the given name (set exactly when given) and
/// dimensions. The element kind is the logical kind of `vals`, and the data
/// go to the one buffer that kind is stored in: narrow integers, unsigned
/// 32-bit values and booleans (as 0 and 1) to the 32-bit integer buffer,
/// strings as UTF-8 bytes to the string buffer, and each other kind to its
/// own buffer. Every other buffer stays empty.
pub fn make_tensor(name: Option<String>, dims: Vec<i64>, vals: TensorValue) -> (r: TensorProto)
    ensures
        tensor_holds(r, name, dims@, vals),
        tensor_reads_back(r, vals),
{
    let ghost input = vals;
    let ghost given_name = name;
    let ghost given_dims = dims@;
    let mut tensor_proto = empty_tensor(name, dims);
    match vals {
        TensorValue::Bool(v) => {
            tensor_proto.int32_data = bools_as_int32(&v);
            tensor_proto.data_type = Some(TensorProto_DataType::BOOL);
        },
        TensorValue::Float(v) => {
            tensor_proto.float_data = v;
            tensor_proto.data_type = Some(TensorProto_DataType::FLOAT);
        },
        TensorValue::UInt8(v) => {
            tensor_proto.int32_data = widen_u8(&v);
            tensor_proto.data_type = Some(TensorProto_DataType::UINT8);
        },
        TensorValue::Int8(v) => {
            tensor_proto.int32_data = widen_i8(&v);
            tensor_proto.data_type = Some(TensorProto_DataType::INT8);
        },
        TensorValue::UInt16(v) => {
            tensor_proto.int32_data = widen_u16(&v);
            tensor_proto.data_type = Some(TensorProto_DataType::UINT16);
        },
        TensorValue::Int16(v) => {
            tensor_proto.int32_data = widen_i16(&v);
            tensor_proto.data_type = Some(TensorProto_DataType::INT16);
        },
        TensorValue::Int32(v) => {
            tensor_proto.int32_data = v;
            tensor_proto.data_type = Some(TensorProto_DataType::INT32);
        },
        TensorValue::String(v) => {
            tensor_proto.string_data = strings_as_utf8(&v);
            tensor_proto.data_type = Some(TensorProto_DataType::STRING);
        },
        TensorValue::UInt32(v) => {
            tensor_proto.int32_data = reinterpret_u32(&v);
            tensor_proto.data_type = Some(TensorProto_DataType::UINT32);
        },
        TensorValue::UInt64(v) => {
            tensor_proto.uint64_data = v;
            tensor_proto.data_type = Some(TensorProto_DataType::UINT64);
        },
        TensorValue::Int64(v) => {
            tensor_proto.int64_data = v;
            tensor_proto.data_type = Some(TensorProto_DataType::INT64);
        },
        TensorValue::Double(v) => {
            tensor_proto.double_data = v;
            tensor_proto.data_type = Some(TensorProto_DataType::DOUBLE);
        },
    }
    proof {
        assert(tensor_proto.string_data@.map_values(|b: Vec<u8>| b@) =~= string_storage(input));
        lemma_tensor_round_trip(tensor_proto, given_name, given_dims, input);
    }
    tensor_proto
}

} // verus!
