//! Typed builders for the in-memory messages of a machine-learning model
//! interchange format: models, graphs, nodes, tensors, value infos and
//! attributes.
#![allow(non_camel_case_types)]

pub mod helper;
pub mod proto;
