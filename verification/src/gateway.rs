//! What the service hands to the graph backend and what it takes back: a
//! parameterised query with the shape of the rows it asks for, and the rows
//! or the failure that came of it.

use crate::row::{Row, RowView, Scalar, ScalarView};
use vstd::prelude::*;

verus! {

/// The kind of plain value that a column or a property is read as.
#[derive(Clone, Copy, PartialEq, Eq, Structural, Debug)]
pub enum ValueKind {
    Text,
    Integer,
    Flag,
    TextList,
}

/// A property to read from a node, and the kind to read it as.
#[derive(Clone, Debug, PartialEq, Eq)]
pub struct PropertyShape {
    pub name: String,
    pub kind: ValueKind,
}

/// What a [`PropertyShape`] is to the contracts.
pub struct PropertyShapeView {
    pub name: Seq<char>,
    pub kind: ValueKind,
}

impl DeepView for PropertyShape {
    type V = PropertyShapeView;

    open spec fn deep_view(&self) -> PropertyShapeView {
        PropertyShapeView { name: self.name@, kind: self.kind }
    }
}

/// What to read from a column: a plain value, or properties of a node.
#[derive(Clone, Debug, PartialEq, Eq)]
pub enum CellShape {
    Scalar(ValueKind),
    Node(Vec<PropertyShape>),
}

/// What a [`CellShape`] is to the contracts.
pub enum CellShapeView {
    Scalar(ValueKind),
    Node(Seq<PropertyShapeView>),
}

impl DeepView for CellShape {
    type V = CellShapeView;

    open spec fn deep_view(&self) -> CellShapeView {
        match self {
            CellShape::Scalar(kind) => CellShapeView::Scalar(*kind),
            CellShape::Node(properties) => CellShapeView::Node(properties.deep_view()),
        }
    }
}

/// A column to read from each row of a result.
#[derive(Clone, Debug, PartialEq, Eq)]
pub struct ColumnShape {
    pub name: String,
    pub cell: CellShape,
}

/// What a [`ColumnShape`] is to the contracts.
pub struct ColumnShapeView {
    pub name: Seq<char>,
    pub cell: CellShapeView,
}

impl DeepView for ColumnShape {
    type V = ColumnShapeView;

    open spec fn deep_view(&self) -> ColumnShapeView {
        ColumnShapeView { name: self.name@, cell: self.cell.deep_view() }
    }
}

/// A named parameter bound into a query.
#[derive(Clone, Debug, PartialEq, Eq)]
pub struct Parameter {
    pub name: String,
    pub value: Scalar,
}

/// What a [`Parameter`] is to the contracts.
pub struct ParameterView {
    pub name: Seq<char>,
    pub value: ScalarView,
}

impl DeepView for Parameter {
    type V = ParameterView;

    open spec fn deep_view(&self) -> ParameterView {
        ParameterView { name: self.name@, value: self.value.deep_view() }
    }
}

/// A query for the backend to execute.
#[derive(Clone, Debug, PartialEq, Eq)]
pub struct Request {
    pub query: String,
    pub parameters: Vec<Parameter>,
    pub shape: Vec<ColumnShape>,
}

/// What a [`Request`] is to the contracts.
pub struct RequestView {
    pub query: Seq<char>,
    pub parameters: Seq<ParameterView>,
    pub shape: Seq<ColumnShapeView>,
}

impl DeepView for Request {
    type V = RequestView;

    open spec fn deep_view(&self) -> RequestView {
        RequestView {
            query: self.query@,
            parameters: self.parameters.deep_view(),
            shape: self.shape.deep_view(),
        }
    }
}

/// How the execution of a request ended.
#[derive(Clone, Debug, PartialEq, Eq)]
pub enum Outcome {
    Rows(Vec<Row>),
    Failed,
}

/// What an [`Outcome`] is to the contracts.
pub enum OutcomeView {
    Rows(Seq<RowView>),
    Failed,
}

impl DeepView for Outcome {
    type V = OutcomeView;

    open spec fn deep_view(&self) -> OutcomeView {
        match self {
            Outcome::Rows(rows) => OutcomeView::Rows(rows.deep_view()),
            Outcome::Failed => OutcomeView::Failed,
        }
    }
}

/// The shape of a property called `name` that is read as `kind`.
pub open spec fn property_shape(name: Seq<char>, kind: ValueKind) -> PropertyShapeView {
    PropertyShapeView { name, kind }
}

/// The shape of a column called `name` that holds a plain value of `kind`.
pub open spec fn scalar_column(name: Seq<char>, kind: ValueKind) -> ColumnShapeView {
    ColumnShapeView { name, cell: CellShapeView::Scalar(kind) }
}

/// The shape of a column called `name` that holds a node with `properties`.
pub open spec fn node_column(name: Seq<char>, properties: Seq<PropertyShapeView>) -> ColumnShapeView {
    ColumnShapeView { name, cell: CellShapeView::Node(properties) }
}

impl PropertyShape {
    /// The shape of a property called `name` that is read as `kind`.
    pub fn new(name: &str, kind: ValueKind) -> (shape: PropertyShape)
        ensures
            shape.deep_view() == property_shape(name@, kind),
    {
        PropertyShape { name: name.to_owned(), kind }
    }
}

impl ColumnShape {
    /// The shape of a column called `name` that holds a plain value of `kind`.
    pub fn scalar(name: &str, kind: ValueKind) -> (shape: ColumnShape)
        ensures
            shape.deep_view() == scalar_column(name@, kind),
    {
        ColumnShape { name: name.to_owned(), cell: CellShape::Scalar(kind) }
    }

    /// The shape of a column called `name` that holds a node with `properties`.
    pub fn node(name: &str, properties: Vec<PropertyShape>) -> (shape: ColumnShape)
        ensures
            shape.deep_view() == node_column(name@, properties.deep_view()),
    {
        ColumnShape { name: name.to_owned(), cell: CellShape::Node(properties) }
    }
}

impl Parameter {
    /// The parameter `name` bound to the text `text`.
    pub fn text(name: &str, text: &String) -> (parameter: Parameter)
        ensures
            parameter.deep_view() == (ParameterView {
                name: name@,
                value: ScalarView::Text(text@),
            }),
    {
        Parameter { name: name.to_owned(), value: Scalar::Text(text.clone()) }
    }

    /// The parameter `name` bound to the list `texts`.
    pub fn text_list(name: &str, texts: &Vec<String>) -> (parameter: Parameter)
        ensures
            parameter.deep_view() == (ParameterView {
                name: name@,
                value: ScalarView::TextList(texts.deep_view()),
            }),
    {
        Parameter { name: name.to_owned(), value: Scalar::TextList(crate::row::copy_texts(texts)) }
    }
}

} // verus!
