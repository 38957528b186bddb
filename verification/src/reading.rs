//! Reading a row by the shape of the request that asked for it, and why
//! that is enough: a lookup by a name of the shape finds in what was read
//! what it finds in the row, wherever the row holds the kind that the shape
//! asks for.
//!
//! [`read_row_by`] and [`read_rows_by`] are the reader. Whoever turns the
//! backend's rows into [`Row`]s hands them through it, so that what the
//! decoders see is what the request's shape asks for and nothing else; the
//! laws of this module, and those on the shapes in [`crate::candidates`]
//! and [`crate::ranking`], say that the decoders then find all they need.

use crate::gateway::{
    CellShape, CellShapeView, ColumnShape, ColumnShapeView, PropertyShape, PropertyShapeView,
    ValueKind,
};
use crate::row::{
    find_cell, find_property, property_of, Cell, CellView, Column, ColumnView, Property,
    PropertyView, Row, RowView, Scalar, ScalarView,
};
use vstd::prelude::*;

verus! {

/// Whether `value` is of the kind `kind`.
pub open spec fn admits(kind: ValueKind, value: ScalarView) -> bool {
    match kind {
        ValueKind::Text => value is Text,
        ValueKind::Integer => value is Integer,
        ValueKind::Flag => value is Flag,
        ValueKind::TextList => value is TextList,
    }
}

/// `value` where it is there and of the kind `kind`.
pub open spec fn admitted(kind: ValueKind, value: Option<ScalarView>) -> Option<ScalarView> {
    match value {
        Some(value) => if admits(kind, value) {
            Some(value)
        } else {
            None
        },
        None => None,
    }
}

/// What is read of `properties` by `shape`: for each property of the shape,
/// in its order, the first property of that name where it is of the kind
/// asked for.
pub open spec fn read_properties(
    properties: Seq<PropertyView>,
    shape: Seq<PropertyShapeView>,
) -> Seq<PropertyView>
    decreases shape.len(),
{
    if shape.len() == 0 {
        Seq::empty()
    } else {
        let rest = read_properties(properties, shape.drop_first());
        match admitted(shape.first().kind, find_property(properties, shape.first().name)) {
            Some(value) => seq![PropertyView { name: shape.first().name, value }] + rest,
            None => rest,
        }
    }
}

/// What is read of `cell` by `shape`: a plain value of the kind asked for,
/// or of a node the properties asked for; nothing where the cell is missing
/// or is not what the shape asks for.
pub open spec fn read_cell(cell: Option<CellView>, shape: CellShapeView) -> Option<CellView> {
    match (cell, shape) {
        (Some(CellView::Scalar(value)), CellShapeView::Scalar(kind)) => if admits(kind, value) {
            Some(CellView::Scalar(value))
        } else {
            None
        },
        (Some(CellView::Node(properties)), CellShapeView::Node(shape)) => Some(
            CellView::Node(read_properties(properties, shape)),
        ),
        _ => None,
    }
}

/// What is read of `columns` by `shape`: for each column of the shape, in
/// its order, what is read of the first column of that name.
pub open spec fn read_columns(columns: Seq<ColumnView>, shape: Seq<ColumnShapeView>) -> Seq<
    ColumnView,
>
    decreases shape.len(),
{
    if shape.len() == 0 {
        Seq::empty()
    } else {
        let rest = read_columns(columns, shape.drop_first());
        match read_cell(find_cell(columns, shape.first().name), shape.first().cell) {
            Some(cell) => seq![ColumnView { name: shape.first().name, cell }] + rest,
            None => rest,
        }
    }
}

/// The row that a reader finds who reads `row` by `shape`.
pub open spec fn read_row(row: RowView, shape: Seq<ColumnShapeView>) -> RowView {
    RowView { columns: read_columns(row.columns, shape) }
}

/// The rows that a reader finds who reads each of `rows` by `shape`.
pub open spec fn read_rows(rows: Seq<RowView>, shape: Seq<ColumnShapeView>) -> Seq<RowView> {
    Seq::new(rows.len(), |i: int| read_row(rows[i], shape))
}

/// Whether no two properties of `shape` have one name.
pub open spec fn distinct_properties(shape: Seq<PropertyShapeView>) -> bool {
    forall|i: int, j: int|
        0 <= i < j < shape.len() ==> (#[trigger] shape[i]).name != (#[trigger] shape[j]).name
}

/// Whether no two columns of `shape` have one name.
pub open spec fn distinct_columns(shape: Seq<ColumnShapeView>) -> bool {
    forall|i: int, j: int|
        0 <= i < j < shape.len() ==> (#[trigger] shape[i]).name != (#[trigger] shape[j]).name
}

/// Nothing is read under a name that the shape does not hold.
pub proof fn lemma_unshaped_property_is_not_read(
    properties: Seq<PropertyView>,
    shape: Seq<PropertyShapeView>,
    name: Seq<char>,
)
    requires
        forall|j: int| 0 <= j < shape.len() ==> (#[trigger] shape[j]).name != name,
    ensures
        find_property(read_properties(properties, shape), name) is None,
    decreases shape.len(),
{
    if shape.len() > 0 {
        let rest = read_properties(properties, shape.drop_first());
        assert forall|j: int| 0 <= j < shape.drop_first().len() implies (
        #[trigger] shape.drop_first()[j]).name != name by {
            assert(shape[j + 1].name != name);
        }
        lemma_unshaped_property_is_not_read(properties, shape.drop_first(), name);
        assert(shape[0].name != name);
        match admitted(shape.first().kind, find_property(properties, shape.first().name)) {
            Some(value) => {
                let read = seq![PropertyView { name: shape.first().name, value }] + rest;
                assert(read.first().name == shape.first().name);
                assert(read.drop_first() =~= rest);
            },
            None => {},
        }
    }
}

/// Under a name of the shape, what was read holds what the properties hold
/// under it, where that is of the kind asked for.
pub proof fn lemma_shaped_property_is_read(
    properties: Seq<PropertyView>,
    shape: Seq<PropertyShapeView>,
    at: int,
)
    requires
        distinct_properties(shape),
        0 <= at < shape.len(),
    ensures
        find_property(read_properties(properties, shape), shape[at].name) == admitted(
            shape[at].kind,
            find_property(properties, shape[at].name),
        ),
    decreases shape.len(),
{
    let rest = read_properties(properties, shape.drop_first());
    let head = admitted(shape.first().kind, find_property(properties, shape.first().name));
    match head {
        Some(value) => {
            let read = seq![PropertyView { name: shape.first().name, value }] + rest;
            assert(read.first() == PropertyView { name: shape.first().name, value });
            assert(read.drop_first() =~= rest);
        },
        None => {},
    }
    if at == 0 {
        if head is None {
            assert forall|j: int| 0 <= j < shape.drop_first().len() implies (
            #[trigger] shape.drop_first()[j]).name != shape[0].name by {
                assert(shape[0].name != shape[j + 1].name);
            }
            lemma_unshaped_property_is_not_read(properties, shape.drop_first(), shape[0].name);
        }
    } else {
        assert(shape[0].name != shape[at].name);
        assert(distinct_properties(shape.drop_first())) by {
            assert forall|i: int, j: int| 0 <= i < j < shape.drop_first().len() implies (
            #[trigger] shape.drop_first()[i]).name != (#[trigger] shape.drop_first()[j]).name by {
                assert(shape[i + 1].name != shape[j + 1].name);
            }
        }
        assert(shape.drop_first()[at - 1] == shape[at]);
        lemma_shaped_property_is_read(properties, shape.drop_first(), at - 1);
    }
}

/// No column is read under a name that the shape does not hold.
pub proof fn lemma_unshaped_column_is_not_read(
    columns: Seq<ColumnView>,
    shape: Seq<ColumnShapeView>,
    name: Seq<char>,
)
    requires
        forall|j: int| 0 <= j < shape.len() ==> (#[trigger] shape[j]).name != name,
    ensures
        find_cell(read_columns(columns, shape), name) is None,
    decreases shape.len(),
{
    if shape.len() > 0 {
        let rest = read_columns(columns, shape.drop_first());
        assert forall|j: int| 0 <= j < shape.drop_first().len() implies (
        #[trigger] shape.drop_first()[j]).name != name by {
            assert(shape[j + 1].name != name);
        }
        lemma_unshaped_column_is_not_read(columns, shape.drop_first(), name);
        assert(shape[0].name != name);
        match read_cell(find_cell(columns, shape.first().name), shape.first().cell) {
            Some(cell) => {
                let read = seq![ColumnView { name: shape.first().name, cell }] + rest;
                assert(read.first().name == shape.first().name);
                assert(read.drop_first() =~= rest);
            },
            None => {},
        }
    }
}

/// Under a name of the shape, the row that was read holds what is read of
/// the column that the row holds under it.
pub proof fn lemma_shaped_column_is_read(row: RowView, shape: Seq<ColumnShapeView>, at: int)
    requires
        distinct_columns(shape),
        0 <= at < shape.len(),
    ensures
        find_cell(read_row(row, shape).columns, shape[at].name) == read_cell(
            find_cell(row.columns, shape[at].name),
            shape[at].cell,
        ),
    decreases shape.len(),
{
    let columns = row.columns;
    let rest = read_columns(columns, shape.drop_first());
    let head = read_cell(find_cell(columns, shape.first().name), shape.first().cell);
    match head {
        Some(cell) => {
            let read = seq![ColumnView { name: shape.first().name, cell }] + rest;
            assert(read.first() == ColumnView { name: shape.first().name, cell });
            assert(read.drop_first() =~= rest);
        },
        None => {},
    }
    if at == 0 {
        if head is None {
            assert forall|j: int| 0 <= j < shape.drop_first().len() implies (
            #[trigger] shape.drop_first()[j]).name != shape[0].name by {
                assert(shape[0].name != shape[j + 1].name);
            }
            lemma_unshaped_column_is_not_read(columns, shape.drop_first(), shape[0].name);
        }
    } else {
        assert(shape[0].name != shape[at].name);
        assert(distinct_columns(shape.drop_first())) by {
            assert forall|i: int, j: int| 0 <= i < j < shape.drop_first().len() implies (
            #[trigger] shape.drop_first()[i]).name != (#[trigger] shape.drop_first()[j]).name by {
                assert(shape[i + 1].name != shape[j + 1].name);
            }
        }
        assert(shape.drop_first()[at - 1] == shape[at]);
        lemma_shaped_column_is_read(row, shape.drop_first(), at - 1);
    }
}

/// A plain value that the shape asks for is found in the row that was read
/// as it is found in the row itself, where it is of the kind asked for.
pub proof fn lemma_scalar_is_read(row: RowView, shape: Seq<ColumnShapeView>, at: int)
    requires
        distinct_columns(shape),
        0 <= at < shape.len(),
        shape[at].cell is Scalar,
    ensures
        read_row(row, shape).scalar(shape[at].name) == admitted(
            shape[at].cell->Scalar_0,
            row.scalar(shape[at].name),
        ),
{
    lemma_shaped_column_is_read(row, shape, at);
}

/// A property that the shape asks for is found in the row that was read as
/// it is found in the row itself, where it is of the kind asked for.
pub proof fn lemma_node_property_is_read(
    row: RowView,
    shape: Seq<ColumnShapeView>,
    at: int,
    property: int,
)
    requires
        distinct_columns(shape),
        0 <= at < shape.len(),
        shape[at].cell is Node,
        distinct_properties(shape[at].cell->Node_0),
        0 <= property < shape[at].cell->Node_0.len(),
    ensures
        read_row(row, shape).node_property(
            shape[at].name,
            shape[at].cell->Node_0[property].name,
        ) == admitted(
            shape[at].cell->Node_0[property].kind,
            row.node_property(shape[at].name, shape[at].cell->Node_0[property].name),
        ),
{
    lemma_shaped_column_is_read(row, shape, at);
    match find_cell(row.columns, shape[at].name) {
        Some(CellView::Node(properties)) => {
            lemma_shaped_property_is_read(properties, shape[at].cell->Node_0, property);
        },
        _ => {},
    }
}

/// Whether `value` is of the kind `kind`.
pub fn is_of_kind(kind: ValueKind, value: &Scalar) -> (admitted: bool)
    ensures
        admitted == admits(kind, value.deep_view()),
{
    match kind {
        ValueKind::Text => match value {
            Scalar::Text(_) => true,
            _ => false,
        },
        ValueKind::Integer => match value {
            Scalar::Integer(_) => true,
            _ => false,
        },
        ValueKind::Flag => match value {
            Scalar::Flag(_) => true,
            _ => false,
        },
        ValueKind::TextList => match value {
            Scalar::TextList(_) => true,
            _ => false,
        },
    }
}

/// What is read of `properties` by `shape`.
pub fn read_properties_by(properties: &Vec<Property>, shape: &Vec<PropertyShape>) -> (read: Vec<
    Property,
>)
    ensures
        read.deep_view() == read_properties(properties.deep_view(), shape.deep_view()),
{
    let ghost held = properties.deep_view();
    let ghost asked = shape.deep_view();
    let mut read: Vec<Property> = Vec::new();
    let mut i: usize = 0;
    assert(asked.skip(0) =~= asked);
    assert(read.deep_view() + read_properties(held, asked) =~= read_properties(held, asked));
    while i < shape.len()
        invariant
            i <= shape.len(),
            held == properties.deep_view(),
            asked == shape.deep_view(),
            read.deep_view() + read_properties(held, asked.skip(i as int)) == read_properties(
                held,
                asked,
            ),
        decreases shape.len() - i,
    {
        let ghost before = read.deep_view();
        let ghost rest = read_properties(held, asked.skip(i + 1));
        assert(asked.skip(i as int).first() == shape[i as int].deep_view());
        assert(asked.skip(i as int).drop_first() =~= asked.skip(i + 1));
        match property_of(properties, &shape[i].name) {
            Some(value) => {
                if is_of_kind(shape[i].kind, value) {
                    read.push(Property { name: shape[i].name.clone(), value: value.copy() });
                    let ghost found = PropertyView {
                        name: shape[i as int].name@,
                        value: value.deep_view(),
                    };
                    assert(read.deep_view() =~= before.push(found));
                    assert(before.push(found) + rest =~= before + (seq![found] + rest));
                }
            },
            None => {},
        }
        i = i + 1;
    }
    assert(asked.skip(shape.len() as int) =~= Seq::empty());
    assert(read.deep_view() + Seq::<PropertyView>::empty() =~= read.deep_view());
    read
}

/// What is read by `shape` of the cell that a row holds under a name.
pub fn read_cell_by(cell: Option<&Cell>, shape: &CellShape) -> (read: Option<Cell>)
    ensures
        read.deep_view() == read_cell(cell.deep_view(), shape.deep_view()),
{
    match cell {
        Some(Cell::Scalar(value)) => match shape {
            CellShape::Scalar(kind) => if is_of_kind(*kind, value) {
                Some(Cell::Scalar(value.copy()))
            } else {
                None
            },
            CellShape::Node(_) => None,
        },
        Some(Cell::Node(properties)) => match shape {
            CellShape::Scalar(_) => None,
            CellShape::Node(asked) => Some(Cell::Node(read_properties_by(properties, asked))),
        },
        None => None,
    }
}

/// The row that a reader finds who reads `row` by `shape`: of each column
/// that the shape asks for, what the row holds of the kind asked for.
pub fn read_row_by(row: &Row, shape: &Vec<ColumnShape>) -> (read: Row)
    ensures
        read.deep_view() == read_row(row.deep_view(), shape.deep_view()),
{
    let ghost held = row.deep_view().columns;
    let ghost asked = shape.deep_view();
    let mut columns: Vec<Column> = Vec::new();
    let mut i: usize = 0;
    assert(asked.skip(0) =~= asked);
    assert(columns.deep_view() + read_columns(held, asked) =~= read_columns(held, asked));
    while i < shape.len()
        invariant
            i <= shape.len(),
            held == row.deep_view().columns,
            asked == shape.deep_view(),
            columns.deep_view() + read_columns(held, asked.skip(i as int)) == read_columns(
                held,
                asked,
            ),
        decreases shape.len() - i,
    {
        let ghost before = columns.deep_view();
        let ghost rest = read_columns(held, asked.skip(i + 1));
        assert(asked.skip(i as int).first() == shape[i as int].deep_view());
        assert(asked.skip(i as int).drop_first() =~= asked.skip(i + 1));
        match read_cell_by(row.cell(&shape[i].name), &shape[i].cell) {
            Some(cell) => {
                let ghost found = ColumnView { name: shape[i as int].name@, cell: cell.deep_view() };
                columns.push(Column { name: shape[i].name.clone(), cell });
                assert(columns.deep_view() =~= before.push(found));
                assert(before.push(found) + rest =~= before + (seq![found] + rest));
            },
            None => {},
        }
        i = i + 1;
    }
    assert(asked.skip(shape.len() as int) =~= Seq::empty());
    assert(columns.deep_view() + Seq::<ColumnView>::empty() =~= columns.deep_view());
    Row { columns }
}

/// The rows that a reader finds who reads each of `rows` by `shape`.
pub fn read_rows_by(rows: &Vec<Row>, shape: &Vec<ColumnShape>) -> (read: Vec<Row>)
    ensures
        read.deep_view() == read_rows(rows.deep_view(), shape.deep_view()),
{
    let mut read: Vec<Row> = Vec::new();
    let mut i: usize = 0;
    while i < rows.len()
        invariant
            i <= rows.len(),
            read.len() == i,
            forall|k: int|
                0 <= k < i ==> (#[trigger] read[k]).deep_view() == read_row(
                    rows[k].deep_view(),
                    shape.deep_view(),
                ),
        decreases rows.len() - i,
    {
        read.push(read_row_by(&rows[i], shape));
        i = i + 1;
    }
    assert(read.deep_view() =~= read_rows(rows.deep_view(), shape.deep_view()));
    read
}

} // verus!
