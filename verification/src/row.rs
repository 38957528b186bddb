//! Rows as the graph backend returns them: named columns that hold a plain
//! value or a node with named properties.

use vstd::prelude::*;

verus! {

/// A plain value of a column or of a node's property.
#[derive(Clone, Debug, PartialEq, Eq)]
pub enum Scalar {
    Text(String),
    Integer(i64),
    Flag(bool),
    TextList(Vec<String>),
}

/// What a [`Scalar`] is to the contracts.
pub enum ScalarView {
    Text(Seq<char>),
    Integer(i64),
    Flag(bool),
    TextList(Seq<Seq<char>>),
}

impl DeepView for Scalar {
    type V = ScalarView;

    open spec fn deep_view(&self) -> ScalarView {
        match self {
            Scalar::Text(text) => ScalarView::Text(text@),
            Scalar::Integer(number) => ScalarView::Integer(*number),
            Scalar::Flag(flag) => ScalarView::Flag(*flag),
            Scalar::TextList(texts) => ScalarView::TextList(texts.deep_view()),
        }
    }
}

/// A named property of a node.
#[derive(Clone, Debug, PartialEq, Eq)]
pub struct Property {
    pub name: String,
    pub value: Scalar,
}

/// What a [`Property`] is to the contracts.
pub struct PropertyView {
    pub name: Seq<char>,
    pub value: ScalarView,
}

impl DeepView for Property {
    type V = PropertyView;

    open spec fn deep_view(&self) -> PropertyView {
        PropertyView { name: self.name@, value: self.value.deep_view() }
    }
}

/// What a column holds.
#[derive(Clone, Debug, PartialEq, Eq)]
pub enum Cell {
    Scalar(Scalar),
    Node(Vec<Property>),
}

/// What a [`Cell`] is to the contracts.
pub enum CellView {
    Scalar(ScalarView),
    Node(Seq<PropertyView>),
}

impl DeepView for Cell {
    type V = CellView;

    open spec fn deep_view(&self) -> CellView {
        match self {
            Cell::Scalar(scalar) => CellView::Scalar(scalar.deep_view()),
            Cell::Node(properties) => CellView::Node(properties.deep_view()),
        }
    }
}

/// A named column of a row.
#[derive(Clone, Debug, PartialEq, Eq)]
pub struct Column {
    pub name: String,
    pub cell: Cell,
}

/// What a [`Column`] is to the contracts.
pub struct ColumnView {
    pub name: Seq<char>,
    pub cell: CellView,
}

impl DeepView for Column {
    type V = ColumnView;

    open spec fn deep_view(&self) -> ColumnView {
        ColumnView { name: self.name@, cell: self.cell.deep_view() }
    }
}

/// One row of a query's result.
#[derive(Clone, Debug, PartialEq, Eq)]
pub struct Row {
    pub columns: Vec<Column>,
}

/// What a [`Row`] is to the contracts.
pub struct RowView {
    pub columns: Seq<ColumnView>,
}

impl DeepView for Row {
    type V = RowView;

    open spec fn deep_view(&self) -> RowView {
        RowView { columns: self.columns.deep_view() }
    }
}

/// The cell of the first column called `name`, if there is one.
pub open spec fn find_cell(columns: Seq<ColumnView>, name: Seq<char>) -> Option<CellView>
    decreases columns.len(),
{
    if columns.len() == 0 {
        None
    } else if columns.first().name == name {
        Some(columns.first().cell)
    } else {
        find_cell(columns.drop_first(), name)
    }
}

/// The value of the first property called `name`, if there is one.
pub open spec fn find_property(properties: Seq<PropertyView>, name: Seq<char>) -> Option<
    ScalarView,
>
    decreases properties.len(),
{
    if properties.len() == 0 {
        None
    } else if properties.first().name == name {
        Some(properties.first().value)
    } else {
        find_property(properties.drop_first(), name)
    }
}

impl ScalarView {
    /// The text that the value is, if it is one.
    pub open spec fn as_text(self) -> Option<Seq<char>> {
        match self {
            ScalarView::Text(text) => Some(text),
            _ => None,
        }
    }

    /// The integer that the value is, if it is one.
    pub open spec fn as_integer(self) -> Option<i64> {
        match self {
            ScalarView::Integer(number) => Some(number),
            _ => None,
        }
    }

    /// The flag that the value is, if it is one.
    pub open spec fn as_flag(self) -> Option<bool> {
        match self {
            ScalarView::Flag(flag) => Some(flag),
            _ => None,
        }
    }

    /// The list of texts that the value is, if it is one.
    pub open spec fn as_text_list(self) -> Option<Seq<Seq<char>>> {
        match self {
            ScalarView::TextList(texts) => Some(texts),
            _ => None,
        }
    }
}

impl RowView {
    /// The plain value in the column `column`; none where the column is
    /// missing or holds a node.
    pub open spec fn scalar(self, column: Seq<char>) -> Option<ScalarView> {
        match find_cell(self.columns, column) {
            Some(CellView::Scalar(scalar)) => Some(scalar),
            _ => None,
        }
    }

    /// The value of the property `property` of the node in the column
    /// `column`; none where the column is missing or holds no node, or the
    /// node lacks the property.
    pub open spec fn node_property(self, column: Seq<char>, property: Seq<char>) -> Option<
        ScalarView,
    > {
        match find_cell(self.columns, column) {
            Some(CellView::Node(properties)) => find_property(properties, property),
            _ => None,
        }
    }

    /// The text in the column `column`.
    pub open spec fn text(self, column: Seq<char>) -> Option<Seq<char>> {
        match self.scalar(column) {
            Some(scalar) => scalar.as_text(),
            None => None,
        }
    }

    /// The integer in the column `column`.
    pub open spec fn integer(self, column: Seq<char>) -> Option<i64> {
        match self.scalar(column) {
            Some(scalar) => scalar.as_integer(),
            None => None,
        }
    }

    /// The flag in the column `column`.
    pub open spec fn flag(self, column: Seq<char>) -> Option<bool> {
        match self.scalar(column) {
            Some(scalar) => scalar.as_flag(),
            None => None,
        }
    }

    /// The text that is the property `property` of the node in `column`.
    pub open spec fn node_text(self, column: Seq<char>, property: Seq<char>) -> Option<
        Seq<char>,
    > {
        match self.node_property(column, property) {
            Some(scalar) => scalar.as_text(),
            None => None,
        }
    }

    /// The list of texts that is the property `property` of the node in `column`.
    pub open spec fn node_text_list(self, column: Seq<char>, property: Seq<char>) -> Option<
        Seq<Seq<char>>,
    > {
        match self.node_property(column, property) {
            Some(scalar) => scalar.as_text_list(),
            None => None,
        }
    }
}

/// A copy of `texts`.
pub fn copy_texts(texts: &Vec<String>) -> (copy: Vec<String>)
    ensures
        copy.deep_view() == texts.deep_view(),
{
    let mut copy: Vec<String> = Vec::new();
    let mut i: usize = 0;
    while i < texts.len()
        invariant
            i <= texts.len(),
            copy.len() == i,
            forall|k: int| 0 <= k < i ==> copy[k]@ == texts[k]@,
        decreases texts.len() - i,
    {
        copy.push(texts[i].clone());
        i = i + 1;
    }
    assert(copy.deep_view() =~= texts.deep_view());
    copy
}

impl Scalar {
    /// A copy of the value.
    pub fn copy(&self) -> (copy: Scalar)
        ensures
            copy.deep_view() == self.deep_view(),
    {
        match self {
            Scalar::Text(text) => Scalar::Text(text.clone()),
            Scalar::Integer(number) => Scalar::Integer(*number),
            Scalar::Flag(flag) => Scalar::Flag(*flag),
            Scalar::TextList(texts) => Scalar::TextList(copy_texts(texts)),
        }
    }

    /// The text that the value is, if it is one.
    pub fn as_text(&self) -> (text: Option<&String>)
        ensures
            text.deep_view() == self.deep_view().as_text(),
    {
        match self {
            Scalar::Text(text) => Some(text),
            _ => None,
        }
    }

    /// The integer that the value is, if it is one.
    pub fn as_integer(&self) -> (number: Option<i64>)
        ensures
            number == self.deep_view().as_integer(),
    {
        match self {
            Scalar::Integer(number) => Some(*number),
            _ => None,
        }
    }

    /// The flag that the value is, if it is one.
    pub fn as_flag(&self) -> (flag: Option<bool>)
        ensures
            flag == self.deep_view().as_flag(),
    {
        match self {
            Scalar::Flag(flag) => Some(*flag),
            _ => None,
        }
    }

    /// The list of texts that the value is, if it is one.
    pub fn as_text_list(&self) -> (texts: Option<&Vec<String>>)
        ensures
            texts.deep_view() == self.deep_view().as_text_list(),
    {
        match self {
            Scalar::TextList(texts) => Some(texts),
            _ => None,
        }
    }
}

/// The value of the first property of `properties` called `name`.
pub fn property_of<'a>(properties: &'a Vec<Property>, name: &String) -> (value: Option<
    &'a Scalar,
>)
    ensures
        value.deep_view() == find_property(properties.deep_view(), name@),
{
    let ghost all = properties.deep_view();
    let mut i: usize = 0;
    assert(all.skip(0) =~= all);
    while i < properties.len()
        invariant
            i <= properties.len(),
            all == properties.deep_view(),
            find_property(all, name@) == find_property(all.skip(i as int), name@),
        decreases properties.len() - i,
    {
        assert(all.skip(i as int).first() == properties[i as int].deep_view());
        assert(all.skip(i as int).drop_first() =~= all.skip(i + 1));
        if properties[i].name == *name {
            return Some(&properties[i].value);
        }
        i = i + 1;
    }
    None
}

impl Row {
    /// The cell of the first column called `name`.
    pub fn cell(&self, name: &String) -> (cell: Option<&Cell>)
        ensures
            cell.deep_view() == find_cell(self.deep_view().columns, name@),
    {
        let ghost all = self.columns.deep_view();
        let mut i: usize = 0;
        assert(all.skip(0) =~= all);
        while i < self.columns.len()
            invariant
                i <= self.columns.len(),
                all == self.columns.deep_view(),
                find_cell(all, name@) == find_cell(all.skip(i as int), name@),
            decreases self.columns.len() - i,
        {
            assert(all.skip(i as int).first() == self.columns[i as int].deep_view());
            assert(all.skip(i as int).drop_first() =~= all.skip(i + 1));
            if self.columns[i].name == *name {
                return Some(&self.columns[i].cell);
            }
            i = i + 1;
        }
        None
    }

    /// The plain value in the column `column`.
    pub fn scalar(&self, column: &String) -> (value: Option<&Scalar>)
        ensures
            value.deep_view() == self.deep_view().scalar(column@),
    {
        match self.cell(column) {
            Some(Cell::Scalar(scalar)) => Some(scalar),
            _ => None,
        }
    }

    /// The value of the property `property` of the node in the column `column`.
    pub fn node_property(&self, column: &String, property: &String) -> (value: Option<&Scalar>)
        ensures
            value.deep_view() == self.deep_view().node_property(column@, property@),
    {
        match self.cell(column) {
            Some(Cell::Node(properties)) => property_of(properties, property),
            _ => None,
        }
    }

    /// The text in the column `column`.
    pub fn text(&self, column: &String) -> (text: Option<&String>)
        ensures
            text.deep_view() == self.deep_view().text(column@),
    {
        match self.scalar(column) {
            Some(scalar) => scalar.as_text(),
            None => None,
        }
    }

    /// The integer in the column `column`.
    pub fn integer(&self, column: &String) -> (number: Option<i64>)
        ensures
            number == self.deep_view().integer(column@),
    {
        match self.scalar(column) {
            Some(scalar) => scalar.as_integer(),
            None => None,
        }
    }

    /// The flag in the column `column`.
    pub fn flag(&self, column: &String) -> (flag: Option<bool>)
        ensures
            flag == self.deep_view().flag(column@),
    {
        match self.scalar(column) {
            Some(scalar) => scalar.as_flag(),
            None => None,
        }
    }

    /// The text that is the property `property` of the node in `column`.
    pub fn node_text(&self, column: &String, property: &String) -> (text: Option<&String>)
        ensures
            text.deep_view() == self.deep_view().node_text(column@, property@),
    {
        match self.node_property(column, property) {
            Some(scalar) => scalar.as_text(),
            None => None,
        }
    }

    /// The list of texts that is the property `property` of the node in `column`.
    pub fn node_text_list(&self, column: &String, property: &String) -> (texts: Option<
        &Vec<String>,
    >)
        ensures
            texts.deep_view() == self.deep_view().node_text_list(column@, property@),
    {
        match self.node_property(column, property) {
            Some(scalar) => scalar.as_text_list(),
            None => None,
        }
    }
}

} // verus!
