//! Models of the stateful widgets the gallery composes.
//!
//! Each model holds, as plain values, exactly the state the gallery's
//! logic reads or writes: input text, the selected option of a select or
//! list, slider bounds and value, table shape, tree nodes. The widgets'
//! visuals and input handling are external; these models are what the
//! entity store owns for them.

use vstd::prelude::*;

use crate::CoreError;

verus! {

/// A single- or multi-line text input.
pub struct InputModel {
    pub text: String,
    pub placeholder: String,
    pub multi_line: bool,
    pub rows: u64,
}

impl InputModel {
    /// A fresh single-line input showing `placeholder`.
    pub fn new(placeholder: String) -> (m: InputModel)
        ensures
            m.text@ == Seq::<char>::empty(),
            m.placeholder == placeholder,
            !m.multi_line,
            m.rows == 1,
    {
        InputModel { text: String::new(), placeholder, multi_line: false, rows: 1 }
    }

    /// Turns the input into a text area of `rows` visible rows.
    pub fn multi_line(self, rows: u64) -> (m: InputModel)
        ensures
            m == (InputModel { multi_line: true, rows, ..self }),
    {
        InputModel { multi_line: true, rows, ..self }
    }

    /// Replaces the text.
    pub fn set_text(&mut self, text: String)
        ensures
            *final(self) == (InputModel { text, ..*old(self) }),
    {
        self.text = text;
    }
}

/// A dropdown select over a fixed option list.
pub struct SelectModel {
    pub options: Vec<String>,
    pub selected: Option<usize>,
    pub searchable: bool,
}

impl SelectModel {
    /// A selected index, when present, names one of the options.
    pub open spec fn wf(&self) -> bool {
        self.selected matches Some(i) ==> i < self.options@.len()
    }

    /// A fresh select over `options` with nothing selected.
    pub fn new(options: Vec<String>) -> (m: SelectModel)
        ensures
            m.wf(),
            m.options == options,
            m.selected is None,
            !m.searchable,
    {
        SelectModel { options, selected: None, searchable: false }
    }

    /// Enables searching within the options.
    pub fn searchable(self) -> (m: SelectModel)
        ensures
            m == (SelectModel { searchable: true, ..self }),
    {
        SelectModel { searchable: true, ..self }
    }

    /// Selects the option at `ix`; an unknown index is reported and
    /// changes nothing.
    pub fn select(&mut self, ix: usize) -> (r: Result<(), CoreError>)
        ensures
            ix < old(self).options@.len() ==> r is Ok && *final(self) == (SelectModel {
                selected: Some(ix),
                ..*old(self)
            }),
            ix >= old(self).options@.len() ==> (r matches Err(e) && e == CoreError::NotFound)
                && *final(self) == *old(self),
            old(self).wf() ==> final(self).wf(),
    {
        if ix < self.options.len() {
            self.selected = Some(ix);
            Ok(())
        } else {
            Err(CoreError::NotFound)
        }
    }

    /// Clears the selection.
    pub fn clear_selection(&mut self)
        ensures
            *final(self) == (SelectModel { selected: None, ..*old(self) }),
    {
        self.selected = None;
    }

    /// The selected option's value, when one is selected.
    pub fn selected_value(&self) -> (r: Option<&String>)
        requires
            self.wf(),
        ensures
            self.selected matches Some(i) ==> (r matches Some(v) && *v == self.options@[i as int]),
            self.selected is None ==> r is None,
    {
        match self.selected {
            Some(i) => Some(&self.options[i]),
            None => None,
        }
    }
}

/// A slider over an inclusive integer range.
#[derive(Clone, Copy, Debug)]
pub struct SliderModel {
    pub min: u64,
    pub max: u64,
    pub step: u64,
    pub value: u64,
}

impl SliderModel {
    /// The value stays within the slider's bounds.
    pub open spec fn wf(&self) -> bool {
        self.min <= self.value <= self.max
    }

    /// A fresh slider over `0..=100`, step 1, at 0.
    pub fn new() -> (m: SliderModel)
        ensures
            m == (SliderModel { min: 0u64, max: 100u64, step: 1u64, value: 0u64 }),
            m.wf(),
    {
        SliderModel { min: 0, max: 100, step: 1, value: 0 }
    }

    /// Moves the starting value inside the bounds.
    pub fn default_value(self, value: u64) -> (m: SliderModel)
        requires
            self.wf(),
        ensures
            m.wf(),
            m == (SliderModel { value: m.value, ..self }),
            m.value == clamp_to(value, self.min, self.max),
    {
        let v = if value < self.min {
            self.min
        } else if value > self.max {
            self.max
        } else {
            value
        };
        SliderModel { value: v, ..self }
    }

    /// Moves the slider, clamping into its bounds.
    pub fn set_value(&mut self, value: u64)
        requires
            old(self).wf(),
        ensures
            final(self).wf(),
            *final(self) == (SliderModel { value: final(self).value, ..*old(self) }),
            final(self).value == clamp_to(value, old(self).min, old(self).max),
    {
        if value < self.min {
            self.value = self.min;
        } else if value > self.max {
            self.value = value.min(self.max);
        } else {
            self.value = value;
        }
    }
}

/// `value` forced into the inclusive range `lo..=hi`.
pub open spec fn clamp_to(value: u64, lo: u64, hi: u64) -> u64
    recommends
        lo <= hi,
{
    if value < lo {
        lo
    } else if value > hi {
        hi
    } else {
        value
    }
}

/// A date picker; the selected date is a day number.
#[derive(Clone, Copy, Debug)]
pub struct DateModel {
    pub selected_day: Option<u64>,
}

impl DateModel {
    /// A fresh picker with no date chosen.
    pub fn new() -> (m: DateModel)
        ensures
            m.selected_day is None,
    {
        DateModel { selected_day: None }
    }

    /// Commits a chosen day.
    pub fn set_day(&mut self, day: u64)
        ensures
            *final(self) == (DateModel { selected_day: Some(day) }),
    {
        self.selected_day = Some(day);
    }
}

/// A color picker; the committed color is a packed RGBA value.
#[derive(Clone, Copy, Debug)]
pub struct ColorModel {
    pub rgba: Option<u32>,
}

impl ColorModel {
    /// A fresh picker with no color committed.
    pub fn new() -> (m: ColorModel)
        ensures
            m.rgba is None,
    {
        ColorModel { rgba: None }
    }

    /// Commits a color.
    pub fn commit(&mut self, rgba: u32)
        ensures
            *final(self) == (ColorModel { rgba: Some(rgba) }),
    {
        self.rgba = Some(rgba);
    }
}

/// A flat list with single selection.
#[derive(Clone, Copy, Debug)]
pub struct ListModel {
    pub item_count: usize,
    pub selected: Option<usize>,
}

impl ListModel {
    /// A fresh list of `item_count` rows, nothing selected.
    pub fn new(item_count: usize) -> (m: ListModel)
        ensures
            m.item_count == item_count,
            m.selected is None,
    {
        ListModel { item_count, selected: None }
    }

    /// How many rows the list offers.
    pub fn items_count(&self) -> (n: usize)
        ensures
            n == self.item_count,
    {
        self.item_count
    }

    /// Replaces the selection (or clears it with `None`).
    pub fn set_selected_index(&mut self, ix: Option<usize>)
        ensures
            *final(self) == (ListModel { selected: ix, ..*old(self) }),
    {
        self.selected = ix;
    }

    /// Whether a row exists, i.e. whether rendering it yields an item.
    pub fn row_exists(&self, ix: usize) -> (exists_row: bool)
        ensures
            exists_row == (ix < self.item_count),
    {
        ix < self.item_count
    }

    /// Whether the row at `ix` renders as selected.
    pub fn row_selected(&self, ix: usize) -> (selected: bool)
        ensures
            selected == (self.selected == Some(ix)),
    {
        match self.selected {
            Some(s) => s == ix,
            None => false,
        }
    }
}

/// One column of a table: its header label and width in pixels.
pub struct ColumnModel {
    pub label: String,
    pub width: u64,
}

/// A table of fixed columns over generated rows.
pub struct TableModel {
    pub columns: Vec<ColumnModel>,
    pub row_count: usize,
}

impl TableModel {
    /// The demonstration table: ID (60 px), Name (140 px) and Status
    /// (120 px) columns over eight rows.
    pub fn sample() -> (m: TableModel)
        ensures
            m.columns@.len() == 3,
            m.columns@[0].label@ == "ID"@ && m.columns@[0].width == 60,
            m.columns@[1].label@ == "Name"@ && m.columns@[1].width == 140,
            m.columns@[2].label@ == "Status"@ && m.columns@[2].width == 120,
            m.row_count == 8,
    {
        let mut columns: Vec<ColumnModel> = Vec::new();
        columns.push(ColumnModel { label: "ID".to_string(), width: 60 });
        columns.push(ColumnModel { label: "Name".to_string(), width: 140 });
        columns.push(ColumnModel { label: "Status".to_string(), width: 120 });
        TableModel { columns, row_count: 8 }
    }

    /// How many columns the table has.
    pub fn columns_count(&self) -> (n: usize)
        ensures
            n == self.columns@.len(),
    {
        self.columns.len()
    }

    /// How many rows the table has.
    pub fn rows_count(&self) -> (n: usize)
        ensures
            n == self.row_count,
    {
        self.row_count
    }

    /// The column at `col_ix`.
    pub fn column(&self, col_ix: usize) -> (c: &ColumnModel)
        requires
            col_ix < self.columns@.len(),
        ensures
            *c == self.columns@[col_ix as int],
    {
        &self.columns[col_ix]
    }

    /// The one-based identifier shown in the row at `row_ix`.
    pub fn row_id(&self, row_ix: usize) -> (id: usize)
        requires
            row_ix < self.row_count,
            self.row_count < usize::MAX,
        ensures
            id == row_ix + 1,
    {
        row_ix + 1
    }

    /// Whether the row at `row_ix` shows the `Active` status; rows with an
    /// even one-based identifier are active, the others pending.
    pub fn row_active(&self, row_ix: usize) -> (active: bool)
        requires
            row_ix < self.row_count,
        ensures
            active == ((row_ix + 1) % 2 == 0),
    {
        row_ix % 2 == 1
    }
}

/// One node of a flattened tree, in pre-order: its label and depth.
pub struct TreeNode {
    pub label: String,
    pub depth: u64,
}

/// A tree widget's nodes, flattened in pre-order.
pub struct TreeModel {
    pub nodes: Vec<TreeNode>,
}

impl TreeModel {
    /// How many nodes the tree holds.
    pub fn node_count(&self) -> (n: usize)
        ensures
            n == self.nodes@.len(),
    {
        self.nodes.len()
    }
}

/// The demonstration tree: a `src` directory holding `lib.rs` and
/// `main.rs`, an `assets` directory holding `logo.png`, and a top-level
/// `README.md`.
pub fn sample_tree_items() -> (m: TreeModel)
    ensures
        m.nodes@.len() == 6,
        m.nodes@[0].label@ == "src"@ && m.nodes@[0].depth == 0,
        m.nodes@[1].label@ == "lib.rs"@ && m.nodes@[1].depth == 1,
        m.nodes@[2].label@ == "main.rs"@ && m.nodes@[2].depth == 1,
        m.nodes@[3].label@ == "assets"@ && m.nodes@[3].depth == 0,
        m.nodes@[4].label@ == "logo.png"@ && m.nodes@[4].depth == 1,
        m.nodes@[5].label@ == "README.md"@ && m.nodes@[5].depth == 0,
{
    let mut nodes: Vec<TreeNode> = Vec::new();
    nodes.push(TreeNode { label: "src".to_string(), depth: 0 });
    nodes.push(TreeNode { label: "lib.rs".to_string(), depth: 1 });
    nodes.push(TreeNode { label: "main.rs".to_string(), depth: 1 });
    nodes.push(TreeNode { label: "assets".to_string(), depth: 0 });
    nodes.push(TreeNode { label: "logo.png".to_string(), depth: 1 });
    nodes.push(TreeNode { label: "README.md".to_string(), depth: 0 });
    TreeModel { nodes }
}

} // verus!
