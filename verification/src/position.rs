//! Where a cell stands: the number of its line in the ring and the number of
//! its column in the line.

use vstd::prelude::*;

verus! {

/// The width of a glyph, in pixels.
pub const TEXTUI_CHAR_WIDTH: u32 = 8;

/// The height of a glyph, in pixels.
pub const TEXTUI_CHAR_HEIGHT: u32 = 16;

/// The number of a virtual line. It names a line of a window only while it
/// is at least zero and below the number of lines of that window.
#[derive(Debug, Copy, Clone, Eq, PartialEq, PartialOrd, Ord, Hash, Default)]
pub struct LineId(pub i32);

impl View for LineId {
    type V = int;

    open spec fn view(&self) -> int {
        self.0 as int
    }
}

impl LineId {
    /// The line with the given number.
    pub fn new(num: i32) -> (id: LineId)
        ensures
            id@ == num,
    {
        LineId(num)
    }

    /// Whether this is one of the lines `0 .. max`.
    pub fn check(&self, max: i32) -> (valid: bool)
        ensures
            valid == (0 <= self@ < max),
    {
        self.0 < max && self.0 >= 0
    }

    /// The number of the line.
    pub fn data(&self) -> (num: i32)
        ensures
            num == self@,
    {
        self.0
    }

    /// The number of the line, for a count of pixels.
    pub fn to_u32(self) -> (num: u32)
        requires
            0 <= self@,
        ensures
            num == self@,
    {
        self.0 as u32
    }

    /// The number of the line, for an index.
    pub fn to_usize(self) -> (num: usize)
        requires
            0 <= self@,
        ensures
            num == self@,
    {
        self.0 as usize
    }
}

impl core::ops::Add<i32> for LineId {
    type Output = LineId;

    /// The line `rhs` lines further on.
    fn add(self, rhs: i32) -> (id: LineId) {
        LineId(self.0 + rhs)
    }
}

impl vstd::std_specs::ops::AddSpecImpl<i32> for LineId {
    open spec fn obeys_add_spec() -> bool {
        true
    }

    open spec fn add_req(self, rhs: i32) -> bool {
        i32::MIN <= self@ + rhs <= i32::MAX
    }

    open spec fn add_spec(self, rhs: i32) -> LineId {
        LineId((self.0 + rhs) as i32)
    }
}

impl core::ops::Sub<i32> for LineId {
    type Output = LineId;

    /// The line `rhs` lines back.
    fn sub(self, rhs: i32) -> (id: LineId) {
        LineId(self.0 - rhs)
    }
}

impl vstd::std_specs::ops::SubSpecImpl<i32> for LineId {
    open spec fn obeys_sub_spec() -> bool {
        true
    }

    open spec fn sub_req(self, rhs: i32) -> bool {
        i32::MIN <= self@ - rhs <= i32::MAX
    }

    open spec fn sub_spec(self, rhs: i32) -> LineId {
        LineId((self.0 - rhs) as i32)
    }
}

impl core::ops::Sub<LineId> for LineId {
    type Output = LineId;

    /// How far this line lies behind `rhs`, as a line number of its own.
    fn sub(self, rhs: LineId) -> (id: LineId) {
        LineId(self.0 - rhs.0)
    }
}

impl vstd::std_specs::ops::SubSpecImpl<LineId> for LineId {
    open spec fn obeys_sub_spec() -> bool {
        true
    }

    open spec fn sub_req(self, rhs: LineId) -> bool {
        i32::MIN <= self@ - rhs@ <= i32::MAX
    }

    open spec fn sub_spec(self, rhs: LineId) -> LineId {
        LineId((self.0 - rhs.0) as i32)
    }
}

impl From<LineId> for i32 {
    /// The number of the line.
    fn from(value: LineId) -> (num: i32) {
        value.0
    }
}

impl vstd::std_specs::convert::FromSpecImpl<LineId> for i32 {
    open spec fn obeys_from_spec() -> bool {
        true
    }

    open spec fn from_spec(value: LineId) -> i32 {
        value.0
    }
}

/// The number of a column in a line. It names a cell of a line only while it
/// is at least zero and below the number of cells of that line.
#[derive(Debug, Copy, Clone, Eq, PartialEq, PartialOrd, Ord, Hash, Default)]
pub struct LineIndex(pub i32);

impl View for LineIndex {
    type V = int;

    open spec fn view(&self) -> int {
        self.0 as int
    }
}

impl LineIndex {
    /// The column with the given number.
    pub fn new(num: i32) -> (index: LineIndex)
        ensures
            index@ == num,
    {
        LineIndex(num)
    }

    /// Whether this is one of the columns `0 .. chars_per_line`.
    pub fn check(&self, chars_per_line: i32) -> (valid: bool)
        ensures
            valid == (0 <= self@ < chars_per_line),
    {
        self.0 < chars_per_line && self.0 >= 0
    }

    /// The number of the column.
    pub fn data(&self) -> (num: i32)
        ensures
            num == self@,
    {
        self.0
    }

    /// The number of the column, for a count of pixels.
    pub fn to_u32(self) -> (num: u32)
        requires
            0 <= self@,
        ensures
            num == self@,
    {
        self.0 as u32
    }

    /// The number of the column, for an index.
    pub fn to_usize(self) -> (num: usize)
        requires
            0 <= self@,
        ensures
            num == self@,
    {
        self.0 as usize
    }
}

impl core::ops::Add<i32> for LineIndex {
    type Output = LineIndex;

    /// The column `rhs` cells further on.
    fn add(self, rhs: i32) -> (index: LineIndex) {
        LineIndex(self.0 + rhs)
    }
}

impl vstd::std_specs::ops::AddSpecImpl<i32> for LineIndex {
    open spec fn obeys_add_spec() -> bool {
        true
    }

    open spec fn add_req(self, rhs: i32) -> bool {
        i32::MIN <= self@ + rhs <= i32::MAX
    }

    open spec fn add_spec(self, rhs: i32) -> LineIndex {
        LineIndex((self.0 + rhs) as i32)
    }
}

impl core::ops::Add<LineIndex> for LineIndex {
    type Output = LineIndex;

    /// The column as far on as both together.
    fn add(self, rhs: LineIndex) -> (index: LineIndex) {
        LineIndex(self.0 + rhs.0)
    }
}

impl vstd::std_specs::ops::AddSpecImpl<LineIndex> for LineIndex {
    open spec fn obeys_add_spec() -> bool {
        true
    }

    open spec fn add_req(self, rhs: LineIndex) -> bool {
        i32::MIN <= self@ + rhs@ <= i32::MAX
    }

    open spec fn add_spec(self, rhs: LineIndex) -> LineIndex {
        LineIndex((self.0 + rhs.0) as i32)
    }
}

impl core::ops::Sub<i32> for LineIndex {
    type Output = LineIndex;

    /// The column `rhs` cells back.
    fn sub(self, rhs: i32) -> (index: LineIndex) {
        LineIndex(self.0 - rhs)
    }
}

impl vstd::std_specs::ops::SubSpecImpl<i32> for LineIndex {
    open spec fn obeys_sub_spec() -> bool {
        true
    }

    open spec fn sub_req(self, rhs: i32) -> bool {
        i32::MIN <= self@ - rhs <= i32::MAX
    }

    open spec fn sub_spec(self, rhs: i32) -> LineIndex {
        LineIndex((self.0 - rhs) as i32)
    }
}

impl From<LineIndex> for i32 {
    /// The number of the column.
    fn from(val: LineIndex) -> (num: i32) {
        val.0
    }
}

impl vstd::std_specs::convert::FromSpecImpl<LineIndex> for i32 {
    open spec fn obeys_from_spec() -> bool {
        true
    }

    open spec fn from_spec(val: LineIndex) -> i32 {
        val.0
    }
}

} // verus!
