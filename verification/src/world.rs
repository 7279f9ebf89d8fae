use vstd::prelude::*;

verus! {

/// Integer coordinates of a block.
#[derive(Clone, Copy, Debug, PartialEq, Eq, Structural)]
pub struct BlockPos {
    pub x: i32,
    pub y: i32,
    pub z: i32,
}

impl BlockPos {
    pub fn new(x: i32, y: i32, z: i32) -> (r: BlockPos)
        ensures
            r == (BlockPos { x, y, z }),
    {
        BlockPos { x, y, z }
    }

    /// The block right above.
    pub fn up(&self) -> (r: BlockPos)
        requires
            self.y < i32::MAX,
        ensures
            r == (BlockPos { x: self.x, y: (self.y + 1) as i32, z: self.z }),
    {
        BlockPos { x: self.x, y: self.y + 1, z: self.z }
    }

    /// The block right below.
    pub fn down(&self) -> (r: BlockPos)
        requires
            self.y > i32::MIN,
        ensures
            r == (BlockPos { x: self.x, y: (self.y - 1) as i32, z: self.z }),
    {
        BlockPos { x: self.x, y: self.y - 1, z: self.z }
    }
}

/// A triple of coordinates, such as an offset between blocks.
#[derive(Clone, Copy, Debug, PartialEq, Eq, Structural)]
pub struct Vector3<T> {
    pub x: T,
    pub y: T,
    pub z: T,
}

impl<T> Vector3<T> {
    pub fn new(x: T, y: T, z: T) -> (r: Vector3<T>)
        ensures
            r == (Vector3 { x, y, z }),
    {
        Vector3 { x, y, z }
    }
}

/// The vertical extent of a dimension: blocks exist for `min_y <= y < min_y + height`.
#[derive(Clone, Copy, Debug, PartialEq, Eq, Structural)]
pub struct DimensionHeight {
    pub min_y: i32,
    pub height: i32,
}

impl DimensionHeight {
    pub open spec fn top(self) -> int {
        self.min_y + self.height
    }

    /// The top of the dimension is a representable height.
    pub open spec fn top_fits(self) -> bool {
        i32::MIN <= self.top() <= i32::MAX
    }

    /// The top of the dimension is a representable height, and so is the height just below it.
    pub open spec fn wf(self) -> bool {
        i32::MIN < self.top() <= i32::MAX
    }

    /// The height of the highest block.
    pub fn max_y(&self) -> (r: i32)
        requires
            self.wf(),
        ensures
            r == self.top() - 1,
    {
        self.min_y + self.height - 1
    }
}

} // verus!
