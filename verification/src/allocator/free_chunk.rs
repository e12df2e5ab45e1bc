use vstd::prelude::*;

verus! {

/// Size in bytes of one elementary chunk of the shared memory buffer.
pub const CHUNK_SIZE: usize = 8;

/// Shift of a free space from the beginning of the memory buffer, in chunks.
#[derive(Debug, Clone, Copy, PartialEq, Eq, Structural, PartialOrd, Ord)]
pub struct RelativeBeginning(pub usize);

impl RelativeBeginning {
    /// The shift as a mathematical integer.
    pub open spec fn pos(self) -> int {
        self.0 as int
    }

    /// The very beginning of the buffer.
    pub fn zero() -> (r: Self)
        ensures
            r.pos() == 0,
    {
        RelativeBeginning(0)
    }

    /// The chunk that holds the byte at offset `bytes`.
    pub fn from_bytes(bytes: usize) -> (r: Self)
        ensures
            r.pos() == bytes as int / CHUNK_SIZE as int,
    {
        RelativeBeginning(bytes / CHUNK_SIZE)
    }

    /// Shifts the beginning further by `rhs` chunks.
    pub fn add(self, rhs: usize) -> (r: Self)
        requires
            self.pos() + rhs <= usize::MAX,
        ensures
            r.pos() == self.pos() + rhs,
    {
        RelativeBeginning(self.0 + rhs)
    }

    /// The address of this chunk in a buffer that starts at address `base`.
    pub fn into_absolute(self, base: usize) -> (r: usize)
        requires
            base + self.pos() * CHUNK_SIZE <= usize::MAX,
        ensures
            r == base + self.pos() * CHUNK_SIZE,
    {
        base + self.0 * CHUNK_SIZE
    }
}

/// A run of contiguous free chunks.
#[derive(Debug, Clone, Copy, PartialEq, Eq, Structural, PartialOrd, Ord)]
pub struct FreeSpace {
    /// Amount of elementary chunks.
    pub count: usize,
    /// Shift from the beginning of the memory (in chunks).
    pub relative_beginning: RelativeBeginning,
}

impl FreeSpace {
    /// First chunk of the run.
    pub open spec fn start(self) -> int {
        self.relative_beginning.pos()
    }

    /// Number of chunks in the run.
    pub open spec fn len(self) -> int {
        self.count as int
    }

    /// One past the last chunk of the run.
    pub open spec fn end(self) -> int {
        self.start() + self.len()
    }

    /// Whether the chunk with index `i` belongs to the run.
    pub open spec fn covers(self, i: int) -> bool {
        self.start() <= i < self.end()
    }

    /// The end of the run can be computed without overflow.
    pub open spec fn fits(self) -> bool {
        self.end() <= usize::MAX
    }

    /// The key by which runs are ordered: first by size, then by position.
    pub open spec fn key(self) -> (usize, usize) {
        (self.count, self.relative_beginning.0)
    }

    /// Creates a run of `count` chunks beginning at `shift`.
    pub fn new(shift: RelativeBeginning, count: usize) -> (r: Self)
        requires
            count != 0,
        ensures
            r.start() == shift.pos(),
            r.len() == count,
    {
        Self { count, relative_beginning: shift }
    }

    /// Where the space begins.
    pub fn begin(&self) -> (r: RelativeBeginning)
        ensures
            r.pos() == self.start(),
    {
        self.relative_beginning
    }

    /// Amount of elementary chunks.
    pub fn count(&self) -> (r: usize)
        ensures
            r == self.len(),
    {
        self.count
    }

    /// The ordering key, see [`FreeSpace::key`].
    pub fn sort_key(&self) -> (r: (usize, usize))
        ensures
            r == self.key(),
    {
        (self.count, self.relative_beginning.0)
    }

    /// Checks whether `right` begins exactly where `left` ends.
    pub fn are_contiguous(left: &Self, right: &Self) -> (r: bool)
        requires
            left.fits(),
        ensures
            r == (left.end() == right.start()),
    {
        left.relative_beginning.add(left.count) == right.relative_beginning
    }

    /// Splits the current free space into the `required_chunks` first chunks and the
    /// rest, if any.
    pub fn split(self, required_chunks: usize) -> (r: (Self, Option<FreeSpace>))
        requires
            required_chunks <= self.count,
            required_chunks < self.count ==> self.start() + required_chunks <= usize::MAX,
        ensures
            r == split_parts(self, required_chunks),
    {
        let unused_chunks = self.count - required_chunks;
        if unused_chunks == 0 {
            (self, None)
        } else {
            let current = FreeSpace {
                count: required_chunks,
                relative_beginning: self.relative_beginning,
            };
            let unused = FreeSpace {
                count: unused_chunks,
                relative_beginning: self.relative_beginning.add(required_chunks),
            };
            (current, Some(unused))
        }
    }

    /// Merges this space with an adjacent one, on either side.
    pub fn merge(self, other: Self) -> (r: Option<Self>)
        requires
            self.fits(),
            self.end() == other.start() ==> self.len() + other.len() <= usize::MAX,
            self.end() != other.start() ==> other.fits(),
        ensures
            r == merged(self, other),
    {
        if FreeSpace::are_contiguous(&self, &other) {
            Some(Self { count: self.count + other.count, relative_beginning: self.relative_beginning })
        } else if FreeSpace::are_contiguous(&other, &self) {
            Some(Self { count: self.count + other.count, relative_beginning: other.relative_beginning })
        } else {
            None
        }
    }
}

/// The two parts of `space` cut after its first `required` chunks; there is no second
/// part when nothing is left over.
pub open spec fn split_parts(space: FreeSpace, required: usize) -> (FreeSpace, Option<FreeSpace>) {
    if required == space.count {
        (space, None)
    } else {
        (run(space.start(), required as int), Some(run(space.start() + required, space.len() - required)))
    }
}

/// Splitting a run and merging the two parts back gives the run again; the parts touch,
/// and their sizes add up to the size of the run.
pub proof fn law_split_then_merge(space: FreeSpace, required: usize)
    requires
        space.fits(),
        required <= space.count,
    ensures
        split_parts(space, required).0.start() == space.start(),
        split_parts(space, required).1 matches Some(unused) ==> {
            &&& split_parts(space, required).0.end() == unused.start()
            &&& split_parts(space, required).0.len() + unused.len() == space.len()
            &&& merged(split_parts(space, required).0, unused) == Some(space)
        },
        split_parts(space, required).1 is None ==> split_parts(space, required).0 == space,
{
}

/// Merging does not depend on the order of the two runs, unless both are empty.
pub proof fn law_merge_commutes(a: FreeSpace, b: FreeSpace)
    requires
        a.len() + b.len() > 0,
    ensures
        merged(a, b) == merged(b, a),
{
}

/// A non-empty run never ends where it begins, so it is never contiguous with itself.
pub proof fn law_not_contiguous_with_itself(space: FreeSpace)
    requires
        space.len() > 0,
    ensures
        space.end() != space.start(),
        merged(space, space) is None,
{
}

/// A run of `count` chunks beginning at chunk `start`.
pub open spec fn run(start: int, count: int) -> FreeSpace {
    FreeSpace { count: count as usize, relative_beginning: RelativeBeginning(start as usize) }
}

/// The run that joins `a` and `b` when one of them ends where the other begins.
pub open spec fn merged(a: FreeSpace, b: FreeSpace) -> Option<FreeSpace> {
    if a.end() == b.start() {
        Some(run(a.start(), a.len() + b.len()))
    } else if b.end() == a.start() {
        Some(run(b.start(), a.len() + b.len()))
    } else {
        None
    }
}

} // verus!
