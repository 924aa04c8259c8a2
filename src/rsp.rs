//! The geometry stage: geometry-mode flags and the vertex staging table.
use vstd::prelude::*;

verus! {

/// Number of entries of the vertex staging table.
pub const MAX_VERTICES: usize = 64;
/// Size in bytes of one vertex record in memory.
pub const VERTEX_RECORD_SIZE: usize = 16;
/// Geometry-mode flag: depth buffering on.
pub const G_ZBUFFER: u32 = 0x0000_0001;

/// A vertex as loaded into the staging table: position, texture coordinates
/// and color (or normal), as the command stream gives them.
#[derive(Clone, Copy, Debug, PartialEq, Eq, Structural)]
pub struct StagingVertex {
    pub x: i16,
    pub y: i16,
    pub z: i16,
    pub s: i16,
    pub t: i16,
    pub r: u8,
    pub g: u8,
    pub b: u8,
    pub a: u8,
}

impl StagingVertex {
    pub open spec fn zero_spec() -> Self {
        StagingVertex { x: 0, y: 0, z: 0, s: 0, t: 0, r: 0, g: 0, b: 0, a: 0 }
    }

    /// The all-zero vertex.
    pub fn zero() -> (r: Self)
        ensures
            r == Self::zero_spec(),
    {
        StagingVertex { x: 0, y: 0, z: 0, s: 0, t: 0, r: 0, g: 0, b: 0, a: 0 }
    }
}

/// Big-endian signed 16-bit value at `at` in `mem`.
pub open spec fn i16_at(mem: Seq<u8>, at: int) -> i16 {
    (((mem[at] as u16) << 8u16) | (mem[at + 1] as u16)) as i16
}

/// The vertex record at `at` in `mem`: x, y, z, a flag word that is not
/// kept, s, t, then four color bytes.
pub open spec fn vertex_at(mem: Seq<u8>, at: int) -> StagingVertex {
    StagingVertex {
        x: i16_at(mem, at),
        y: i16_at(mem, at + 2),
        z: i16_at(mem, at + 4),
        s: i16_at(mem, at + 8),
        t: i16_at(mem, at + 10),
        r: mem[at + 12],
        g: mem[at + 13],
        b: mem[at + 14],
        a: mem[at + 15],
    }
}

/// Big-endian signed 16-bit value at `at`.
pub fn read_i16(mem: &[u8], at: usize) -> (r: i16)
    requires
        at + 2 <= mem@.len(),
    ensures
        r == i16_at(mem@, at as int),
{
    (((mem[at] as u16) << 8u16) | (mem[at + 1] as u16)) as i16
}

/// What loading `count` records from `mem` at `address` into entries from
/// `dest` on returns as `r` and leaves as `b`.
pub open spec fn vertices_loaded(
    a: &RSP,
    mem: Seq<u8>,
    address: usize,
    count: u8,
    dest: u8,
    r: Result<(), RspError>,
    b: &RSP,
) -> bool {
    &&& b.geometry_mode == a.geometry_mode
    &&& if dest as int + count as int > MAX_VERTICES {
        r == Err::<(), RspError>(RspError::VertexRangeOutOfTable { dest, count }) && b.vertex_table
            == a.vertex_table
    } else if address as int + count as int * VERTEX_RECORD_SIZE > mem.len() {
        r == Err::<(), RspError>(RspError::VertexDataOutOfBounds(address)) && b.vertex_table
            == a.vertex_table
    } else {
        r is Ok && b.vertex_table@ == Seq::new(
            MAX_VERTICES as nat,
            |i: int|
                if dest <= i < dest + count {
                    vertex_at(mem, address + (i - dest) * VERTEX_RECORD_SIZE)
                } else {
                    a.vertex_table@[i]
                },
        )
    }
}

/// Why a geometry command was refused.
#[derive(Clone, Copy, Debug, PartialEq, Eq, Structural)]
pub enum RspError {
    /// A vertex id at or past the end of the staging table.
    VertexIndexOutOfRange(u8),
    /// A vertex load whose entries do not fit the staging table.
    VertexRangeOutOfTable { dest: u8, count: u8 },
    /// A vertex load that reads past the end of memory.
    VertexDataOutOfBounds(usize),
}

/// Geometry-stage state.
pub struct RSP {
    pub geometry_mode: u32,
    pub vertex_table: Vec<StagingVertex>,
}

impl RSP {
    pub open spec fn wf(&self) -> bool {
        self.vertex_table@.len() == MAX_VERTICES
    }

    /// A geometry stage with no flags and a zeroed staging table.
    pub fn new() -> (r: Self)
        ensures
            r.wf(),
            r.geometry_mode == 0,
            forall|i: int| 0 <= i < MAX_VERTICES ==> r.vertex_table@[i] == StagingVertex::zero_spec(),
    {
        let mut vertex_table: Vec<StagingVertex> = Vec::new();
        let mut i: usize = 0;
        while i < MAX_VERTICES
            invariant
                i <= MAX_VERTICES,
                vertex_table@.len() == i,
                forall|j: int| 0 <= j < i ==> vertex_table@[j] == StagingVertex::zero_spec(),
            decreases MAX_VERTICES - i,
        {
            vertex_table.push(StagingVertex::zero());
            i += 1;
        }
        RSP { geometry_mode: 0, vertex_table }
    }

    /// Clears the geometry-mode flags; the staging table is kept.
    pub fn reset(&mut self)
        ensures
            final(self).geometry_mode == 0,
            final(self).vertex_table == old(self).vertex_table,
    {
        self.geometry_mode = 0;
    }

    /// Keeps the flags of `clear` and then sets those of `set`.
    pub fn update_geometry_mode(&mut self, clear: u32, set: u32)
        ensures
            final(self).geometry_mode == (old(self).geometry_mode & clear) | set,
            final(self).vertex_table == old(self).vertex_table,
    {
        self.geometry_mode = (self.geometry_mode & clear) | set;
    }

    /// The staged vertex `id`, or an error when `id` is past the table.
    pub fn vertex(&self, id: u8) -> (r: Result<StagingVertex, RspError>)
        requires
            self.wf(),
        ensures
            (id as int) < MAX_VERTICES ==> r == Ok::<StagingVertex, RspError>(self.vertex_table@[id as int]),
            (id as int) >= MAX_VERTICES ==> r == Err::<StagingVertex, RspError>(RspError::VertexIndexOutOfRange(id)),
    {
        if (id as usize) < MAX_VERTICES {
            Ok(self.vertex_table[id as usize])
        } else {
            Err(RspError::VertexIndexOutOfRange(id))
        }
    }

    /// Loads `count` vertex records from `mem` at `address` into the table
    /// from entry `dest` on. Nothing changes when the entries do not fit the
    /// table or the records are not all in `mem`.
    pub fn load_vertices(&mut self, mem: &[u8], address: usize, count: u8, dest: u8) -> (r: Result<
        (),
        RspError,
    >)
        requires
            old(self).wf(),
        ensures
            final(self).wf(),
            final(self).geometry_mode == old(self).geometry_mode,
            vertices_loaded(old(self), mem@, address, count, dest, r, final(self)),
            dest as int + count as int > MAX_VERTICES ==> r == Err::<(), RspError>(
                RspError::VertexRangeOutOfTable { dest, count },
            ) && final(self).vertex_table == old(self).vertex_table,
            dest as int + count as int <= MAX_VERTICES && address as int + count as int
                * VERTEX_RECORD_SIZE > mem@.len() ==> r == Err::<(), RspError>(
                RspError::VertexDataOutOfBounds(address),
            ) && final(self).vertex_table == old(self).vertex_table,
            dest as int + count as int <= MAX_VERTICES && address as int + count as int
                * VERTEX_RECORD_SIZE <= mem@.len() ==> r is Ok && final(self).vertex_table@
                == Seq::new(
                MAX_VERTICES as nat,
                |i: int|
                    if dest <= i < dest + count {
                        vertex_at(mem@, address + (i - dest) * VERTEX_RECORD_SIZE)
                    } else {
                        old(self).vertex_table@[i]
                    },
            ),
    {
        if dest as usize + count as usize > MAX_VERTICES {
            return Err(RspError::VertexRangeOutOfTable { dest, count });
        }
        if address > mem.len() || (mem.len() - address) / VERTEX_RECORD_SIZE < count as usize {
            return Err(RspError::VertexDataOutOfBounds(address));
        }
        let mut k: usize = 0;
        while k < count as usize
            invariant
                k <= count,
                mem@.len() <= usize::MAX,
                dest as int + count as int <= MAX_VERTICES,
                address as int + count as int * VERTEX_RECORD_SIZE <= mem@.len(),
                self.vertex_table@.len() == MAX_VERTICES,
                self.geometry_mode == old(self).geometry_mode,
                forall|i: int|
                    0 <= i < MAX_VERTICES ==> #[trigger] self.vertex_table@[i] == if dest <= i < dest
                        + k {
                        vertex_at(mem@, address + (i - dest) * VERTEX_RECORD_SIZE)
                    } else {
                        old(self).vertex_table@[i]
                    },
            decreases count - k,
        {
            assert(k * 16 + 16 <= count * 16) by (nonlinear_arith)
                requires
                    k + 1 <= count,
            ;
            assert(address + k * 16 + 16 <= mem@.len());
            let at = address + k * VERTEX_RECORD_SIZE;
            let v = StagingVertex {
                x: read_i16(mem, at),
                y: read_i16(mem, at + 2),
                z: read_i16(mem, at + 4),
                s: read_i16(mem, at + 8),
                t: read_i16(mem, at + 10),
                r: mem[at + 12],
                g: mem[at + 13],
                b: mem[at + 14],
                a: mem[at + 15],
            };
            self.vertex_table.set(dest as usize + k, v);
            k += 1;
        }
        assert(self.vertex_table@ =~= Seq::new(
            MAX_VERTICES as nat,
            |i: int|
                if dest <= i < dest + count {
                    vertex_at(mem@, address + (i - dest) * VERTEX_RECORD_SIZE)
                } else {
                    old(self).vertex_table@[i]
                },
        ));
        Ok(())
    }
}

} // verus!
