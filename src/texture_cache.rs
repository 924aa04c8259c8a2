//! Cache of imported textures, keyed by (texture slot, address, format, size).
use vstd::prelude::*;

verus! {

/// Number of textures the cache holds before it evicts.
pub const TEXTURE_CACHE_MAX_SIZE: usize = 500;

/// A decoded and uploaded texture with the sampler parameters it was last
/// bound with, and the key it was cached under.
#[derive(Clone, Copy, Debug, PartialEq, Eq, Structural)]
pub struct Texture {
    pub tmem_index: usize,
    pub address: usize,
    pub fmt: u8,
    pub siz: u8,
    pub handle: u32,
    pub width: u32,
    pub height: u32,
    pub linear_filter: bool,
    pub cms: u8,
    pub cmt: u8,
}

impl Texture {
    /// The texture bound where nothing has been bound yet.
    pub fn empty() -> (r: Self)
        ensures
            r == Texture::empty_spec(),
    {
        Texture {
            tmem_index: 0,
            address: 0,
            fmt: 0,
            siz: 0,
            handle: 0,
            width: 0,
            height: 0,
            linear_filter: false,
            cms: 0,
            cmt: 0,
        }
    }

    pub open spec fn empty_spec() -> Self {
        Texture {
            tmem_index: 0,
            address: 0,
            fmt: 0,
            siz: 0,
            handle: 0,
            width: 0,
            height: 0,
            linear_filter: false,
            cms: 0,
            cmt: 0,
        }
    }

    /// Whether this texture was cached under the given key.
    pub open spec fn has_key(self, tmem_index: usize, address: usize, fmt: u8, siz: u8) -> bool {
        self.tmem_index == tmem_index && self.address == address && self.fmt == fmt && self.siz
            == siz
    }
}

/// The texture cached under the key in `entries`: the latest one inserted.
pub open spec fn lookup_spec(
    entries: Seq<Texture>,
    tmem_index: usize,
    address: usize,
    fmt: u8,
    siz: u8,
) -> Option<Texture>
    decreases entries.len(),
{
    if entries.len() == 0 {
        None
    } else if entries.last().has_key(tmem_index, address, fmt, siz) {
        Some(entries.last())
    } else {
        lookup_spec(entries.drop_last(), tmem_index, address, fmt, siz)
    }
}

/// The entries after inserting `t` into `entries` under bound `capacity`: when
/// the cache is full, the oldest entry is evicted first (first in, first out).
pub open spec fn insert_spec(entries: Seq<Texture>, capacity: nat, t: Texture) -> Seq<Texture> {
    if entries.len() >= capacity {
        entries.subrange(1, entries.len() as int).push(t)
    } else {
        entries.push(t)
    }
}

/// Bounded cache of textures. At capacity, the oldest entry is evicted.
pub struct TextureManager {
    pub textures: Vec<Texture>,
    pub capacity: usize,
}

impl TextureManager {
    /// The cached textures, oldest first.
    pub open spec fn view(&self) -> Seq<Texture> {
        self.textures@
    }

    pub open spec fn wf(&self) -> bool {
        0 < self.capacity && self.textures@.len() <= self.capacity
    }

    /// An empty cache of the given bound.
    pub fn new(capacity: usize) -> (r: Self)
        requires
            capacity > 0,
        ensures
            r.wf(),
            r.view() == Seq::<Texture>::empty(),
            r.capacity == capacity,
    {
        TextureManager { textures: Vec::new(), capacity }
    }

    /// The texture cached under the key, if any. The cache is left as it is.
    pub fn lookup(&self, tmem_index: usize, address: usize, fmt: u8, siz: u8) -> (r: Option<
        Texture,
    >)
        ensures
            r == lookup_spec(self.view(), tmem_index, address, fmt, siz),
    {
        let mut i = self.textures.len();
        assert(self.textures@.subrange(0, i as int) =~= self.textures@);
        while i > 0
            invariant
                i <= self.textures@.len(),
                lookup_spec(self.textures@, tmem_index, address, fmt, siz) == lookup_spec(
                    self.textures@.subrange(0, i as int),
                    tmem_index,
                    address,
                    fmt,
                    siz,
                ),
            decreases i,
        {
            assert(self.textures@.subrange(0, i as int).drop_last() =~= self.textures@.subrange(
                0,
                i - 1,
            ));
            let t = self.textures[i - 1];
            if t.tmem_index == tmem_index && t.address == address && t.fmt == fmt && t.siz == siz {
                return Some(t);
            }
            i -= 1;
        }
        assert(self.textures@.subrange(0, 0) =~= Seq::<Texture>::empty());
        None
    }

    /// Caches `t`, evicting the oldest entry first when the cache is full.
    pub fn insert(&mut self, t: Texture)
        requires
            old(self).wf(),
        ensures
            final(self).wf(),
            final(self).capacity == old(self).capacity,
            final(self).view() == insert_spec(old(self).view(), old(self).capacity as nat, t),
    {
        if self.textures.len() >= self.capacity {
            self.textures.remove(0);
        }
        self.textures.push(t);
        assert(self.view() =~= insert_spec(old(self).view(), old(self).capacity as nat, t));
    }
}

/// A texture just cached is what a lookup under its key finds, whatever was
/// evicted to make room for it.
pub proof fn lemma_lookup_after_insert(entries: Seq<Texture>, capacity: nat, t: Texture)
    ensures
        lookup_spec(insert_spec(entries, capacity, t), t.tmem_index, t.address, t.fmt, t.siz)
            == Some(t),
{
    let s = insert_spec(entries, capacity, t);
    assert(s.last() == t);
}

} // verus!
