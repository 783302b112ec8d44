//! Texture sampler descriptions and the cache of samplers created for them.
use vstd::prelude::*;
use crate::types::FilterMode;

verus! {

/// How a texture is filtered when it is sampled.
#[derive(Clone, Copy, Debug, PartialEq, Eq, Structural)]
pub enum FilterMethod {
    /// Nearest-neighbor interpolation.
    Scale,
    /// Simple mipmapping.
    Mipmap,
    /// Several texels within one mipmap level.
    Bilinear,
    /// Several texels across two mipmap levels.
    Trilinear,
    /// Anisotropic filtering with the given maximum.
    Anisotropic(u8),
}

/// How texture coordinates outside `[0, 1]` are handled.
#[derive(Clone, Copy, Debug, PartialEq, Eq, Structural)]
pub enum WrapMode {
    Tile,
    Mirror,
    Clamp,
    Border,
}

/// A depth comparison, used for shadow maps.
#[derive(Clone, Copy, Debug, PartialEq, Eq, Structural)]
pub enum Comparison {
    Never,
    Less,
    LessEqual,
    Equal,
    GreaterEqual,
    Greater,
    NotEqual,
    Always,
}

/// The description of a texture sampler. Levels of detail are in eighths of a
/// mipmap level; the border colour is packed RGBA.
#[derive(Clone, Copy, Debug, PartialEq, Eq, Structural)]
pub struct SamplerInfo {
    pub filter: FilterMethod,
    pub wrap_u: WrapMode,
    pub wrap_v: WrapMode,
    pub wrap_w: WrapMode,
    pub lod_bias: i16,
    pub lod_min: i16,
    pub lod_max: i16,
    pub comparison: Option<Comparison>,
    pub border: u32,
}

impl SamplerInfo {
    /// The sampler description with the given filter and the same wrapping on every
    /// axis, and no level-of-detail changes: bias 0, range `[-1000, 1000]` levels
    /// (`-8000` to `8000` eighths), no comparison, border colour 0.
    pub open spec fn new_spec(filter: FilterMethod, wrap: WrapMode) -> SamplerInfo {
        SamplerInfo {
            filter: filter,
            wrap_u: wrap,
            wrap_v: wrap,
            wrap_w: wrap,
            lod_bias: 0i16,
            lod_min: -8000i16,
            lod_max: 8000i16,
            comparison: None,
            border: 0u32,
        }
    }

    /// Creates a sampler description with the given filter and wrapping mode.
    pub fn new(filter: FilterMethod, wrap: WrapMode) -> (r: SamplerInfo)
        ensures
            r == Self::new_spec(filter, wrap),
    {
        SamplerInfo {
            filter: filter,
            wrap_u: wrap,
            wrap_v: wrap,
            wrap_w: wrap,
            lod_bias: 0,
            lod_min: -8000,
            lod_max: 8000,
            comparison: None,
            border: 0,
        }
    }
}

/// The filter method a filter mode samples with: nearest-neighbor scaling for
/// `Nearest`, bilinear for `Linear`.
pub open spec fn filter_method_of(mode: FilterMode) -> FilterMethod {
    match mode {
        FilterMode::Nearest => FilterMethod::Scale,
        FilterMode::Linear => FilterMethod::Bilinear,
    }
}

/// The filter mode of a filter method: `Nearest` for nearest-neighbor scaling,
/// `Linear` for every interpolating method.
pub open spec fn filter_mode_of(method: FilterMethod) -> FilterMode {
    match method {
        FilterMethod::Scale => FilterMode::Nearest,
        _ => FilterMode::Linear,
    }
}

impl From<FilterMode> for FilterMethod {
    fn from(mode: FilterMode) -> (r: FilterMethod) {
        match mode {
            FilterMode::Nearest => FilterMethod::Scale,
            FilterMode::Linear => FilterMethod::Bilinear,
        }
    }
}

impl vstd::std_specs::convert::FromSpecImpl<FilterMode> for FilterMethod {
    open spec fn obeys_from_spec() -> bool {
        true
    }

    open spec fn from_spec(mode: FilterMode) -> FilterMethod {
        filter_method_of(mode)
    }
}

impl From<FilterMethod> for FilterMode {
    fn from(method: FilterMethod) -> (r: FilterMode) {
        match method {
            FilterMethod::Scale => FilterMode::Nearest,
            _ => FilterMode::Linear,
        }
    }
}

impl vstd::std_specs::convert::FromSpecImpl<FilterMethod> for FilterMode {
    open spec fn obeys_from_spec() -> bool {
        true
    }

    open spec fn from_spec(method: FilterMethod) -> FilterMode {
        filter_mode_of(method)
    }
}

/// A filter mode turned into a filter method and back is the same filter mode.
pub proof fn lemma_filter_mode_round_trip(mode: FilterMode)
    ensures
        filter_mode_of(filter_method_of(mode)) == mode,
{
}

/// Samplers of type `S`, at most one for each sampler description.
pub struct SamplerCache<S> {
    entries: Vec<(SamplerInfo, S)>,
}

impl<S> SamplerCache<S> {
    #[verifier::type_invariant]
    closed spec fn keys_distinct(self) -> bool {
        forall|i: int, j: int|
            0 <= i < j < self.entries@.len() ==> #[trigger] self.entries@[i].0
                != #[trigger] self.entries@[j].0
    }

    closed spec fn has_key(self, k: SamplerInfo) -> bool {
        exists|i: int| 0 <= i < self.entries@.len() && #[trigger] self.entries@[i].0 == k
    }

    closed spec fn key_index(self, k: SamplerInfo) -> int {
        choose|i: int| 0 <= i < self.entries@.len() && #[trigger] self.entries@[i].0 == k
    }

    /// The samplers, by the description they were created for.
    pub closed spec fn view(self) -> Map<SamplerInfo, S> {
        Map::new(|k: SamplerInfo| self.has_key(k), |k: SamplerInfo| self.entries@[self.key_index(k)].1)
    }

    /// An empty cache.
    pub fn new() -> (c: Self)
        ensures
            c.view() == Map::<SamplerInfo, S>::empty(),
    {
        let c = SamplerCache { entries: Vec::new() };
        assert(c.view() =~= Map::<SamplerInfo, S>::empty());
        c
    }

    /// The number of samplers in the cache.
    pub fn len(&self) -> (n: usize)
        ensures
            n == self.view().len(),
    {
        proof {
            use_type_invariant(self);
            self.lemma_len();
        }
        self.entries.len()
    }

    /// The position of the entry for `info`, if there is one.
    fn find(&self, info: &SamplerInfo) -> (r: Option<usize>)
        ensures
            match r {
                Some(i) => i < self.entries@.len() && self.entries@[i as int].0 == *info,
                None => !self.has_key(*info),
            },
    {
        let n = self.entries.len();
        let mut i: usize = 0;
        while i < n
            invariant
                n == self.entries@.len(),
                i <= n,
                forall|j: int| 0 <= j < i ==> #[trigger] self.entries@[j].0 != *info,
            decreases n - i,
        {
            if self.entries[i].0 == *info {
                return Some(i);
            }
            i = i + 1;
        }
        None
    }

    /// Whether the cache holds a sampler for `info`.
    pub fn contains(&self, info: &SamplerInfo) -> (b: bool)
        ensures
            b == self.view().contains_key(*info),
    {
        self.find(info).is_some()
    }

    /// The sampler for `info`; if the cache holds none, `create` makes one, which
    /// the cache keeps. Returns a clone of the cached sampler.
    pub fn get_or_insert<F: FnOnce(SamplerInfo) -> S>(&mut self, info: SamplerInfo, create: F) -> (r: S)
        where S: Clone,
        requires
            call_requires(create, (info,)),
        ensures
            final(self).view().contains_key(info),
            old(self).view().contains_key(info) ==> final(self).view() == old(self).view(),
            !old(self).view().contains_key(info) ==> {
                &&& call_ensures(create, (info,), final(self).view()[info])
                &&& final(self).view() == old(self).view().insert(info, final(self).view()[info])
            },
            cloned(final(self).view()[info], r),
    {
        proof { use_type_invariant(&*self); }
        match self.find(&info) {
            Some(i) => {
                proof { self.lemma_index_of_key(i as int); }
                self.entries[i].1.clone()
            },
            None => {
                let s = create(info);
                let r = s.clone();
                let ghost before = *self;
                let mut entries: Vec<(SamplerInfo, S)> = Vec::new();
                std::mem::swap(&mut entries, &mut self.entries);
                entries.push((info, s));
                proof {
                    assert forall|a: int, b: int| 0 <= a < b < entries@.len() implies
                        #[trigger] entries@[a].0 != #[trigger] entries@[b].0 by {
                        if b == before.entries@.len() {
                            assert(before.entries@[a] == entries@[a]);
                        } else {
                            assert(before.entries@[a] == entries@[a]);
                            assert(before.entries@[b] == entries@[b]);
                        }
                    }
                }
                self.entries = entries;
                proof {
                    assert(self.entries@[before.entries@.len() as int].0 == info);
                    self.lemma_index_of_key(before.entries@.len() as int);
                    assert forall|k: SamplerInfo| #[trigger] before.has_key(k) implies self.has_key(k)
                        && self.key_index(k) == before.key_index(k) by {
                        let j = before.key_index(k);
                        assert(self.entries@[j] == before.entries@[j]);
                        before.lemma_index_of_key(j);
                        self.lemma_index_of_key(j);
                    }
                    assert forall|k: SamplerInfo| #[trigger] self.has_key(k) && k != info implies before.has_key(k) by {
                        let j = choose|j: int| 0 <= j < self.entries@.len() && #[trigger] self.entries@[j].0 == k;
                        assert(before.entries@[j].0 == k);
                    }
                    assert(self.view() =~= before.view().insert(info, s));
                }
                r
            },
        }
    }

    proof fn lemma_index_of_key(self, i: int)
        requires
            self.keys_distinct(),
            0 <= i < self.entries@.len(),
        ensures
            self.has_key(self.entries@[i].0),
            self.key_index(self.entries@[i].0) == i,
    {
        let k = self.entries@[i].0;
        assert(self.entries@[i].0 == k);
        let j = self.key_index(k);
        if j < i {
            assert(self.entries@[j].0 != self.entries@[i].0);
        } else if i < j {
            assert(self.entries@[i].0 != self.entries@[j].0);
        }
    }

    proof fn lemma_len(self)
        requires
            self.keys_distinct(),
        ensures
            self.view().dom().finite(),
            self.view().len() == self.entries@.len(),
        decreases self.entries@.len(),
    {
        let keys = self.entries@.map_values(|e: (SamplerInfo, S)| e.0);
        assert forall|i: int, j: int| 0 <= i < keys.len() && 0 <= j < keys.len() && i != j implies keys[i] != keys[j] by {
            if i < j {
                assert(self.entries@[i].0 != self.entries@[j].0);
            } else {
                assert(self.entries@[j].0 != self.entries@[i].0);
            }
        }
        keys.unique_seq_to_set();
        assert(self.view().dom() =~= keys.to_set()) by {
            assert forall|k: SamplerInfo| self.view().dom().contains(k) implies keys.to_set().contains(k) by {
                let i = choose|i: int| 0 <= i < self.entries@.len() && #[trigger] self.entries@[i].0 == k;
                assert(keys[i] == k);
            }
            assert forall|k: SamplerInfo| keys.to_set().contains(k) implies self.view().dom().contains(k) by {
                let i = choose|i: int| 0 <= i < keys.len() && keys[i] == k;
                assert(self.entries@[i].0 == k);
            }
        }
    }
}

} // verus!
