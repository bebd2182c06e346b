//! Per-index sizes of an axis: the parameters that seed them and the store
//! that keeps them across frames.

use vstd::prelude::*;

verus! {

/// The smallest size of a row or column unless its parameters say otherwise.
pub const DEFAULT_MINIMUM_DIMENSION: u32 = 10;

/// `x` held to `[lo, hi]`.
pub open spec fn spec_clamp(x: int, lo: int, hi: int) -> int {
    if x < lo {
        lo
    } else if x > hi {
        hi
    } else {
        x
    }
}

/// A configured dimension as the engine keeps it: negative values count as
/// zero, and values beyond `u32::MAX` as `u32::MAX`.
pub open spec fn spec_dimension(value: int) -> u32 {
    spec_clamp(value, 0, u32::MAX as int) as u32
}

/// Bring a configured dimension into the range of sizes.
pub fn sanitize_dimension(value: i64) -> (r: u32)
    ensures
        r == spec_dimension(value as int),
{
    if value < 0 {
        0
    } else if value > u32::MAX as i64 {
        u32::MAX
    } else {
        value as u32
    }
}

/// What the caller says of one row or column.
///
/// The default dimension, the minimum and the maximum may conflict. They are
/// reconciled when a size is seeded: the default is held to `[minimum,
/// maximum]`, and only for a resizable row or column.
#[derive(Debug, Clone)]
pub struct AxisParameters {
    pub name: Option<String>,
    /// The height of the row or the width of the column when it first appears.
    pub default_dimension: Option<u32>,
    pub minimum_dimension: u32,
    /// `u32::MAX` stands for no limit.
    pub maximum_dimension: u32,
    pub resizable: bool,
    pub monospace: bool,
}

impl Default for AxisParameters {
    fn default() -> (r: Self)
        ensures
            r.name is None,
            r.default_dimension is None,
            r.minimum_dimension == DEFAULT_MINIMUM_DIMENSION,
            r.maximum_dimension == u32::MAX,
            r.resizable,
            !r.monospace,
    {
        AxisParameters {
            name: None,
            default_dimension: None,
            minimum_dimension: DEFAULT_MINIMUM_DIMENSION,
            maximum_dimension: u32::MAX,
            resizable: true,
            monospace: false,
        }
    }
}

impl AxisParameters {
    /// The text of the header.
    pub fn name(self, s: String) -> (r: Self)
        ensures
            r == (AxisParameters { name: Some(s), ..self }),
    {
        let mut r = self;
        r.name = Some(s);
        r
    }

    /// The size of the row or column when it first appears. A negative value
    /// counts as zero.
    pub fn default_dimension(self, value: i64) -> (r: Self)
        ensures
            r == (AxisParameters {
                default_dimension: Some(spec_dimension(value as int)),
                ..self
            }),
    {
        let mut r = self;
        r.default_dimension = Some(sanitize_dimension(value));
        r
    }

    /// The smallest size that a drag or a default may give. A resizable row or
    /// column may still come out larger, since its handle must stay
    /// grabbable. A negative value counts as zero.
    pub fn minimum_dimension(self, value: i64) -> (r: Self)
        ensures
            r == (AxisParameters { minimum_dimension: spec_dimension(value as int), ..self }),
    {
        let mut r = self;
        r.minimum_dimension = sanitize_dimension(value);
        r
    }

    /// The largest size that a drag or a default may give. A negative value
    /// counts as zero; anything from `u32::MAX` on sets no limit.
    pub fn maximum_dimension(self, value: i64) -> (r: Self)
        ensures
            r == (AxisParameters { maximum_dimension: spec_dimension(value as int), ..self }),
    {
        let mut r = self;
        r.maximum_dimension = sanitize_dimension(value);
        r
    }

    /// Whether the user may drag the edge of the header.
    pub fn resizable(self, value: bool) -> (r: Self)
        ensures
            r == (AxisParameters { resizable: value, ..self }),
    {
        let mut r = self;
        r.resizable = value;
        r
    }

    /// Whether the header is set in a monospace font.
    pub fn monospace(self, value: bool) -> (r: Self)
        ensures
            r == (AxisParameters { monospace: value, ..self }),
    {
        let mut r = self;
        r.monospace = value;
        r
    }

    /// The minimum does not exceed the maximum, so that a size can be held
    /// between them.
    pub open spec fn range_is_ordered(&self) -> bool {
        self.minimum_dimension <= self.maximum_dimension
    }

    /// A first size can be derived from these parameters: where the default
    /// has to be held to the range, the range is ordered.
    pub open spec fn can_seed(&self) -> bool {
        self.default_dimension is Some && self.resizable ==> self.range_is_ordered()
    }

    /// Whether a first size can be derived from these parameters.
    pub fn seedable(&self) -> (r: bool)
        ensures
            r == self.can_seed(),
    {
        match self.default_dimension {
            Some(_) => !self.resizable || self.minimum_dimension <= self.maximum_dimension,
            None => true,
        }
    }

    /// The first size of a row or column with these parameters: its default
    /// dimension, held to `[minimum, maximum]` if it is resizable; `fallback`
    /// if it has no default dimension.
    pub open spec fn spec_seed(&self, fallback: u32) -> u32 {
        match self.default_dimension {
            Some(d) => if self.resizable {
                spec_clamp(
                    d as int,
                    self.minimum_dimension as int,
                    self.maximum_dimension as int,
                ) as u32
            } else {
                d
            },
            None => fallback,
        }
    }

    /// Compute the first size of a row or column with these parameters.
    pub fn seed(&self, fallback: u32) -> (r: u32)
        requires
            self.can_seed(),
        ensures
            r == self.spec_seed(fallback),
    {
        match self.default_dimension {
            Some(d) => {
                if self.resizable {
                    if d < self.minimum_dimension {
                        self.minimum_dimension
                    } else if d > self.maximum_dimension {
                        self.maximum_dimension
                    } else {
                        d
                    }
                } else {
                    d
                }
            },
            None => fallback,
        }
    }
}

/// The parameters that a caller supplied, as a sequence by data index; absent
/// parameters are an empty sequence.
pub open spec fn parameters_view(parameters: Option<&Vec<AxisParameters>>) -> Seq<AxisParameters> {
    match parameters {
        Some(p) => p@,
        None => Seq::empty(),
    }
}

/// The parameters of a data index, if the caller supplied any for it.
pub fn parameters_at(parameters: Option<&Vec<AxisParameters>>, index: usize) -> (r: Option<
    &AxisParameters,
>)
    ensures
        r is Some <==> index < parameters_view(parameters).len(),
        r is Some ==> *r.unwrap() == parameters_view(parameters)[index as int],
{
    match parameters {
        Some(p) => {
            if index < p.len() {
                Some(&p[index])
            } else {
                None
            }
        },
        None => None,
    }
}

/// The size that a new slot at `index` starts with.
pub open spec fn seeded_size(parameters: Seq<AxisParameters>, index: int, default_size: u32) -> u32 {
    if 0 <= index < parameters.len() {
        parameters[index].spec_seed(default_size)
    } else {
        default_size
    }
}

/// Every slot from `from` up to `to` can be seeded.
pub open spec fn can_seed_range(parameters: Seq<AxisParameters>, from: int, to: int) -> bool {
    forall|i: int| from <= i < to && 0 <= i < parameters.len() ==> (#[trigger] parameters[i]).can_seed()
}

/// Whether every slot from `from` up to `to` can be seeded.
pub fn seedable_range(parameters: Option<&Vec<AxisParameters>>, from: usize, to: usize) -> (r: bool)
    ensures
        r == can_seed_range(parameters_view(parameters), from as int, to as int),
{
    let mut i: usize = from;
    while i < to
        invariant
            from <= i,
            forall|j: int|
                from <= j < i && 0 <= j < parameters_view(parameters).len() ==> (
                #[trigger] parameters_view(parameters)[j]).can_seed(),
        decreases to - i,
    {
        match parameters_at(parameters, i) {
            Some(p) => {
                if !p.seedable() {
                    return false;
                }
            },
            None => {
                return true;
            },
        }
        i += 1;
    }
    true
}

/// `sizes` grown to `target` slots where it is shorter, the new slots seeded.
pub open spec fn grown_sizes(
    sizes: Seq<u32>,
    target: int,
    parameters: Seq<AxisParameters>,
    default_size: u32,
) -> Seq<u32> {
    if target <= sizes.len() {
        sizes
    } else {
        Seq::new(
            target as nat,
            |i: int|
                if i < sizes.len() {
                    sizes[i]
                } else {
                    seeded_size(parameters, i, default_size)
                },
        )
    }
}

/// The size kept for a data index, or `fallback` where none is kept.
pub open spec fn spec_size_at(sizes: Seq<u32>, index: int, fallback: u32) -> u32 {
    if 0 <= index < sizes.len() {
        sizes[index]
    } else {
        fallback
    }
}

/// The sizes of the rows or of the columns, by data index.
///
/// The store only grows: when the data shrinks and grows again, the sizes that
/// the user gave to the indices that come back are still there.
#[derive(Debug, Clone)]
pub struct AxisSizingStore {
    sizes: Vec<u32>,
}

impl View for AxisSizingStore {
    type V = Seq<u32>;

    closed spec fn view(&self) -> Seq<u32> {
        self.sizes@
    }
}

impl Default for AxisSizingStore {
    fn default() -> (r: Self)
        ensures
            r@ == Seq::<u32>::empty(),
    {
        AxisSizingStore { sizes: Vec::new() }
    }
}

impl AxisSizingStore {
    /// A store without sizes.
    pub fn new() -> (r: Self)
        ensures
            r@ == Seq::<u32>::empty(),
    {
        AxisSizingStore { sizes: Vec::new() }
    }

    /// A store that holds the given sizes, as read back from where they were
    /// kept.
    pub fn from_sizes(sizes: Vec<u32>) -> (r: Self)
        ensures
            r@ == sizes@,
    {
        AxisSizingStore { sizes }
    }

    /// The number of slots.
    pub fn len(&self) -> (r: usize)
        ensures
            r == self@.len(),
    {
        self.sizes.len()
    }

    /// The sizes, by data index.
    pub fn as_slice(&self) -> (r: &[u32])
        ensures
            r@ == self@,
    {
        self.sizes.as_slice()
    }

    /// The size of a data index, or `fallback` if the store has no slot for it.
    pub fn get(&self, index: usize, fallback: u32) -> (r: u32)
        ensures
            r == spec_size_at(self@, index as int, fallback),
    {
        if index < self.sizes.len() {
            self.sizes[index]
        } else {
            fallback
        }
    }

    /// Overwrite the size of one slot. The value is taken as it is.
    pub fn set(&mut self, index: usize, value: u32)
        requires
            index < old(self)@.len(),
        ensures
            final(self)@ == old(self)@.update(index as int, value),
            final(self)@.len() == old(self)@.len(),
    {
        self.sizes[index] = value;
    }

    /// Make sure that the store has a slot for each of `target_count` data
    /// indices. Slots that exist keep their sizes; each new slot gets the
    /// seeded size of its index. The store never shrinks.
    pub fn ensure_capacity(
        &mut self,
        target_count: usize,
        default_size: u32,
        parameters: Option<&Vec<AxisParameters>>,
    )
        requires
            can_seed_range(
                parameters_view(parameters),
                old(self)@.len() as int,
                target_count as int,
            ),
        ensures
            final(self)@ == grown_sizes(
                old(self)@,
                target_count as int,
                parameters_view(parameters),
                default_size,
            ),
            target_count <= old(self)@.len() ==> final(self)@ == old(self)@,
            final(self)@.len() >= old(self)@.len(),
            final(self)@.len() >= target_count,
            forall|i: int| 0 <= i < old(self)@.len() ==> final(self)@[i] == old(self)@[i],
            forall|i: int|
                old(self)@.len() <= i < target_count ==> final(self)@[i] == seeded_size(
                    parameters_view(parameters),
                    i,
                    default_size,
                ),
    {
        while self.sizes.len() < target_count
            invariant
                old(self)@.len() <= self.sizes@.len(),
                self.sizes@.len() <= target_count || self.sizes@.len() == old(self)@.len(),
                forall|i: int| 0 <= i < old(self)@.len() ==> self.sizes@[i] == old(self)@[i],
                forall|i: int|
                    old(self)@.len() <= i < self.sizes@.len() ==> self.sizes@[i] == seeded_size(
                        parameters_view(parameters),
                        i,
                        default_size,
                    ),
                can_seed_range(
                    parameters_view(parameters),
                    old(self)@.len() as int,
                    target_count as int,
                ),
            decreases target_count - self.sizes.len(),
        {
            let index: usize = self.sizes.len();
            let size: u32 = match parameters_at(parameters, index) {
                Some(p) => p.seed(default_size),
                None => default_size,
            };
            self.sizes.push(size);
        }
        assert(self.sizes@ =~= grown_sizes(
            old(self)@,
            target_count as int,
            parameters_view(parameters),
            default_size,
        ));
    }
}

} // verus!
