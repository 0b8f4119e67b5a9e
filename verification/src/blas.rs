//! Building bottom-level acceleration structures: which meshes are built,
//! where each build's scratch memory lies, and the build ranges of their
//! geometries.
use vstd::prelude::*;

verus! {

/// Size in bytes of one index; indices are 32-bit.
pub const INDEX_STRIDE: u32 = 4;

/// A range of a mesh's indices and vertices forming one triangle geometry.
#[derive(Clone, Copy, Debug)]
pub struct GeometryRange {
    pub index_count: u32,
    pub index_offset: u32,
    pub vertex_offset: u32,
}

/// The build range of one geometry: the values of a
/// `VkAccelerationStructureBuildRangeInfoKHR`.
#[derive(Clone, Copy, Debug)]
pub struct BuildRangeInfo {
    pub primitive_count: u32,
    pub primitive_offset: u32,
    pub first_vertex: u32,
    pub transform_offset: u32,
}

/// The build range of a geometry: one triangle per three indices, the
/// index offset in bytes, the first vertex, no transform.
pub open spec fn spec_build_range_info(range: GeometryRange) -> BuildRangeInfo {
    BuildRangeInfo {
        primitive_count: range.index_count / 3,
        primitive_offset: (range.index_offset * INDEX_STRIDE) as u32,
        first_vertex: range.vertex_offset,
        transform_offset: 0,
    }
}

/// The index offset of a geometry range is addressable in bytes.
pub open spec fn range_fits(range: GeometryRange) -> bool {
    range.index_offset * INDEX_STRIDE <= u32::MAX
}

/// The build range of one geometry.
pub fn build_range_info(range: &GeometryRange) -> (info: BuildRangeInfo)
    requires
        range_fits(*range),
    ensures
        info == spec_build_range_info(*range),
{
    BuildRangeInfo {
        primitive_count: range.index_count / 3,
        primitive_offset: range.index_offset * INDEX_STRIDE,
        first_vertex: range.vertex_offset,
        transform_offset: 0,
    }
}

/// The build ranges of a mesh's geometries, in order.
pub fn build_range_infos(ranges: &Vec<GeometryRange>) -> (infos: Vec<BuildRangeInfo>)
    requires
        forall|i: int| 0 <= i < ranges@.len() ==> range_fits(#[trigger] ranges@[i]),
    ensures
        infos@.len() == ranges@.len(),
        forall|i: int| 0 <= i < ranges@.len() ==> #[trigger] infos@[i] == spec_build_range_info(ranges@[i]),
{
    let mut infos: Vec<BuildRangeInfo> = Vec::new();
    let mut k: usize = 0;
    while k < ranges.len()
        invariant
            k <= ranges@.len(),
            infos@.len() == k,
            forall|i: int| 0 <= i < ranges@.len() ==> range_fits(#[trigger] ranges@[i]),
            forall|i: int| 0 <= i < k ==> #[trigger] infos@[i] == spec_build_range_info(ranges@[i]),
        decreases ranges@.len() - k,
    {
        infos.push(build_range_info(&ranges[k]));
        k = k + 1;
    }
    infos
}

/// The triangle count of each geometry, for sizing the build.
pub fn primitive_counts(ranges: &Vec<GeometryRange>) -> (counts: Vec<u32>)
    ensures
        counts@.len() == ranges@.len(),
        forall|i: int| 0 <= i < ranges@.len() ==> #[trigger] counts@[i] == ranges@[i].index_count / 3,
{
    let mut counts: Vec<u32> = Vec::new();
    let mut k: usize = 0;
    while k < ranges.len()
        invariant
            k <= ranges@.len(),
            counts@.len() == k,
            forall|i: int| 0 <= i < k ==> #[trigger] counts@[i] == ranges@[i].index_count / 3,
        decreases ranges@.len() - k,
    {
        counts.push(ranges[k].index_count / 3);
        k = k + 1;
    }
    counts
}

/// The meshes whose structures are (re)built this frame: the newly loaded
/// ones, then the changed ones.
pub fn pending_meshes<T: Copy>(loaded: &Vec<T>, changed: &Vec<T>) -> (pending: Vec<T>)
    ensures
        pending@ == loaded@ + changed@,
{
    let mut pending: Vec<T> = Vec::new();
    let mut k: usize = 0;
    while k < loaded.len()
        invariant
            k <= loaded@.len(),
            pending@ == loaded@.subrange(0, k as int),
        decreases loaded@.len() - k,
    {
        pending.push(loaded[k]);
        k = k + 1;
        assert(pending@ =~= loaded@.subrange(0, k as int));
    }
    let mut j: usize = 0;
    while j < changed.len()
        invariant
            j <= changed@.len(),
            pending@ == loaded@ + changed@.subrange(0, j as int),
        decreases changed@.len() - j,
    {
        pending.push(changed[j]);
        j = j + 1;
        assert(pending@ =~= loaded@ + changed@.subrange(0, j as int));
    }
    assert(loaded@.subrange(0, loaded@.len() as int) =~= loaded@);
    assert(changed@.subrange(0, changed@.len() as int) =~= changed@);
    pending
}

/// `value` rounded up to a multiple of `alignment`.
pub open spec fn spec_align_up(value: int, alignment: int) -> int {
    ((value + alignment - 1) / alignment) * alignment
}

/// `value` rounded up to a multiple of `alignment`.
pub fn align_up(value: u64, alignment: u64) -> (aligned: u64)
    requires
        alignment > 0,
        value + alignment - 1 <= u64::MAX,
    ensures
        aligned == spec_align_up(value as int, alignment as int),
{
    proof {
        lemma_align_up(value as int, alignment as int);
    }
    ((value + (alignment - 1)) / alignment) * alignment
}

/// Rounding up gives the least multiple of the alignment that is not
/// below the value.
pub proof fn lemma_align_up(value: int, alignment: int)
    requires
        value >= 0,
        alignment > 0,
    ensures
        spec_align_up(value, alignment) % alignment == 0,
        value <= spec_align_up(value, alignment) < value + alignment,
{
    let n = value + alignment - 1;
    let q = n / alignment;
    assert(q * alignment % alignment == 0 && value <= q * alignment < value + alignment) by (nonlinear_arith)
        requires
            value >= 0,
            alignment > 0,
            n == value + alignment - 1,
            q == n / alignment,
    {
        assert(n == q * alignment + n % alignment);
        assert(0 <= n % alignment < alignment);
    }
}

/// The scratch memory shared by one frame's structure builds: each build
/// gets an aligned region after the regions handed out before it.
#[derive(Clone, Copy, Debug)]
pub struct ScratchLayout {
    /// Bytes of scratch memory handed out so far.
    pub size: u64,
}

/// Where a build needing `build_scratch_size` bytes is placed, and the
/// scratch size after it.
pub open spec fn spec_place(size: u64, build_scratch_size: u64, alignment: u64) -> (u64, u64) {
    let offset = spec_align_up(size as int, alignment as int);
    (offset as u64, (offset + build_scratch_size) as u64)
}

/// A build of `build_scratch_size` bytes can be placed without the scratch
/// size leaving `u64`.
pub open spec fn can_place(size: u64, build_scratch_size: u64, alignment: u64) -> bool {
    &&& alignment > 0
    &&& size + alignment - 1 <= u64::MAX
    &&& spec_align_up(size as int, alignment as int) + build_scratch_size <= u64::MAX
}

impl ScratchLayout {
    /// No scratch memory handed out yet.
    pub fn new() -> (layout: Self)
        ensures
            layout.size == 0,
    {
        ScratchLayout { size: 0 }
    }

    /// Places a build that needs `build_scratch_size` bytes of scratch
    /// memory aligned to `alignment`, and returns its offset.
    pub fn place(&mut self, build_scratch_size: u64, alignment: u64) -> (offset: u64)
        requires
            can_place(old(self).size, build_scratch_size, alignment),
        ensures
            offset == spec_place(old(self).size, build_scratch_size, alignment).0,
            final(self).size == spec_place(old(self).size, build_scratch_size, alignment).1,
    {
        let offset = align_up(self.size, alignment);
        self.size = offset + build_scratch_size;
        offset
    }
}

/// A placed build's region is aligned, starts at or after every region
/// placed before it, and ends where the scratch size now ends.
pub proof fn lemma_place_disjoint(size: u64, build_scratch_size: u64, alignment: u64)
    requires
        can_place(size, build_scratch_size, alignment),
    ensures
        ({
            let (offset, new_size) = spec_place(size, build_scratch_size, alignment);
            &&& offset % alignment == 0
            &&& size <= offset
            &&& offset + build_scratch_size == new_size
            &&& size <= new_size
        }),
{
    lemma_align_up(size as int, alignment as int);
}

/// Scratch placement of a frame's builds, one entry per pending mesh in
/// order: its scratch offset, or `None` for a mesh with no geometry to
/// build, and the scratch size after all of them.
pub open spec fn spec_plan(sizes: Seq<Option<u64>>, alignment: u64) -> (Seq<Option<u64>>, u64)
    decreases sizes.len(),
{
    if sizes.len() == 0 {
        (Seq::empty(), 0)
    } else {
        let (offsets, size) = spec_plan(sizes.drop_last(), alignment);
        match sizes.last() {
            None => (offsets.push(None), size),
            Some(s) => {
                let (offset, new_size) = spec_place(size, s, alignment);
                (offsets.push(Some(offset)), new_size)
            },
        }
    }
}

/// Every build of the plan can be placed without the scratch size leaving `u64`.
pub open spec fn plan_fits(sizes: Seq<Option<u64>>, alignment: u64) -> bool
    decreases sizes.len(),
{
    if sizes.len() == 0 {
        true
    } else {
        &&& plan_fits(sizes.drop_last(), alignment)
        &&& match sizes.last() {
            None => true,
            Some(s) => can_place(spec_plan(sizes.drop_last(), alignment).1, s, alignment),
        }
    }
}

/// A plan that fits fits on every prefix.
pub proof fn lemma_plan_fits_prefix(sizes: Seq<Option<u64>>, alignment: u64, k: int)
    requires
        plan_fits(sizes, alignment),
        0 <= k <= sizes.len(),
    ensures
        plan_fits(sizes.subrange(0, k), alignment),
    decreases sizes.len() - k,
{
    if k < sizes.len() {
        assert(sizes.subrange(0, k + 1).drop_last() =~= sizes.subrange(0, k));
        lemma_plan_fits_prefix(sizes, alignment, k + 1);
    } else {
        assert(sizes.subrange(0, k) =~= sizes);
    }
}

/// Places the scratch regions of a frame's builds in order.
pub fn plan_scratch(sizes: &Vec<Option<u64>>, alignment: u64) -> (plan: (Vec<Option<u64>>, u64))
    requires
        plan_fits(sizes@, alignment),
    ensures
        plan.0@ == spec_plan(sizes@, alignment).0,
        plan.1 == spec_plan(sizes@, alignment).1,
{
    let mut offsets: Vec<Option<u64>> = Vec::new();
    let mut layout = ScratchLayout::new();
    let mut k: usize = 0;
    while k < sizes.len()
        invariant
            k <= sizes@.len(),
            plan_fits(sizes@, alignment),
            offsets@ == spec_plan(sizes@.subrange(0, k as int), alignment).0,
            layout.size == spec_plan(sizes@.subrange(0, k as int), alignment).1,
        decreases sizes@.len() - k,
    {
        let ghost prefix = sizes@.subrange(0, k as int);
        let ghost next = sizes@.subrange(0, k + 1);
        proof {
            assert(next.drop_last() =~= prefix);
            lemma_plan_fits_prefix(sizes@, alignment, k + 1);
        }
        match sizes[k] {
            None => {
                offsets.push(None);
            },
            Some(s) => {
                let offset = layout.place(s, alignment);
                offsets.push(Some(offset));
            },
        }
        k = k + 1;
    }
    assert(sizes@.subrange(0, sizes@.len() as int) =~= sizes@);
    (offsets, layout.size)
}

/// The regions of a plan: each pending mesh with geometry gets one, it is
/// aligned and lies within the total scratch size, and the regions come in
/// order without overlapping.
pub proof fn lemma_plan_disjoint(sizes: Seq<Option<u64>>, alignment: u64)
    requires
        plan_fits(sizes, alignment),
    ensures
        ({
            let (offsets, total) = spec_plan(sizes, alignment);
            &&& offsets.len() == sizes.len()
            &&& forall|i: int| 0 <= i < sizes.len() ==> (#[trigger] offsets[i] is Some <==> sizes[i] is Some)
            &&& forall|i: int|
                0 <= i < sizes.len() && offsets[i] is Some ==> {
                    &&& #[trigger] offsets[i].unwrap() % alignment == 0
                    &&& offsets[i].unwrap() + sizes[i].unwrap() <= total
                }
            &&& forall|i: int, j: int|
                0 <= i < j < sizes.len() && offsets[i] is Some && offsets[j] is Some ==>
                    #[trigger] offsets[i].unwrap() + sizes[i].unwrap() <= #[trigger] offsets[j].unwrap()
        }),
    decreases sizes.len(),
{
    if sizes.len() > 0 {
        let init = sizes.drop_last();
        lemma_plan_disjoint(init, alignment);
        let (offsets0, size0) = spec_plan(init, alignment);
        let (offsets, total) = spec_plan(sizes, alignment);
        let n = init.len() as int;
        match sizes.last() {
            None => {
                assert forall|i: int| 0 <= i < n implies #[trigger] offsets[i] == offsets0[i] && sizes[i] == init[i] by {}
            },
            Some(s) => {
                lemma_place_disjoint(size0, s, alignment);
                assert forall|i: int| 0 <= i < n implies #[trigger] offsets[i] == offsets0[i] && sizes[i] == init[i] by {}
                assert(offsets[n] == Some(spec_place(size0, s, alignment).0));
            },
        }
    }
}

/// The device address of a build's scratch region.
pub fn scratch_address(scratch_base: u64, scratch_offset: u64) -> (address: u64)
    requires
        scratch_base + scratch_offset <= u64::MAX,
    ensures
        address == scratch_base + scratch_offset,
{
    scratch_base + scratch_offset
}

/// One structure built this frame: its mesh's geometry ranges, the handle
/// the structure was registered under, and its scratch offset.
#[derive(Debug)]
pub struct BLASBuild<H> {
    pub geometry_ranges: Vec<GeometryRange>,
    pub handle: H,
    pub scratch_offset: u64,
}

/// A build, its ranges taken as a sequence.
pub struct BLASBuildView<H> {
    pub geometry_ranges: Seq<GeometryRange>,
    pub handle: H,
    pub scratch_offset: u64,
}

impl<H> View for BLASBuild<H> {
    type V = BLASBuildView<H>;

    open spec fn view(&self) -> BLASBuildView<H> {
        BLASBuildView { geometry_ranges: self.geometry_ranges@, handle: self.handle, scratch_offset: self.scratch_offset }
    }
}

/// What the registry gave for a pending mesh: its geometry ranges and the
/// handle its new structure was registered under, or nothing when it knows
/// no geometry for the mesh.
pub open spec fn lookup_view<H>(l: Option<(Vec<GeometryRange>, H)>) -> Option<(Seq<GeometryRange>, H)> {
    match l {
        Some(p) => Some((p.0@, p.1)),
        None => None,
    }
}

/// The builds of the pending meshes, in pending order: one per mesh the
/// registry knows geometry for, at its scratch offset; meshes without
/// geometry are skipped.
pub open spec fn spec_blas_builds<H>(
    lookups: Seq<Option<(Seq<GeometryRange>, H)>>,
    offsets: Seq<Option<u64>>,
) -> Seq<BLASBuildView<H>>
    decreases lookups.len(),
{
    if lookups.len() == 0 {
        Seq::empty()
    } else {
        let earlier = spec_blas_builds(lookups.drop_last(), offsets.drop_last());
        match lookups.last() {
            Some(p) => earlier.push(
                BLASBuildView { geometry_ranges: p.0, handle: p.1, scratch_offset: offsets.last()->0 },
            ),
            None => earlier,
        }
    }
}

/// A copy of a mesh's geometry ranges.
fn copy_ranges(ranges: &Vec<GeometryRange>) -> (copy: Vec<GeometryRange>)
    ensures
        copy@ == ranges@,
{
    let mut copy: Vec<GeometryRange> = Vec::new();
    let mut k: usize = 0;
    while k < ranges.len()
        invariant
            k <= ranges@.len(),
            copy@ == ranges@.subrange(0, k as int),
        decreases ranges@.len() - k,
    {
        copy.push(ranges[k]);
        k = k + 1;
        assert(copy@ =~= ranges@.subrange(0, k as int));
    }
    assert(ranges@.subrange(0, k as int) =~= ranges@);
    copy
}

/// The builds of this frame from the registry's answer for each pending
/// mesh and the scratch offsets planned for them (an offset exactly for
/// the meshes with geometry).
pub fn blas_builds<H: Copy>(
    lookups: &Vec<Option<(Vec<GeometryRange>, H)>>,
    offsets: &Vec<Option<u64>>,
) -> (builds: Vec<BLASBuild<H>>)
    requires
        offsets@.len() == lookups@.len(),
        forall|i: int| 0 <= i < lookups@.len() ==> (#[trigger] lookups@[i] is Some <==> offsets@[i] is Some),
    ensures
        builds@.map_values(|b: BLASBuild<H>| b@) == spec_blas_builds(
            lookups@.map_values(|l: Option<(Vec<GeometryRange>, H)>| lookup_view(l)),
            offsets@,
        ),
{
    let ghost lv = lookups@.map_values(|l: Option<(Vec<GeometryRange>, H)>| lookup_view(l));
    let mut builds: Vec<BLASBuild<H>> = Vec::new();
    let mut k: usize = 0;
    while k < lookups.len()
        invariant
            k <= lookups@.len(),
            offsets@.len() == lookups@.len(),
            lv == lookups@.map_values(|l: Option<(Vec<GeometryRange>, H)>| lookup_view(l)),
            forall|i: int| 0 <= i < lookups@.len() ==> (#[trigger] lookups@[i] is Some <==> offsets@[i] is Some),
            builds@.map_values(|b: BLASBuild<H>| b@) == spec_blas_builds(
                lv.subrange(0, k as int),
                offsets@.subrange(0, k as int),
            ),
        decreases lookups@.len() - k,
    {
        let ghost before = builds@;
        assert(lv.subrange(0, k + 1).drop_last() =~= lv.subrange(0, k as int));
        assert(offsets@.subrange(0, k + 1).drop_last() =~= offsets@.subrange(0, k as int));
        match &lookups[k] {
            Some(found) => {
                let offset = match offsets[k] {
                    Some(o) => o,
                    None => 0,
                };
                let ranges = copy_ranges(&found.0);
                builds.push(BLASBuild { geometry_ranges: ranges, handle: found.1, scratch_offset: offset });
                assert(builds@.map_values(|b: BLASBuild<H>| b@) =~= before.map_values(|b: BLASBuild<H>| b@).push(
                    builds@.last()@,
                ));
            },
            None => {},
        }
        k = k + 1;
    }
    assert(lv.subrange(0, k as int) =~= lv);
    assert(offsets@.subrange(0, k as int) =~= offsets@);
    builds
}

/// One structure build as the pass records it: the structure to build,
/// the address of its scratch region and the build ranges of its
/// geometries.
#[derive(Debug)]
pub struct BLASBuildCommand<H> {
    pub handle: H,
    pub scratch_address: u64,
    pub range_infos: Vec<BuildRangeInfo>,
}

/// What the pass records for this frame's builds: nothing when there are
/// none, else one call that builds them all, in order.
pub fn blas_build_commands<H: Copy>(builds: &Vec<BLASBuild<H>>, scratch_base: u64) -> (c: Option<Vec<BLASBuildCommand<H>>>)
    requires
        forall|i: int| 0 <= i < builds@.len() ==> scratch_base + (#[trigger] builds@[i]).scratch_offset <= u64::MAX,
        forall|i: int, j: int|
            0 <= i < builds@.len() && 0 <= j < builds@[i].geometry_ranges@.len() ==> range_fits(
                #[trigger] builds@[i].geometry_ranges@[j],
            ),
    ensures
        c is None <==> builds@.len() == 0,
        c matches Some(cmds) ==> {
            &&& cmds@.len() == builds@.len()
            &&& forall|i: int| 0 <= i < builds@.len() ==> {
                &&& (#[trigger] cmds@[i]).handle == builds@[i].handle
                &&& cmds@[i].scratch_address == scratch_base + builds@[i].scratch_offset
                &&& cmds@[i].range_infos@.len() == builds@[i].geometry_ranges@.len()
                &&& forall|j: int| 0 <= j < builds@[i].geometry_ranges@.len() ==>
                    #[trigger] cmds@[i].range_infos@[j] == spec_build_range_info(builds@[i].geometry_ranges@[j])
            }
        },
{
    if builds.len() == 0 {
        return None;
    }
    let mut cmds: Vec<BLASBuildCommand<H>> = Vec::new();
    let mut k: usize = 0;
    while k < builds.len()
        invariant
            k <= builds@.len(),
            cmds@.len() == k,
            forall|i: int| 0 <= i < builds@.len() ==> scratch_base + (#[trigger] builds@[i]).scratch_offset <= u64::MAX,
            forall|i: int, j: int|
                0 <= i < builds@.len() && 0 <= j < builds@[i].geometry_ranges@.len() ==> range_fits(
                    #[trigger] builds@[i].geometry_ranges@[j],
                ),
            forall|i: int| 0 <= i < k ==> {
                &&& (#[trigger] cmds@[i]).handle == builds@[i].handle
                &&& cmds@[i].scratch_address == scratch_base + builds@[i].scratch_offset
                &&& cmds@[i].range_infos@.len() == builds@[i].geometry_ranges@.len()
                &&& forall|j: int| 0 <= j < builds@[i].geometry_ranges@.len() ==>
                    #[trigger] cmds@[i].range_infos@[j] == spec_build_range_info(builds@[i].geometry_ranges@[j])
            },
        decreases builds@.len() - k,
    {
        let b = &builds[k];
        assert forall|j: int| 0 <= j < b.geometry_ranges@.len() implies range_fits(#[trigger] b.geometry_ranges@[j]) by {
            assert(range_fits(builds@[k as int].geometry_ranges@[j]));
        }
        let range_infos = build_range_infos(&b.geometry_ranges);
        let address = scratch_address(scratch_base, b.scratch_offset);
        cmds.push(BLASBuildCommand { handle: b.handle, scratch_address: address, range_infos });
        k = k + 1;
    }
    Some(cmds)
}

/// The decimal digits of `n`, most significant first, as ASCII bytes.
pub open spec fn decimal_digits(n: nat) -> Seq<u8>
    decreases n,
{
    if n < 10 {
        seq![(48 + n) as u8]
    } else {
        decimal_digits(n / 10).push((48 + n % 10) as u8)
    }
}

/// Appends the decimal digits of `n`.
fn push_decimal(out: &mut Vec<u8>, n: u32)
    ensures
        final(out)@ == old(out)@ + decimal_digits(n as nat),
    decreases n,
{
    if n >= 10 {
        push_decimal(out, n / 10);
    }
    out.push((48 + n % 10) as u8);
    assert(out@ =~= old(out)@ + decimal_digits(n as nat));
}

/// The ASCII bytes of "blas_mesh_".
pub open spec fn blas_name_prefix() -> Seq<u8> {
    seq![98u8, 108, 97, 115, 95, 109, 101, 115, 104, 95]
}

/// The name a mesh's acceleration structure is allocated under:
/// `blas_mesh_` followed by the mesh id in decimal.
pub fn blas_allocation_name(mesh_id: u32) -> (name: Vec<u8>)
    ensures
        name@ == blas_name_prefix() + decimal_digits(mesh_id as nat),
{
    let mut name: Vec<u8> = Vec::new();
    name.push(98);
    name.push(108);
    name.push(97);
    name.push(115);
    name.push(95);
    name.push(109);
    name.push(101);
    name.push(115);
    name.push(104);
    name.push(95);
    assert(name@ =~= blas_name_prefix());
    push_decimal(&mut name, mesh_id);
    name
}

} // verus!
