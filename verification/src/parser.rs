//! The orchestrator: one pass over the buffer in fixed section order —
//! header, vertices, surfaces, texture paths, materials — then the submesh
//! consistency check. The first failure aborts the parse; a partial result is
//! never exposed.

use vstd::prelude::*;

use crate::error::PmxError;
use crate::globals::{spec_globals, spec_globals_raw, PMXGlobals};
use crate::header::{
    parse_header_raw, spec_header, spec_read_header_raw, HeaderView, PMXHeader, PMXHeaderRaw,
};
use crate::material::{read_material_list, spec_read_materials, MaterialView, PMXMaterialData};
use crate::surface::{read_surface_list, spec_read_surfaces, PMXSurfaceData};
use crate::text::{spec_decode_text, TextEncodingType};
use crate::utils::{read_i32, read_text, spec_read_i32, spec_read_text};
use crate::vertex::{read_vertex_list, spec_read_vertices, PMXVertexData, VertexView};

verus! {

/// A negative section count reads as zero records, as a signed count below
/// zero can never be satisfied.
pub open spec fn nneg(v: i32) -> int {
    if v < 0 {
        0
    } else {
        v as int
    }
}

/// One texture path at `p`: a length-prefixed block decoded through `enc`.
pub open spec fn spec_read_texture_path(s: Seq<u8>, p: int, enc: TextEncodingType) -> Result<
    (Seq<char>, int),
    PmxError,
> {
    match spec_read_text(s, p) {
        Err(e) => Err(e),
        Ok((raw, p1)) => match spec_decode_text(enc, raw.1) {
            Err(e) => Err(e),
            Ok(path) => Ok((path, p1)),
        },
    }
}

/// `n` texture paths at `p`.
pub open spec fn spec_read_texture_paths(
    s: Seq<u8>,
    p: int,
    n: int,
    enc: TextEncodingType,
) -> Result<(Seq<Seq<char>>, int), PmxError>
    decreases n,
{
    if n <= 0 {
        Ok((Seq::empty(), p))
    } else {
        match spec_read_texture_path(s, p, enc) {
            Err(e) => Err(e),
            Ok((v, p1)) => match spec_read_texture_paths(s, p1, n - 1, enc) {
                Err(e) => Err(e),
                Ok((rest, p2)) => Ok((seq![v] + rest, p2)),
            },
        }
    }
}

/// Read one texture path and advance.
pub fn read_texture_path(data: &[u8], cursor: &mut usize, enc: TextEncodingType) -> (r: Result<
    String,
    PmxError,
>)
    ensures
        match spec_read_texture_path(data@, *old(cursor) as int, enc) {
            Ok(v) => r matches Ok(path) && path@ == v.0 && *final(cursor) == v.1,
            Err(e) => r matches Err(a) && a == e,
        },
{
    let raw = match read_text(data, cursor) {
        Ok(v) => v,
        Err(e) => {
            return Err(e);
        },
    };
    match enc.parse_text(&raw) {
        Ok(path) => Ok(path),
        Err(e) => Err(e),
    }
}

/// Read `count` texture paths and advance.
pub fn read_texture_path_list(
    data: &[u8],
    cursor: &mut usize,
    count: usize,
    enc: TextEncodingType,
) -> (r: Result<Vec<String>, PmxError>)
    ensures
        match spec_read_texture_paths(data@, *old(cursor) as int, count as int, enc) {
            Ok(v) => r matches Ok(list) && list.deep_view() == v.0 && *final(cursor) == v.1,
            Err(e) => r matches Err(a) && a == e,
        },
{
    let ghost p0 = *cursor as int;
    let ghost s = data@;
    let mut pos: usize = *cursor;
    let mut list: Vec<String> = Vec::new();
    let mut i: usize = 0;
    while i < count
        invariant
            i <= count,
            list@.len() == i,
            match spec_read_texture_paths(s, pos as int, count - i, enc) {
                Ok(v) => spec_read_texture_paths(s, p0, count as int, enc) == Ok::<_, PmxError>(
                    (list.deep_view() + v.0, v.1),
                ),
                Err(e) => spec_read_texture_paths(s, p0, count as int, enc) == Err::<
                    (Seq<Seq<char>>, int),
                    _,
                >(e),
            },
            s == data@,
            p0 == *old(cursor) as int,
        decreases count - i,
    {
        let ghost old_list = list.deep_view();
        match read_texture_path(data, &mut pos, enc) {
            Ok(v) => {
                list.push(v);
                i = i + 1;
                proof {
                    assert(list.deep_view() =~= old_list + seq![v@]);
                    if let Ok((rest, p2)) = spec_read_texture_paths(s, pos as int, count - i, enc) {
                        assert(old_list + (seq![v@] + rest) =~= (old_list + seq![v@]) + rest);
                    }
                }
            },
            Err(e) => {
                return Err(e);
            },
        }
    }
    proof {
        assert(list.deep_view() + Seq::<Seq<char>>::empty() =~= list.deep_view());
    }
    *cursor = pos;
    Ok(list)
}

/// The sum of the materials' submesh sizes.
pub open spec fn spec_sum_surface_counts(ms: Seq<MaterialView>) -> int
    decreases ms.len(),
{
    if ms.len() == 0 {
        0
    } else {
        spec_sum_surface_counts(ms.drop_last()) + ms.last().surface_count
    }
}

/// The submesh sizes partition the flat surface-index array: every size is
/// non-negative and they sum to three entries per decoded triangle.
pub open spec fn spec_submesh_consistent(ms: Seq<MaterialView>, num_surfaces: int) -> bool {
    &&& forall|j: int| 0 <= j < ms.len() ==> #[trigger] ms[j].surface_count >= 0
    &&& spec_sum_surface_counts(ms) == 3 * num_surfaces
}

/// Decide submesh consistency for the decoded materials.
pub fn submesh_consistent(materials: &Vec<PMXMaterialData>, num_surfaces: usize) -> (r: bool)
    ensures
        r == spec_submesh_consistent(materials.deep_view(), num_surfaces as int),
{
    let ghost ms = materials.deep_view();
    let mut sum: u128 = 0;
    let mut i: usize = 0;
    while i < materials.len()
        invariant
            i <= materials@.len(),
            ms == materials.deep_view(),
            ms.len() == materials@.len(),
            forall|j: int| 0 <= j < i ==> #[trigger] ms[j].surface_count >= 0,
            sum == spec_sum_surface_counts(ms.take(i as int)),
            sum <= i * 0x8000_0000u128,
        decreases materials@.len() - i,
    {
        let c = materials[i].surface_count;
        if c < 0 {
            proof {
                assert(ms[i as int].surface_count < 0);
            }
            return false;
        }
        proof {
            assert(ms.take(i + 1).drop_last() =~= ms.take(i as int));
            assert(ms.take(i + 1).last() == ms[i as int]);
            assert(ms[i as int].surface_count == c);
        }
        sum = sum + (c as u128);
        i = i + 1;
    }
    proof {
        assert(ms.take(materials@.len() as int) =~= ms);
    }
    sum == 3 * (num_surfaces as u128)
}

/// The fully decoded model.
#[derive(Debug, Clone, PartialEq)]
pub struct PMXFormat {
    pub header: PMXHeader,
    pub globals: PMXGlobals,
    pub vertices: Vec<PMXVertexData>,
    pub surfaces: Vec<PMXSurfaceData>,
    pub texture_paths: Vec<String>,
    pub materials: Vec<PMXMaterialData>,
}

/// The mathematical value of a decoded model.
pub ghost struct ModelView {
    pub header: HeaderView,
    pub globals: PMXGlobals,
    pub vertices: Seq<VertexView>,
    pub surfaces: Seq<PMXSurfaceData>,
    pub texture_paths: Seq<Seq<char>>,
    pub materials: Seq<MaterialView>,
}

impl DeepView for PMXFormat {
    type V = ModelView;

    open spec fn deep_view(&self) -> ModelView {
        ModelView {
            header: self.header.deep_view(),
            globals: self.globals,
            vertices: self.vertices.deep_view(),
            surfaces: self.surfaces@,
            texture_paths: self.texture_paths.deep_view(),
            materials: self.materials.deep_view(),
        }
    }
}

/// The whole decode, and the buffer position just past the material section:
/// header, globals resolution, header-text decoding, then the four counted
/// sections in fixed order, then the submesh consistency check. Opaque: one
/// parse step at a time is revealed where needed.
#[verifier::opaque]
pub open spec fn spec_parse_all(s: Seq<u8>) -> Result<(ModelView, int), PmxError> {
    match spec_read_header_raw(s, 0) {
        Err(e) => Err(e),
        Ok((raw, p1)) => match spec_globals(spec_globals_raw(raw.globals)) {
            Err(e) => Err(e),
            Ok(g) => match spec_header(raw, g.text_encoding) {
                Err(e) => Err(e),
                Ok(header) => match spec_read_i32(s, p1) {
                    Err(e) => Err(e),
                    Ok((vertex_count, p2)) => match spec_read_vertices(
                        s,
                        p2,
                        nneg(vertex_count),
                        g.bone_index_size.spec_to_usize() as int,
                        g.additional_vec4_count as int,
                    ) {
                        Err(e) => Err(e),
                        Ok((vertices, p3)) => match spec_read_i32(s, p3) {
                            Err(e) => Err(e),
                            Ok((surface_index_count, p4)) => match spec_read_surfaces(
                                s,
                                p4,
                                nneg(surface_index_count) / 3,
                                g.vertex_index_size.spec_to_usize() as int,
                            ) {
                                Err(e) => Err(e),
                                Ok((surfaces, p5)) => match spec_read_i32(s, p5) {
                                    Err(e) => Err(e),
                                    Ok((texture_count, p6)) => match spec_read_texture_paths(
                                        s,
                                        p6,
                                        nneg(texture_count),
                                        g.text_encoding,
                                    ) {
                                        Err(e) => Err(e),
                                        Ok((texture_paths, p7)) => match spec_read_i32(s, p7) {
                                            Err(e) => Err(e),
                                            Ok((material_count, p8)) => match spec_read_materials(
                                                s,
                                                p8,
                                                nneg(material_count),
                                                g.texture_index_size.spec_to_usize() as int,
                                                g.text_encoding,
                                            ) {
                                                Err(e) => Err(e),
                                                Ok((materials, p9)) => if spec_submesh_consistent(
                                                    materials,
                                                    surfaces.len() as int,
                                                ) {
                                                    Ok(
                                                        (
                                                            ModelView {
                                                                header,
                                                                globals: g,
                                                                vertices,
                                                                surfaces,
                                                                texture_paths,
                                                                materials,
                                                            },
                                                            p9,
                                                        ),
                                                    )
                                                } else {
                                                    Err(PmxError::StructuralInconsistency)
                                                },
                                            },
                                        },
                                    },
                                },
                            },
                        },
                    },
                },
            },
        },
    }
}

/// The whole decode: `spec_parse_all` without the end position.
pub open spec fn spec_parse(s: Seq<u8>) -> Result<ModelView, PmxError> {
    match spec_parse_all(s) {
        Ok((m, _)) => Ok(m),
        Err(e) => Err(e),
    }
}

/// The stateless decoder.
pub struct PmxParser {}

impl PmxParser {
    /// A decoder instance; it holds no state.
    pub fn new() -> PmxParser {
        PmxParser {  }
    }

    /// Read the raw header section.
    fn parse_header(&self, data: &[u8], cursor: &mut usize) -> (r: Result<PMXHeaderRaw, PmxError>)
        ensures
            match spec_read_header_raw(data@, *old(cursor) as int) {
                Ok(v) => r matches Ok(h) && h.deep_view() == v.0 && *final(cursor) == v.1,
                Err(e) => r matches Err(a) && a == e,
            },
    {
        parse_header_raw(data, cursor)
    }

    /// Decode one whole buffer. The result is exactly what `spec_parse` gives
    /// for the buffer's bytes: the decode is total and deterministic, and on
    /// success the model's submesh sizes partition its surface array.
    #[verifier::rlimit(80)]
    pub fn parse(&self, data: &[u8]) -> (r: Result<PMXFormat, PmxError>)
        ensures
            match spec_parse(data@) {
                Ok(m) => r matches Ok(x) && x.deep_view() == m && x.well_formed(),
                Err(e) => r matches Err(a) && a == e,
            },
    {
        proof {
            reveal(spec_parse_all);
        }
        let mut cursor: usize = 0;
        let header_raw = match self.parse_header(data, &mut cursor) {
            Ok(v) => v,
            Err(e) => {
                return Err(e);
            },
        };
        let global = match PMXGlobals::from_raw(&header_raw.to_globals_raw()) {
            Ok(v) => v,
            Err(e) => {
                return Err(e);
            },
        };
        let header = match PMXHeader::from_pmx_header_raw(&header_raw, &global) {
            Ok(v) => v,
            Err(e) => {
                return Err(e);
            },
        };
        let vertex_count = match read_i32(data, &mut cursor) {
            Ok(v) => v,
            Err(e) => {
                return Err(e);
            },
        };
        let n_vertices: usize = if vertex_count < 0 {
            0
        } else {
            vertex_count as usize
        };
        let vertices = match read_vertex_list(
            data,
            &mut cursor,
            n_vertices,
            global.bone_index_size.to_usize(),
            global.additional_vec4_count as usize,
        ) {
            Ok(v) => v,
            Err(e) => {
                return Err(e);
            },
        };
        let surface_index_count = match read_i32(data, &mut cursor) {
            Ok(v) => v,
            Err(e) => {
                return Err(e);
            },
        };
        let n_surfaces: usize = if surface_index_count < 0 {
            0
        } else {
            (surface_index_count / 3) as usize
        };
        let surfaces = match read_surface_list(data, &mut cursor, n_surfaces, global.vertex_index_size) {
            Ok(v) => v,
            Err(e) => {
                return Err(e);
            },
        };
        let texture_count = match read_i32(data, &mut cursor) {
            Ok(v) => v,
            Err(e) => {
                return Err(e);
            },
        };
        let n_textures: usize = if texture_count < 0 {
            0
        } else {
            texture_count as usize
        };
        let texture_paths = match read_texture_path_list(
            data,
            &mut cursor,
            n_textures,
            global.text_encoding,
        ) {
            Ok(v) => v,
            Err(e) => {
                return Err(e);
            },
        };
        let material_count = match read_i32(data, &mut cursor) {
            Ok(v) => v,
            Err(e) => {
                return Err(e);
            },
        };
        let n_materials: usize = if material_count < 0 {
            0
        } else {
            material_count as usize
        };
        let materials = match read_material_list(
            data,
            &mut cursor,
            n_materials,
            global.texture_index_size,
            global.text_encoding,
        ) {
            Ok(v) => v,
            Err(e) => {
                return Err(e);
            },
        };
        if !submesh_consistent(&materials, surfaces.len()) {
            return Err(PmxError::StructuralInconsistency);
        }
        Ok(
            PMXFormat {
                header,
                globals: global,
                vertices,
                surfaces,
                texture_paths,
                materials,
            },
        )
    }
}

/// The half-open submesh ranges derived by walking the materials in order:
/// range `i` starts at the sum of the sizes before material `i` and spans
/// that material's surface count.
pub open spec fn spec_submesh_ranges(ms: Seq<MaterialView>) -> Seq<(int, int)> {
    Seq::new(
        ms.len(),
        |i: int|
            (
                spec_sum_surface_counts(ms.take(i)),
                spec_sum_surface_counts(ms.take(i + 1)),
            ),
    )
}

/// The sum of non-negative submesh sizes is non-negative.
pub proof fn lemma_sum_nonneg(ms: Seq<MaterialView>)
    requires
        forall|j: int| 0 <= j < ms.len() ==> #[trigger] ms[j].surface_count >= 0,
    ensures
        spec_sum_surface_counts(ms) >= 0,
    decreases ms.len(),
{
    if ms.len() > 0 {
        assert forall|j: int| 0 <= j < ms.drop_last().len() implies #[trigger] ms.drop_last()[
            j
        ].surface_count >= 0 by {
            assert(ms.drop_last()[j] == ms[j]);
        }
        lemma_sum_nonneg(ms.drop_last());
    }
}

/// With non-negative submesh sizes, every prefix sum lies between zero and
/// the whole sum.
pub proof fn lemma_sum_prefix_bounds(ms: Seq<MaterialView>, i: int)
    requires
        0 <= i <= ms.len(),
        forall|j: int| 0 <= j < ms.len() ==> #[trigger] ms[j].surface_count >= 0,
    ensures
        0 <= spec_sum_surface_counts(ms.take(i)),
        spec_sum_surface_counts(ms.take(i)) <= spec_sum_surface_counts(ms),
    decreases ms.len() - i,
{
    assert forall|j: int| 0 <= j < ms.take(i).len() implies #[trigger] ms.take(
        i,
    )[j].surface_count >= 0 by {
        assert(ms.take(i)[j] == ms[j]);
    }
    lemma_sum_nonneg(ms.take(i));
    if i == ms.len() {
        assert(ms.take(i) =~= ms);
    } else {
        lemma_sum_prefix_bounds(ms, i + 1);
        assert(ms.take(i + 1).drop_last() =~= ms.take(i));
        assert(ms.take(i + 1).last() == ms[i]);
    }
}

/// The law of the submesh derivation: for a consistent model the sizes sum to
/// three index entries per triangle, and the derived ranges span exactly
/// their material's surface count, sit contiguously in material order
/// starting at zero — hence never overlap — and end exactly at the surface
/// array's length.
pub proof fn lemma_submesh_partition(ms: Seq<MaterialView>, num_surfaces: int)
    requires
        spec_submesh_consistent(ms, num_surfaces),
    ensures
        spec_sum_surface_counts(ms) == 3 * num_surfaces,
        spec_submesh_ranges(ms).len() == ms.len(),
        forall|i: int|
            0 <= i < ms.len() ==> #[trigger] spec_submesh_ranges(ms)[i].1 == spec_submesh_ranges(
                ms,
            )[i].0 + ms[i].surface_count,
        forall|i: int|
            0 <= i < ms.len() ==> 0 <= #[trigger] spec_submesh_ranges(ms)[i].0
                <= spec_submesh_ranges(ms)[i].1 <= 3 * num_surfaces,
        ms.len() > 0 ==> spec_submesh_ranges(ms)[0].0 == 0,
        forall|i: int|
            0 < i < ms.len() ==> #[trigger] spec_submesh_ranges(ms)[i].0 == spec_submesh_ranges(
                ms,
            )[i - 1].1,
        ms.len() > 0 ==> spec_submesh_ranges(ms)[ms.len() - 1].1 == 3 * num_surfaces,
{
    assert forall|i: int|
        0 <= i < ms.len() implies #[trigger] spec_submesh_ranges(ms)[i].1 == spec_submesh_ranges(
        ms,
    )[i].0 + ms[i].surface_count by {
        assert(ms.take(i + 1).drop_last() =~= ms.take(i));
        assert(ms.take(i + 1).last() == ms[i]);
    }
    assert forall|i: int|
        0 <= i < ms.len() implies 0 <= #[trigger] spec_submesh_ranges(ms)[i].0
        <= spec_submesh_ranges(ms)[i].1 <= 3 * num_surfaces by {
        lemma_sum_prefix_bounds(ms, i);
        lemma_sum_prefix_bounds(ms, i + 1);
        assert(ms.take(i + 1).drop_last() =~= ms.take(i));
        assert(ms.take(i + 1).last() == ms[i]);
    }
    if ms.len() > 0 {
        assert(ms.take(0) =~= Seq::<MaterialView>::empty());
        assert(ms.take(ms.len() as int) =~= ms);
    }
}

impl PMXFormat {
    /// A model is well formed when its materials' submesh sizes partition its
    /// flat surface-index array. `parse` only ever returns well-formed models.
    pub open spec fn well_formed(&self) -> bool {
        spec_submesh_consistent(self.materials.deep_view(), self.surfaces@.len() as int)
    }

    /// The derived submesh ranges, one `(start, end)` pair per material in
    /// material order. The bound on the surface count only keeps the range
    /// ends inside `u64`.
    pub fn submesh_ranges(&self) -> (r: Vec<(u64, u64)>)
        requires
            self.well_formed(),
            3 * self.surfaces@.len() <= u64::MAX,
        ensures
            r@.len() == spec_submesh_ranges(self.materials.deep_view()).len(),
            forall|i: int|
                0 <= i < r@.len() ==> #[trigger] r@[i].0 == spec_submesh_ranges(
                    self.materials.deep_view(),
                )[i].0 && r@[i].1 == spec_submesh_ranges(self.materials.deep_view())[i].1,
    {
        let ghost ms = self.materials.deep_view();
        let mut r: Vec<(u64, u64)> = Vec::new();
        let mut start: u64 = 0;
        let mut i: usize = 0;
        proof {
            assert(ms.take(0) =~= Seq::<MaterialView>::empty());
        }
        while i < self.materials.len()
            invariant
                i <= self.materials@.len(),
                ms == self.materials.deep_view(),
                ms.len() == self.materials@.len(),
                self.well_formed(),
                3 * self.surfaces@.len() <= u64::MAX,
                r@.len() == i,
                start == spec_sum_surface_counts(ms.take(i as int)),
                forall|j: int|
                    0 <= j < i ==> #[trigger] r@[j].0 == spec_submesh_ranges(ms)[j].0
                        && r@[j].1 == spec_submesh_ranges(ms)[j].1,
            decreases self.materials@.len() - i,
        {
            let c = self.materials[i].surface_count;
            proof {
                assert(ms[i as int] == self.materials@[i as int].deep_view());
                lemma_sum_prefix_bounds(ms, i as int);
                lemma_sum_prefix_bounds(ms, i + 1);
                assert(ms.take(i + 1).drop_last() =~= ms.take(i as int));
                assert(ms.take(i + 1).last() == ms[i as int]);
            }
            let end = start + (c as u64);
            r.push((start, end));
            start = end;
            i = i + 1;
        }
        r
    }
}

/// The triangles flattened into one index array: three entries per surface,
/// in surface order.
pub open spec fn spec_flat_indices(ss: Seq<PMXSurfaceData>) -> Seq<u32>
    decreases ss.len(),
{
    if ss.len() == 0 {
        Seq::empty()
    } else {
        spec_flat_indices(ss.drop_last()) + seq![
            ss.last().triangle.0,
            ss.last().triangle.1,
            ss.last().triangle.2,
        ]
    }
}

/// The flat index array holds exactly three entries per surface.
pub proof fn lemma_flat_indices_len(ss: Seq<PMXSurfaceData>)
    ensures
        spec_flat_indices(ss).len() == 3 * ss.len(),
    decreases ss.len(),
{
    if ss.len() > 0 {
        lemma_flat_indices_len(ss.drop_last());
    }
}

impl PMXFormat {
    /// Flatten the surface triangles into one index array, three entries per
    /// surface in surface order.
    pub fn flat_indices(&self) -> (r: Vec<u32>)
        ensures
            r@ == spec_flat_indices(self.surfaces@),
            r@.len() == 3 * self.surfaces@.len(),
    {
        let mut r: Vec<u32> = Vec::new();
        let mut i: usize = 0;
        proof {
            assert(self.surfaces@.take(0) =~= Seq::<PMXSurfaceData>::empty());
        }
        while i < self.surfaces.len()
            invariant
                i <= self.surfaces@.len(),
                r@ == spec_flat_indices(self.surfaces@.take(i as int)),
            decreases self.surfaces@.len() - i,
        {
            let ghost old_r = r@;
            let t = self.surfaces[i].triangle;
            r.push(t.0);
            r.push(t.1);
            r.push(t.2);
            proof {
                assert(self.surfaces@.take(i + 1).drop_last() =~= self.surfaces@.take(i as int));
                assert(self.surfaces@.take(i + 1).last() == self.surfaces@[i as int]);
                assert(r@ =~= old_r + seq![t.0, t.1, t.2]);
            }
            i = i + 1;
        }
        proof {
            assert(self.surfaces@.take(self.surfaces@.len() as int) =~= self.surfaces@);
            lemma_flat_indices_len(self.surfaces@);
        }
        r
    }
}

/// A decoded model always satisfies the partition invariant: an input whose
/// material sizes do not partition its surface array is rejected as
/// `StructuralInconsistency`, never silently accepted.
pub proof fn lemma_parse_only_consistent(s: Seq<u8>)
    ensures
        spec_parse(s) matches Ok(m) ==> spec_submesh_consistent(
            m.materials,
            m.surfaces.len() as int,
        ),
{
    reveal(spec_parse_all);
}

/// Decoding is deterministic: two decodes of the same bytes give the same
/// result, model and error alike.
pub proof fn lemma_parse_deterministic(
    s: Seq<u8>,
    r1: Result<ModelView, PmxError>,
    r2: Result<ModelView, PmxError>,
)
    requires
        r1 == spec_parse(s),
        r2 == spec_parse(s),
    ensures
        r1 == r2,
{
}

} // verus!
