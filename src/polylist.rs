//! Decoding a polylist into one vertex record per polygon corner.
use vstd::prelude::*;
use crate::accessor::{read_triple, read_vertex_position, source_triple, vertex_position};
use crate::document::{LoadError, Malformed, Mesh, MeshData, MeshView, Polylist, SharedInput, Triple, Vertex};
use crate::lookup::{lemma_first_some_none, position_source};
use crate::text::{semantic_of, semantic_spec, Semantic};

verus! {

/// What the inputs of one corner have contributed so far.
#[derive(Debug, Clone, Copy)]
pub struct CornerData<T> {
    pub position: Option<Triple<T>>,
    pub normal: Option<Triple<T>>,
}

pub open spec fn offset_used(inputs: Seq<SharedInput>, o: usize) -> bool {
    exists|j: int| 0 <= j < inputs.len() && inputs[j].offset == o
}

/// The number of distinct offsets among the inputs: the number of indices
/// each corner holds in the index stream.
pub open spec fn distinct_offsets(inputs: Seq<SharedInput>) -> nat
    decreases inputs.len(),
{
    if inputs.len() == 0 {
        0
    } else {
        let init = inputs.drop_last();
        distinct_offsets(init) + if offset_used(init, inputs.last().offset) { 0nat } else { 1nat }
    }
}

/// The sum of the polygon sizes.
pub open spec fn total(s: Seq<usize>) -> nat
    decreases s.len(),
{
    if s.len() == 0 {
        0
    } else {
        total(s.drop_last()) + s.last() as nat
    }
}

/// One input applied to a corner whose slot for it holds `index`.
pub open spec fn input_step<T>(mesh: Mesh<T>, input: SharedInput, index: usize, acc: CornerData<T>) -> Result<CornerData<T>, LoadError> {
    match semantic_spec(input.semantic@) {
        Semantic::Vertex => match vertex_position(mesh, input.source@, index) {
            Ok(t) => Ok(CornerData { position: Some(t), normal: acc.normal }),
            Err(e) => Err(e),
        },
        Semantic::Normal => match source_triple(mesh, input.source@, index) {
            Ok(t) => Ok(CornerData { position: acc.position, normal: Some(t) }),
            Err(e) => Err(e),
        },
        Semantic::Other => Ok(acc),
    }
}

/// The first `n` inputs, those bound to offset `o`, applied in order.
pub open spec fn offset_step<T>(
    mesh: Mesh<T>,
    inputs: Seq<SharedInput>,
    o: usize,
    index: usize,
    acc: CornerData<T>,
    n: int,
) -> Result<CornerData<T>, LoadError>
    decreases n,
{
    if n <= 0 {
        Ok(acc)
    } else {
        match offset_step(mesh, inputs, o, index, acc, n - 1) {
            Err(e) => Err(e),
            Ok(c) => if inputs[n - 1].offset == o {
                input_step(mesh, inputs[n - 1], index, c)
            } else {
                Ok(c)
            },
        }
    }
}

/// The first `m` slots of a corner's chunk of the index stream, applied in order.
pub open spec fn corner_attrs<T>(mesh: Mesh<T>, inputs: Seq<SharedInput>, chunk: Seq<usize>, m: int) -> Result<CornerData<T>, LoadError>
    decreases m,
{
    if m <= 0 {
        Ok(CornerData { position: None, normal: None })
    } else {
        match corner_attrs(mesh, inputs, chunk, m - 1) {
            Err(e) => Err(e),
            Ok(c) => offset_step(mesh, inputs, (m - 1) as usize, chunk[m - 1], c, inputs.len() as int),
        }
    }
}

/// The vertex record of a corner; a corner without a position fails.
pub open spec fn corner_vertex<T>(mesh: Mesh<T>, inputs: Seq<SharedInput>, chunk: Seq<usize>) -> Result<Vertex<T>, LoadError> {
    match corner_attrs(mesh, inputs, chunk, chunk.len() as int) {
        Err(e) => Err(e),
        Ok(c) => match c.position {
            None => Err(LoadError::MissingPosition),
            Some(p) => Ok(Vertex { position: p, normal: c.normal }),
        },
    }
}

/// The records of the first `n` corners; corner `k` reads the chunk of the
/// index stream that starts at `k * stride`.
pub open spec fn decode_corners<T>(mesh: Mesh<T>, pl: Polylist, n: nat) -> Result<Seq<Vertex<T>>, LoadError>
    decreases n,
{
    if n == 0 {
        Ok(Seq::empty())
    } else {
        match decode_corners(mesh, pl, (n - 1) as nat) {
            Err(e) => Err(e),
            Ok(vs) => {
                let k = n - 1;
                let s = distinct_offsets(pl.inputs@);
                if k > u32::MAX {
                    Err(LoadError::TooManyVertices)
                } else if k * s + s > pl.p@.len() {
                    Err(LoadError::Malformed(Malformed::IndexStreamTooShort))
                } else {
                    match corner_vertex(mesh, pl.inputs@, pl.p@.subrange(k * s, k * s + s)) {
                        Err(e) => Err(e),
                        Ok(v) => Ok(vs.push(v)),
                    }
                }
            },
        }
    }
}

pub open spec fn identity_indices(n: nat) -> Seq<u32> {
    Seq::new(n, |i: int| i as u32)
}

/// The decoded mesh: every corner of every polygon in order, each with the
/// next index.
pub open spec fn decode_spec<T>(mesh: Mesh<T>, pl: Polylist) -> Result<MeshView<T>, LoadError> {
    match decode_corners(mesh, pl, total(pl.vcount@)) {
        Err(e) => Err(e),
        Ok(vs) => Ok(MeshView { vertices: vs, indices: identity_indices(vs.len()) }),
    }
}

proof fn lemma_offset_step_err<T>(
    mesh: Mesh<T>,
    inputs: Seq<SharedInput>,
    o: usize,
    index: usize,
    acc: CornerData<T>,
    m: int,
    n: int,
)
    requires
        0 <= m <= n,
        offset_step(mesh, inputs, o, index, acc, m) is Err,
    ensures
        offset_step(mesh, inputs, o, index, acc, n) == offset_step(mesh, inputs, o, index, acc, m),
    decreases n - m,
{
    if m < n {
        lemma_offset_step_err(mesh, inputs, o, index, acc, m, n - 1);
    }
}

proof fn lemma_corner_attrs_err<T>(mesh: Mesh<T>, inputs: Seq<SharedInput>, chunk: Seq<usize>, m: int, n: int)
    requires
        0 <= m <= n,
        corner_attrs(mesh, inputs, chunk, m) is Err,
    ensures
        corner_attrs(mesh, inputs, chunk, n) == corner_attrs(mesh, inputs, chunk, m),
    decreases n - m,
{
    if m < n {
        lemma_corner_attrs_err(mesh, inputs, chunk, m, n - 1);
    }
}

proof fn lemma_decode_corners_err<T>(mesh: Mesh<T>, pl: Polylist, m: nat, n: nat)
    requires
        m <= n,
        decode_corners(mesh, pl, m) is Err,
    ensures
        decode_corners(mesh, pl, n) == decode_corners(mesh, pl, m),
    decreases n - m,
{
    if m < n {
        lemma_decode_corners_err(mesh, pl, m, (n - 1) as nat);
    }
}

proof fn lemma_total_prefix(s: Seq<usize>, i: int)
    requires
        0 <= i <= s.len(),
    ensures
        total(s.subrange(0, i)) <= total(s),
    decreases s.len(),
{
    if i == s.len() {
        assert(s.subrange(0, i) =~= s);
    } else {
        assert(s.drop_last().subrange(0, i) =~= s.subrange(0, i));
        lemma_total_prefix(s.drop_last(), i);
    }
}

/// Counts the distinct offsets of the inputs.
pub fn distinct_offset_count(inputs: &Vec<SharedInput>) -> (r: usize)
    ensures
        r == distinct_offsets(inputs@),
{
    let n = inputs.len();
    let mut count: usize = 0;
    let mut i: usize = 0;
    while i < n
        invariant
            n == inputs@.len(),
            i <= n,
            count <= i,
            count == distinct_offsets(inputs@.subrange(0, i as int)),
        decreases n - i,
    {
        let o = inputs[i].offset;
        let mut seen = false;
        let mut j: usize = 0;
        while j < i
            invariant
                n == inputs@.len(),
                j <= i,
                i < n,
                o == inputs@[i as int].offset,
                seen == (exists|q: int| 0 <= q < j && inputs@[q].offset == o),
            decreases i - j,
        {
            if inputs[j].offset == o {
                seen = true;
            }
            j += 1;
        }
        proof {
            let pre = inputs@.subrange(0, i + 1);
            assert(pre.drop_last() =~= inputs@.subrange(0, i as int));
            if seen {
                let q = choose|q: int| 0 <= q < i && inputs@[q].offset == o;
                assert(pre.drop_last()[q].offset == o);
            }
            if offset_used(pre.drop_last(), o) {
                let q = choose|q: int| 0 <= q < pre.drop_last().len() && pre.drop_last()[q].offset == o;
                assert(inputs@[q].offset == o);
            }
        }
        if !seen {
            count += 1;
        }
        i += 1;
    }
    assert(inputs@.subrange(0, n as int) =~= inputs@);
    count
}

/// Applies one input to a corner whose slot for it holds `index`.
pub fn apply_input<T: Copy>(mesh: &Mesh<T>, input: &SharedInput, index: usize, acc: CornerData<T>) -> (r: Result<CornerData<T>, LoadError>)
    ensures
        r == input_step(*mesh, *input, index, acc),
{
    match semantic_of(input.semantic.as_str()) {
        Semantic::Vertex => match read_vertex_position(mesh, input.source.as_str(), index) {
            Ok(t) => Ok(CornerData { position: Some(t), normal: acc.normal }),
            Err(e) => Err(e),
        },
        Semantic::Normal => match read_triple(mesh, input.source.as_str(), index) {
            Ok(t) => Ok(CornerData { position: acc.position, normal: Some(t) }),
            Err(e) => Err(e),
        },
        Semantic::Other => Ok(acc),
    }
}

/// Builds the vertex record of the corner whose indices are `p[start..start + stride]`.
pub fn decode_corner<T: Copy>(
    mesh: &Mesh<T>,
    inputs: &Vec<SharedInput>,
    p: &Vec<usize>,
    start: usize,
    stride: usize,
) -> (r: Result<Vertex<T>, LoadError>)
    requires
        start + stride <= p@.len(),
    ensures
        r == corner_vertex(*mesh, inputs@, p@.subrange(start as int, start + stride)),
{
    let ghost chunk = p@.subrange(start as int, start + stride);
    let mut acc = CornerData { position: None, normal: None };
    let plen = p.len();
    let mut a: usize = 0;
    while a < stride
        invariant
            plen == p@.len(),
            a <= stride,
            start + stride <= p@.len(),
            chunk == p@.subrange(start as int, start + stride),
            corner_attrs(*mesh, inputs@, chunk, a as int) == Ok::<CornerData<T>, LoadError>(acc),
        decreases stride - a,
    {
        let index = p[start + a];
        assert(chunk[a as int] == index);
        let ghost before = acc;
        let n = inputs.len();
        let mut j: usize = 0;
        while j < n
            invariant
                n == inputs@.len(),
                j <= n,
                a < stride,
                start + stride <= p@.len(),
                chunk == p@.subrange(start as int, start + stride),
                chunk[a as int] == index,
                corner_attrs(*mesh, inputs@, chunk, a as int) == Ok::<CornerData<T>, LoadError>(before),
                offset_step(*mesh, inputs@, a, index, before, j as int) == Ok::<CornerData<T>, LoadError>(acc),
            decreases n - j,
        {
            let input = &inputs[j];
            if input.offset == a {
                match apply_input(mesh, input, index, acc) {
                    Ok(c) => {
                        acc = c;
                    },
                    Err(e) => {
                        proof {
                            lemma_offset_step_err(*mesh, inputs@, a, index, before, j + 1, n as int);
                            lemma_corner_attrs_err(*mesh, inputs@, chunk, a + 1, stride as int);
                        }
                        return Err(e);
                    },
                }
            }
            j += 1;
        }
        a += 1;
    }
    match acc.position {
        Some(position) => Ok(Vertex { position, normal: acc.normal }),
        None => Err(LoadError::MissingPosition),
    }
}

/// Decodes every corner of every polygon of `polylist`, in order, into one
/// vertex record each, and numbers them 0, 1, 2, ... in the index buffer.
/// Polygons are passed on as they are, whatever their number of corners.
pub fn process_polylist<T: Copy>(mesh: &Mesh<T>, polylist: &Polylist) -> (r: Result<MeshData<T>, LoadError>)
    ensures
        match r {
            Ok(m) => decode_spec(*mesh, *polylist) == Ok::<MeshView<T>, LoadError>(m@),
            Err(e) => decode_spec(*mesh, *polylist) == Err::<MeshView<T>, LoadError>(e),
        },
{
    let stride = distinct_offset_count(&polylist.inputs);
    let plen = polylist.p.len();
    let ghost all = total(polylist.vcount@);
    let mut vertices: Vec<Vertex<T>> = Vec::new();
    let mut indices: Vec<u32> = Vec::new();
    let mut pos: usize = 0;
    let mut i: usize = 0;
    while i < polylist.vcount.len()
        invariant
            stride == distinct_offsets(polylist.inputs@),
            plen == polylist.p@.len(),
            all == total(polylist.vcount@),
            i <= polylist.vcount@.len(),
            vertices@.len() == total(polylist.vcount@.subrange(0, i as int)),
            vertices@.len() <= u32::MAX + 1,
            pos == vertices@.len() * stride,
            pos <= plen,
            indices@ == identity_indices(vertices@.len()),
            decode_corners(*mesh, *polylist, vertices@.len()) == Ok::<Seq<Vertex<T>>, LoadError>(vertices@),
        decreases polylist.vcount@.len() - i,
    {
        let corners = polylist.vcount[i];
        proof {
            assert(polylist.vcount@.subrange(0, i + 1).drop_last() =~= polylist.vcount@.subrange(0, i as int));
            lemma_total_prefix(polylist.vcount@, i + 1);
        }
        let ghost first = vertices@.len();
        let mut c: usize = 0;
        while c < corners
            invariant
                stride == distinct_offsets(polylist.inputs@),
                plen == polylist.p@.len(),
                all == total(polylist.vcount@),
                i < polylist.vcount@.len(),
                corners == polylist.vcount@[i as int],
                first + corners == total(polylist.vcount@.subrange(0, i + 1)),
                total(polylist.vcount@.subrange(0, i + 1)) <= all,
                c <= corners,
                vertices@.len() == first + c,
                vertices@.len() <= u32::MAX + 1,
                pos == vertices@.len() * stride,
                pos <= plen,
                indices@ == identity_indices(vertices@.len()),
                decode_corners(*mesh, *polylist, vertices@.len()) == Ok::<Seq<Vertex<T>>, LoadError>(vertices@),
            decreases corners - c,
        {
            let k = vertices.len();
            if k > u32::MAX as usize {
                proof {
                    lemma_decode_corners_err(*mesh, *polylist, (k + 1) as nat, all);
                }
                return Err(LoadError::TooManyVertices);
            }
            if stride > plen - pos {
                proof {
                    lemma_decode_corners_err(*mesh, *polylist, (k + 1) as nat, all);
                }
                return Err(LoadError::Malformed(Malformed::IndexStreamTooShort));
            }
            match decode_corner(mesh, &polylist.inputs, &polylist.p, pos, stride) {
                Ok(v) => {
                    vertices.push(v);
                    indices.push(k as u32);
                    proof {
                        assert((k + 1) * stride == k * stride + stride) by (nonlinear_arith);
                        assert(indices@ =~= identity_indices(vertices@.len()));
                    }
                    pos = pos + stride;
                },
                Err(e) => {
                    proof {
                        lemma_decode_corners_err(*mesh, *polylist, (k + 1) as nat, all);
                    }
                    return Err(e);
                },
            }
            c += 1;
        }
        i += 1;
    }
    assert(polylist.vcount@.subrange(0, i as int) =~= polylist.vcount@);
    Ok(MeshData { vertices, indices })
}

proof fn lemma_decode_corners_len<T>(mesh: Mesh<T>, pl: Polylist, n: nat)
    requires
        decode_corners(mesh, pl, n) is Ok,
    ensures
        decode_corners(mesh, pl, n)->Ok_0.len() == n,
        n <= u32::MAX + 1,
    decreases n,
{
    if n > 0 {
        lemma_decode_corners_len(mesh, pl, (n - 1) as nat);
    }
}

/// A successful decode has exactly one vertex record per polygon corner, and
/// its index buffer is 0, 1, ..., N - 1: corners are never merged.
pub proof fn lemma_one_record_per_corner<T>(mesh: Mesh<T>, pl: Polylist)
    requires
        decode_spec(mesh, pl) is Ok,
    ensures
        decode_spec(mesh, pl)->Ok_0.vertices.len() == total(pl.vcount@),
        decode_spec(mesh, pl)->Ok_0.indices.len() == total(pl.vcount@),
        forall|i: int| 0 <= i < total(pl.vcount@) ==> decode_spec(mesh, pl)->Ok_0.indices[i] as int == i,
{
    lemma_decode_corners_len(mesh, pl, total(pl.vcount@));
}

proof fn lemma_distinct_offsets_positive(inputs: Seq<SharedInput>)
    requires
        inputs.len() > 0,
    ensures
        distinct_offsets(inputs) >= 1,
    decreases inputs.len(),
{
    if inputs.len() > 1 {
        lemma_distinct_offsets_positive(inputs.drop_last());
    }
}

proof fn lemma_offset_step_fails<T>(
    mesh: Mesh<T>,
    inputs: Seq<SharedInput>,
    index: usize,
    acc: CornerData<T>,
    e: LoadError,
    n: int,
)
    requires
        0 <= n <= inputs.len(),
        forall|j: int, i: usize, c: CornerData<T>|
            0 <= j < inputs.len() && inputs[j].offset == 0 ==> #[trigger] input_step(mesh, inputs[j], i, c) == Err::<CornerData<T>, LoadError>(e),
    ensures
        (exists|j: int| 0 <= j < n && inputs[j].offset == 0) ==> offset_step(mesh, inputs, 0, index, acc, n) == Err::<CornerData<T>, LoadError>(e),
        (forall|j: int| 0 <= j < n ==> inputs[j].offset != 0) ==> offset_step(mesh, inputs, 0, index, acc, n) == Ok::<CornerData<T>, LoadError>(acc),
    decreases n,
{
    if n > 0 {
        lemma_offset_step_fails(mesh, inputs, index, acc, e, n - 1);
        if inputs[n - 1].offset != 0 {
            if exists|j: int| 0 <= j < n && inputs[j].offset == 0 {
                let j = choose|j: int| 0 <= j < n && inputs[j].offset == 0;
                assert(0 <= j < n - 1 && inputs[j].offset == 0);
            }
        }
    }
}

/// When every input bound to offset 0 fails with `e` and such an input exists,
/// the first slot of the first corner fails, and with it the whole decode.
proof fn lemma_first_slot_fails<T>(mesh: Mesh<T>, pl: Polylist, e: LoadError)
    requires
        total(pl.vcount@) >= 1,
        distinct_offsets(pl.inputs@) <= pl.p@.len(),
        exists|j: int| 0 <= j < pl.inputs@.len() && pl.inputs@[j].offset == 0,
        forall|j: int, i: usize, c: CornerData<T>|
            0 <= j < pl.inputs@.len() && pl.inputs@[j].offset == 0 ==> #[trigger] input_step(mesh, pl.inputs@[j], i, c) == Err::<CornerData<T>, LoadError>(e),
    ensures
        decode_spec(mesh, pl) == Err::<MeshView<T>, LoadError>(e),
{
    let inputs = pl.inputs@;
    let s = distinct_offsets(inputs);
    lemma_distinct_offsets_positive(inputs);
    let chunk = pl.p@.subrange(0, s as int);
    let empty = CornerData { position: None, normal: None };
    lemma_offset_step_fails(mesh, inputs, chunk[0], empty, e, inputs.len() as int);
    assert(corner_attrs(mesh, inputs, chunk, 0) == Ok::<CornerData<T>, LoadError>(empty));
    assert(decode_corners(mesh, pl, 0) == Ok::<Seq<Vertex<T>>, LoadError>(Seq::empty()));
    assert(corner_attrs(mesh, inputs, chunk, 1) == Err::<CornerData<T>, LoadError>(e));
    lemma_corner_attrs_err(mesh, inputs, chunk, 1, s as int);
    assert(decode_corners(mesh, pl, 1) == Err::<Seq<Vertex<T>>, LoadError>(e));
    lemma_decode_corners_err(mesh, pl, 1, total(pl.vcount@));
}

/// A `VERTEX` input that names a `<vertices>` block other than the mesh's own
/// makes the decode fail with [`Malformed::ForeignVertices`], as soon as it is
/// reached: here it is bound to the first slot of the first corner.
pub proof fn lemma_foreign_vertices_rejected<T>(mesh: Mesh<T>, pl: Polylist)
    requires
        total(pl.vcount@) >= 1,
        distinct_offsets(pl.inputs@) <= pl.p@.len(),
        exists|j: int| 0 <= j < pl.inputs@.len() && pl.inputs@[j].offset == 0,
        forall|j: int|
            0 <= j < pl.inputs@.len() && pl.inputs@[j].offset == 0 ==> pl.inputs@[j].semantic@ == "VERTEX"@
                && pl.inputs@[j].source@ != mesh.vertices.id@,
    ensures
        decode_spec(mesh, pl) == Err::<MeshView<T>, LoadError>(LoadError::Malformed(Malformed::ForeignVertices)),
{
    lemma_first_slot_fails(mesh, pl, LoadError::Malformed(Malformed::ForeignVertices));
}

/// A `<vertices>` block without a `POSITION` input makes the decode fail with
/// [`Malformed::NoPositionInput`] once a `VERTEX` input is reached: here the
/// first slot of the first corner.
pub proof fn lemma_missing_position_input_rejected<T>(mesh: Mesh<T>, pl: Polylist)
    requires
        total(pl.vcount@) >= 1,
        distinct_offsets(pl.inputs@) <= pl.p@.len(),
        exists|j: int| 0 <= j < pl.inputs@.len() && pl.inputs@[j].offset == 0,
        forall|j: int|
            0 <= j < pl.inputs@.len() && pl.inputs@[j].offset == 0 ==> pl.inputs@[j].semantic@ == "VERTEX"@
                && pl.inputs@[j].source@ == mesh.vertices.id@,
        forall|j: int|
            0 <= j < mesh.vertices.inputs@.len() ==> mesh.vertices.inputs@[j].semantic@ != "POSITION"@,
    ensures
        decode_spec(mesh, pl) == Err::<MeshView<T>, LoadError>(LoadError::Malformed(Malformed::NoPositionInput)),
{
    assert forall|j: int| 0 <= j < mesh.vertices.inputs@.len() implies (#[trigger] (position_source())(mesh.vertices.inputs@[j])) is None by {}
    lemma_first_some_none(mesh.vertices.inputs@, position_source(), mesh.vertices.inputs@.len() as int);
    lemma_first_slot_fails(mesh, pl, LoadError::Malformed(Malformed::NoPositionInput));
}

proof fn lemma_offset_step_found<T>(
    mesh: Mesh<T>,
    inputs: Seq<SharedInput>,
    o: usize,
    index: usize,
    acc: CornerData<T>,
    n: int,
)
    ensures
        offset_step(mesh, inputs, o, index, acc, n) != Err::<CornerData<T>, LoadError>(LoadError::NotFound),
    decreases n,
{
    if n > 0 {
        lemma_offset_step_found(mesh, inputs, o, index, acc, n - 1);
    }
}

proof fn lemma_corner_attrs_found<T>(mesh: Mesh<T>, inputs: Seq<SharedInput>, chunk: Seq<usize>, m: int)
    ensures
        corner_attrs(mesh, inputs, chunk, m) != Err::<CornerData<T>, LoadError>(LoadError::NotFound),
    decreases m,
{
    if m > 0 {
        lemma_corner_attrs_found(mesh, inputs, chunk, m - 1);
        if let Ok(c) = corner_attrs(mesh, inputs, chunk, m - 1) {
            lemma_offset_step_found(mesh, inputs, (m - 1) as usize, chunk[m - 1], c, inputs.len() as int);
        }
    }
}

proof fn lemma_decode_corners_found<T>(mesh: Mesh<T>, pl: Polylist, n: nat)
    ensures
        decode_corners(mesh, pl, n) != Err::<Seq<Vertex<T>>, LoadError>(LoadError::NotFound),
    decreases n,
{
    if n > 0 {
        lemma_decode_corners_found(mesh, pl, (n - 1) as nat);
        let k = n - 1;
        let s = distinct_offsets(pl.inputs@);
        let chunk = pl.p@.subrange(k * s, k * s + s);
        lemma_corner_attrs_found(mesh, pl.inputs@, chunk, chunk.len() as int);
    }
}

/// Decoding never fails with [`LoadError::NotFound`]: that error belongs to
/// locating the polylist alone.
pub proof fn lemma_decode_never_not_found<T>(mesh: Mesh<T>, pl: Polylist)
    ensures
        decode_spec(mesh, pl) != Err::<MeshView<T>, LoadError>(LoadError::NotFound),
{
    lemma_decode_corners_found(mesh, pl, total(pl.vcount@));
}

} // verus!
