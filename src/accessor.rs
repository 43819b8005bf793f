//! Reading one logical element of a source through its accessor and picking
//! its `X`, `Y`, `Z` components.
use vstd::prelude::*;
use crate::document::{Accessor, Array, Axis, LoadError, Malformed, Mesh, Param, Triple};
use crate::lookup::{find_position_source, find_source, position_source_spec, source_spec};
use crate::text::str_eq;

verus! {

impl Accessor {
    /// Element `index` lies within the accessor's count and within an array
    /// of `len` values.
    pub open spec fn in_range(&self, len: nat, index: usize) -> bool {
        index < self.count && self.offset + self.stride * index + self.stride <= len
    }

    pub open spec fn element_spec<T>(&self, data: Seq<T>, index: usize) -> Option<Seq<T>> {
        if self.in_range(data.len(), index) {
            let start = self.offset + self.stride * index;
            Some(data.subrange(start, start + self.stride))
        } else {
            None
        }
    }

    /// The `stride` values of element `index`, or `None` where it lies out of range.
    pub fn access<T: Copy>(&self, data: &Vec<T>, index: usize) -> (r: Option<Vec<T>>)
        ensures
            match self.element_spec(data@, index) {
                Some(e) => r is Some && r->0@ == e,
                None => r is None,
            },
    {
        let len = data.len();
        if index >= self.count || self.offset > len {
            return None;
        }
        let room = len - self.offset;
        let skip = match self.stride.checked_mul(index) {
            Some(v) => v,
            None => return None,
        };
        if skip > room || self.stride > room - skip {
            return None;
        }
        let start = self.offset + skip;
        let mut out: Vec<T> = Vec::new();
        let mut t: usize = 0;
        while t < self.stride
            invariant
                start == self.offset + self.stride * index,
                start + self.stride <= len,
                len == data@.len(),
                t <= self.stride,
                out@ == data@.subrange(start as int, start + t),
            decreases self.stride - t,
        {
            out.push(data[start + t]);
            t += 1;
            assert(out@ =~= data@.subrange(start as int, start + t));
        }
        Some(out)
    }
}

pub open spec fn axis_name(a: Axis) -> Seq<char> {
    match a {
        Axis::X => "X"@,
        Axis::Y => "Y"@,
        Axis::Z => "Z"@,
    }
}

/// The value paired with the last parameter named `name` among the first `n`
/// parameter/value pairs.
pub open spec fn named_value<T>(params: Seq<Param>, elem: Seq<T>, name: Seq<char>, n: int) -> Option<T>
    decreases n,
{
    if n <= 0 {
        None
    } else if params[n - 1].name is Some && params[n - 1].name->0@ == name {
        Some(elem[n - 1])
    } else {
        named_value(params, elem, name, n - 1)
    }
}

/// Parameters and values are paired positionally, as far as both go.
pub open spec fn paired<T>(params: Seq<Param>, elem: Seq<T>) -> int {
    if params.len() <= elem.len() { params.len() as int } else { elem.len() as int }
}

pub open spec fn component<T>(params: Seq<Param>, elem: Seq<T>, a: Axis) -> Option<T> {
    named_value(params, elem, axis_name(a), paired(params, elem))
}

/// The triple named by the parameters, or the first missing component.
pub open spec fn triple_spec<T>(params: Seq<Param>, elem: Seq<T>) -> Result<Triple<T>, LoadError> {
    let x = component(params, elem, Axis::X);
    let y = component(params, elem, Axis::Y);
    let z = component(params, elem, Axis::Z);
    if x is None {
        Err(LoadError::Malformed(Malformed::MissingComponent(Axis::X)))
    } else if y is None {
        Err(LoadError::Malformed(Malformed::MissingComponent(Axis::Y)))
    } else if z is None {
        Err(LoadError::Malformed(Malformed::MissingComponent(Axis::Z)))
    } else {
        Ok(Triple { x: x->0, y: y->0, z: z->0 })
    }
}

/// Element `index` of the source with id `id`, read as a triple.
pub open spec fn source_triple<T>(mesh: Mesh<T>, id: Seq<char>, index: usize) -> Result<Triple<T>, LoadError> {
    match source_spec(mesh, id) {
        None => Err(LoadError::Malformed(Malformed::UnknownSource)),
        Some(src) => match src.accessor {
            None => Err(LoadError::Malformed(Malformed::NoAccessor)),
            Some(acc) => match src.array {
                Some(Array::Float(data)) => match acc.element_spec(data@, index) {
                    None => Err(LoadError::Malformed(Malformed::ElementOutOfRange)),
                    Some(e) => triple_spec(acc.params@, e),
                },
                _ => Err(LoadError::Malformed(Malformed::NotFloatArray)),
            },
        },
    }
}

/// Element `index` of the position source that the mesh's `<vertices>` block
/// names, reached through a `VERTEX` input whose source is `id`.
pub open spec fn vertex_position<T>(mesh: Mesh<T>, id: Seq<char>, index: usize) -> Result<Triple<T>, LoadError> {
    if id != mesh.vertices.id@ {
        Err(LoadError::Malformed(Malformed::ForeignVertices))
    } else {
        match position_source_spec(mesh) {
            None => Err(LoadError::Malformed(Malformed::NoPositionInput)),
            Some(src) => source_triple(mesh, src, index),
        }
    }
}

/// Pairs parameters with values and picks the `X`, `Y` and `Z` components.
pub fn components<T: Copy>(params: &Vec<Param>, elem: &Vec<T>) -> (r: Result<Triple<T>, LoadError>)
    ensures
        r == triple_spec(params@, elem@),
{
    let n = if params.len() <= elem.len() { params.len() } else { elem.len() };
    let mut x: Option<T> = None;
    let mut y: Option<T> = None;
    let mut z: Option<T> = None;
    let mut t: usize = 0;
    while t < n
        invariant
            n == paired(params@, elem@),
            t <= n,
            x == named_value(params@, elem@, "X"@, t as int),
            y == named_value(params@, elem@, "Y"@, t as int),
            z == named_value(params@, elem@, "Z"@, t as int),
        decreases n - t,
    {
        proof {
            reveal_strlit("X");
            reveal_strlit("Y");
            reveal_strlit("Z");
            assert("X"@[0] != "Y"@[0] && "X"@[0] != "Z"@[0] && "Y"@[0] != "Z"@[0]);
        }
        if let Some(name) = &params[t].name {
            if str_eq(name.as_str(), "X") {
                x = Some(elem[t]);
            } else if str_eq(name.as_str(), "Y") {
                y = Some(elem[t]);
            } else if str_eq(name.as_str(), "Z") {
                z = Some(elem[t]);
            }
        }
        t += 1;
    }
    match (x, y, z) {
        (Some(x), Some(y), Some(z)) => Ok(Triple { x, y, z }),
        (None, _, _) => Err(LoadError::Malformed(Malformed::MissingComponent(Axis::X))),
        (_, None, _) => Err(LoadError::Malformed(Malformed::MissingComponent(Axis::Y))),
        _ => Err(LoadError::Malformed(Malformed::MissingComponent(Axis::Z))),
    }
}

/// Reads element `index` of the source with id `id` as a triple.
pub fn read_triple<T: Copy>(mesh: &Mesh<T>, id: &str, index: usize) -> (r: Result<Triple<T>, LoadError>)
    ensures
        r == source_triple(*mesh, id@, index),
{
    let src = match find_source(mesh, id) {
        Some(s) => s,
        None => return Err(LoadError::Malformed(Malformed::UnknownSource)),
    };
    let acc = match &src.accessor {
        Some(a) => a,
        None => return Err(LoadError::Malformed(Malformed::NoAccessor)),
    };
    let data = match &src.array {
        Some(Array::Float(d)) => d,
        _ => return Err(LoadError::Malformed(Malformed::NotFloatArray)),
    };
    match acc.access(data, index) {
        Some(e) => components(&acc.params, &e),
        None => Err(LoadError::Malformed(Malformed::ElementOutOfRange)),
    }
}

/// Resolves a `VERTEX` input whose source is `id` to the position of element `index`.
pub fn read_vertex_position<T: Copy>(mesh: &Mesh<T>, id: &str, index: usize) -> (r: Result<Triple<T>, LoadError>)
    ensures
        r == vertex_position(*mesh, id@, index),
{
    if !str_eq(mesh.vertices.id.as_str(), id) {
        return Err(LoadError::Malformed(Malformed::ForeignVertices));
    }
    match find_position_source(mesh) {
        Some(src) => read_triple(mesh, src.as_str(), index),
        None => Err(LoadError::Malformed(Malformed::NoPositionInput)),
    }
}

/// With stride 3, offset 0 and parameters named `X`, `Y`, `Z`, element `i` of
/// a float array is `data[3i], data[3i + 1], data[3i + 2]`, and those values
/// are taken positionally as the x, y and z components.
pub proof fn lemma_xyz_element<T>(acc: Accessor, data: Seq<T>, i: usize)
    requires
        acc.stride == 3,
        acc.offset == 0,
        acc.params@.len() == 3,
        acc.params@[0].name is Some && acc.params@[0].name->0@ == "X"@,
        acc.params@[1].name is Some && acc.params@[1].name->0@ == "Y"@,
        acc.params@[2].name is Some && acc.params@[2].name->0@ == "Z"@,
        i < acc.count,
        3 * i + 3 <= data.len(),
    ensures
        acc.element_spec(data, i) == Some(seq![data[3 * i], data[3 * i + 1], data[3 * i + 2]]),
        triple_spec(acc.params@, seq![data[3 * i], data[3 * i + 1], data[3 * i + 2]])
            == Ok::<Triple<T>, LoadError>(Triple { x: data[3 * i], y: data[3 * i + 1], z: data[3 * i + 2] }),
{
    let e = seq![data[3 * i], data[3 * i + 1], data[3 * i + 2]];
    assert(data.subrange(3 * i, 3 * i + 3) =~= e);
    reveal_strlit("X");
    reveal_strlit("Y");
    reveal_strlit("Z");
    assert("X"@[0] != "Y"@[0] && "X"@[0] != "Z"@[0] && "Y"@[0] != "Z"@[0]);
    assert(named_value(acc.params@, e, "X"@, 1) == Some(e[0]));
    assert(named_value(acc.params@, e, "X"@, 2) == Some(e[0]));
    assert(named_value(acc.params@, e, "X"@, 3) == Some(e[0]));
    assert(named_value(acc.params@, e, "Y"@, 2) == Some(e[1]));
    assert(named_value(acc.params@, e, "Y"@, 3) == Some(e[1]));
    assert(named_value(acc.params@, e, "Z"@, 3) == Some(e[2]));
}

} // verus!
