//! The part of a COLLADA document object model that mesh extraction reads,
//! and the records it produces.
use vstd::prelude::*;

verus! {

/// A named parameter of an accessor (`<param name="X"/>`).
#[derive(Debug, Clone)]
pub struct Param {
    pub name: Option<String>,
}

/// Describes how a flat array is sliced into logical elements: element `i`
/// starts at `offset + i * stride` and holds `stride` values.
#[derive(Debug, Clone)]
pub struct Accessor {
    pub count: usize,
    pub offset: usize,
    pub stride: usize,
    pub params: Vec<Param>,
}

/// The data array of a source; only float arrays carry usable values.
#[derive(Debug, Clone)]
pub enum Array<T> {
    Float(Vec<T>),
    Other,
}

/// A `<source>`: an identified data array with its common accessor.
#[derive(Debug, Clone)]
pub struct Source<T> {
    pub id: String,
    pub array: Option<Array<T>>,
    pub accessor: Option<Accessor>,
}

/// An input of a `<vertices>` block (no offset).
#[derive(Debug, Clone)]
pub struct UnsharedInput {
    pub semantic: String,
    pub source: String,
}

/// An input of a primitive, bound to one slot (`offset`) of each corner.
#[derive(Debug, Clone)]
pub struct SharedInput {
    pub offset: usize,
    pub semantic: String,
    pub source: String,
}

/// The `<vertices>` block of a mesh.
#[derive(Debug, Clone)]
pub struct Vertices {
    pub id: String,
    pub inputs: Vec<UnsharedInput>,
}

/// A `<polylist>`: `vcount` gives the corners of each polygon, `p` holds for
/// each corner one index per distinct input offset.
#[derive(Debug, Clone)]
pub struct Polylist {
    pub inputs: Vec<SharedInput>,
    pub vcount: Vec<usize>,
    pub p: Vec<usize>,
}

#[derive(Debug, Clone)]
pub enum Primitive {
    Polylist(Polylist),
    Other,
}

#[derive(Debug, Clone)]
pub struct Mesh<T> {
    pub vertices: Vertices,
    pub primitives: Vec<Primitive>,
    pub sources: Vec<Source<T>>,
}

#[derive(Debug, Clone)]
pub enum GeometricElement<T> {
    Mesh(Mesh<T>),
    Other,
}

#[derive(Debug, Clone)]
pub struct Geometry<T> {
    pub id: Option<String>,
    pub element: GeometricElement<T>,
}

#[derive(Debug, Clone)]
pub enum Library<T> {
    Geometries(Vec<Geometry<T>>),
    Other,
}

/// A parsed document: its libraries in document order.
#[derive(Debug, Clone)]
pub struct Document<T> {
    pub libraries: Vec<Library<T>>,
}

/// Three components taken from a source element by their `X`, `Y`, `Z` names.
#[derive(Debug, Clone, Copy, PartialEq)]
pub struct Triple<T> {
    pub x: T,
    pub y: T,
    pub z: T,
}

/// One record per polygon corner.
#[derive(Debug, Clone, Copy, PartialEq)]
pub struct Vertex<T> {
    pub position: Triple<T>,
    pub normal: Option<Triple<T>>,
}

/// The decoded vertex records and their index buffer.
#[derive(Debug, Clone)]
pub struct MeshData<T> {
    pub vertices: Vec<Vertex<T>>,
    pub indices: Vec<u32>,
}

/// Abstract value of [`MeshData`].
pub ghost struct MeshView<T> {
    pub vertices: Seq<Vertex<T>>,
    pub indices: Seq<u32>,
}

impl<T> View for MeshData<T> {
    type V = MeshView<T>;

    open spec fn view(&self) -> MeshView<T> {
        MeshView { vertices: self.vertices@, indices: self.indices@ }
    }
}

/// A component name an accessor must provide.
#[derive(Debug, Clone, Copy, PartialEq, Eq, Structural)]
pub enum Axis {
    X,
    Y,
    Z,
}

/// Ways in which a document is inconsistent or uses an unsupported form.
#[derive(Debug, Clone, Copy, PartialEq, Eq, Structural)]
pub enum Malformed {
    /// A `VERTEX` input names a `<vertices>` block other than its mesh's own.
    ForeignVertices,
    /// The mesh's `<vertices>` block has no `POSITION` input.
    NoPositionInput,
    /// No source of the mesh has the referenced id.
    UnknownSource,
    /// The source has no common accessor.
    NoAccessor,
    /// The source's array is missing or is not a float array.
    NotFloatArray,
    /// The accessed element lies beyond the accessor's count or the array.
    ElementOutOfRange,
    /// The accessor names no parameter for this component.
    MissingComponent(Axis),
    /// The index stream ends before the corners that `vcount` announces.
    IndexStreamTooShort,
}

/// Why a document yields no mesh.
#[derive(Debug, Clone, Copy, PartialEq, Eq, Structural)]
pub enum LoadError {
    /// The document holds no polylist inside a geometry library's mesh.
    NotFound,
    /// A corner received no position from its inputs.
    MissingPosition,
    /// A corner's index does not fit in 32 bits.
    TooManyVertices,
    /// The mesh builder rejected the decoded vertices and indices.
    BuildFailed,
    /// The document is inconsistent.
    Malformed(Malformed),
}

} // verus!
