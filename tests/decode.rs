use polyview::accessor::{components, read_triple, read_vertex_position};
use polyview::document::{
    Accessor, Array, Axis, Document, GeometricElement, Geometry, Library, LoadError, Malformed, Mesh, Param,
    Polylist, Primitive, SharedInput, Source, Triple, UnsharedInput, Vertex, Vertices,
};
use polyview::locate::{find_polylist, load_mesh};
use polyview::lookup::{find_position_source, find_source};
use polyview::polylist::{distinct_offset_count, process_polylist};
use polyview::text::{semantic_of, str_eq, Semantic};

fn params(names: &[&str]) -> Vec<Param> {
    names.iter().map(|n| Param { name: Some(n.to_string()) }).collect()
}

fn float_source(id: &str, data: Vec<f32>, names: &[&str]) -> Source<f32> {
    let count = data.len() / 3;
    Source {
        id: id.to_string(),
        array: Some(Array::Float(data)),
        accessor: Some(Accessor { count, offset: 0, stride: 3, params: params(names) }),
    }
}

fn input(offset: usize, semantic: &str, source: &str) -> SharedInput {
    SharedInput { offset, semantic: semantic.to_string(), source: source.to_string() }
}

fn vertices(id: &str, position_source: &str) -> Vertices {
    Vertices {
        id: id.to_string(),
        inputs: vec![UnsharedInput { semantic: "POSITION".to_string(), source: position_source.to_string() }],
    }
}

fn triangle_polylist() -> Polylist {
    Polylist {
        inputs: vec![input(0, "VERTEX", "verts"), input(1, "NORMAL", "normals")],
        vcount: vec![3],
        p: vec![0, 0, 1, 1, 2, 2],
    }
}

fn triangle_mesh(position_names: &[&str]) -> Mesh<f32> {
    Mesh {
        vertices: vertices("verts", "positions"),
        primitives: vec![Primitive::Polylist(triangle_polylist())],
        sources: vec![
            float_source("positions", vec![0.0, 0.0, 0.0, 1.0, 0.0, 0.0, 0.0, 1.0, 0.0], position_names),
            float_source("normals", vec![0.0, 0.0, 1.0, 0.0, 0.0, 1.0, 0.0, 0.0, 1.0], &["X", "Y", "Z"]),
        ],
    }
}

fn doc_of(mesh: Mesh<f32>) -> Document<f32> {
    Document {
        libraries: vec![Library::Geometries(vec![Geometry {
            id: Some("geom".to_string()),
            element: GeometricElement::Mesh(mesh),
        }])],
    }
}

fn t(x: f32, y: f32, z: f32) -> Triple<f32> {
    Triple { x, y, z }
}

#[test]
fn triangle_with_normals() {
    let mesh = triangle_mesh(&["X", "Y", "Z"]);
    let out = process_polylist(&mesh, &triangle_polylist()).unwrap();
    let n = Some(t(0.0, 0.0, 1.0));
    assert_eq!(
        out.vertices,
        vec![
            Vertex { position: t(0.0, 0.0, 0.0), normal: n },
            Vertex { position: t(1.0, 0.0, 0.0), normal: n },
            Vertex { position: t(0.0, 1.0, 0.0), normal: n },
        ]
    );
    assert_eq!(out.indices, vec![0, 1, 2]);
}

#[test]
fn triangle_through_document() {
    let out = load_mesh(&doc_of(triangle_mesh(&["X", "Y", "Z"]))).unwrap();
    assert_eq!(out.vertices.len(), 3);
    assert_eq!(out.vertices[1].position, t(1.0, 0.0, 0.0));
    assert_eq!(out.indices, vec![0, 1, 2]);
}

#[test]
fn missing_z_param() {
    let mesh = triangle_mesh(&["X", "Y"]);
    let r = process_polylist(&mesh, &triangle_polylist());
    assert_eq!(r.unwrap_err(), LoadError::Malformed(Malformed::MissingComponent(Axis::Z)));
}

#[test]
fn missing_x_param() {
    let mesh = triangle_mesh(&["S", "Y", "Z"]);
    let r = process_polylist(&mesh, &triangle_polylist());
    assert_eq!(r.unwrap_err(), LoadError::Malformed(Malformed::MissingComponent(Axis::X)));
}

#[test]
fn no_geometry_library() {
    let doc: Document<f32> = Document { libraries: vec![Library::Other, Library::Other] };
    assert_eq!(load_mesh(&doc).unwrap_err(), LoadError::NotFound);
    let empty: Document<f32> = Document { libraries: vec![] };
    assert_eq!(load_mesh(&empty).unwrap_err(), LoadError::NotFound);
}

#[test]
fn geometry_without_polylist() {
    let mut mesh = triangle_mesh(&["X", "Y", "Z"]);
    mesh.primitives = vec![Primitive::Other];
    let doc = Document {
        libraries: vec![Library::Geometries(vec![
            Geometry { id: None, element: GeometricElement::Other },
            Geometry { id: None, element: GeometricElement::Mesh(mesh) },
        ])],
    };
    assert!(find_polylist(&doc).is_none());
    assert_eq!(load_mesh(&doc).unwrap_err(), LoadError::NotFound);
}

#[test]
fn first_polylist_is_used() {
    let first = triangle_mesh(&["X", "Y", "Z"]);
    let mut second = triangle_mesh(&["X", "Y", "Z"]);
    second.primitives = vec![Primitive::Polylist(Polylist {
        inputs: vec![input(0, "VERTEX", "verts")],
        vcount: vec![1],
        p: vec![0],
    })];
    let doc = Document {
        libraries: vec![
            Library::Other,
            Library::Geometries(vec![Geometry { id: None, element: GeometricElement::Other }]),
            Library::Geometries(vec![
                Geometry { id: None, element: GeometricElement::Mesh(first) },
                Geometry { id: None, element: GeometricElement::Mesh(second) },
            ]),
        ],
    };
    let (_, pl) = find_polylist(&doc).unwrap();
    assert_eq!(pl.vcount, vec![3]);
    assert_eq!(load_mesh(&doc).unwrap().indices, vec![0, 1, 2]);
}

#[test]
fn one_record_per_corner_without_welding() {
    let mut mesh = triangle_mesh(&["X", "Y", "Z"]);
    let pl = Polylist {
        inputs: vec![input(0, "VERTEX", "verts"), input(1, "NORMAL", "normals")],
        vcount: vec![4, 3],
        p: vec![0, 0, 1, 1, 2, 2, 0, 0, 0, 0, 0, 0, 1, 1],
    };
    mesh.primitives = vec![Primitive::Polylist(pl.clone())];
    let out = process_polylist(&mesh, &pl).unwrap();
    assert_eq!(out.vertices.len(), 7);
    assert_eq!(out.indices, vec![0, 1, 2, 3, 4, 5, 6]);
    assert_eq!(out.vertices[4], out.vertices[5]);
    assert_eq!(out.vertices[3].position, t(0.0, 0.0, 0.0));
}

#[test]
fn empty_polylist_gives_empty_mesh() {
    let mesh = triangle_mesh(&["X", "Y", "Z"]);
    let pl = Polylist { inputs: triangle_polylist().inputs, vcount: vec![], p: vec![] };
    let out = process_polylist(&mesh, &pl).unwrap();
    assert!(out.vertices.is_empty());
    assert!(out.indices.is_empty());
}

#[test]
fn foreign_vertices_block() {
    let mesh = triangle_mesh(&["X", "Y", "Z"]);
    let mut pl = triangle_polylist();
    pl.inputs[0].source = "other-verts".to_string();
    let r = process_polylist(&mesh, &pl);
    assert_eq!(r.unwrap_err(), LoadError::Malformed(Malformed::ForeignVertices));
}

#[test]
fn vertices_without_position() {
    let mut mesh = triangle_mesh(&["X", "Y", "Z"]);
    mesh.vertices.inputs[0].semantic = "NORMAL".to_string();
    let r = process_polylist(&mesh, &triangle_polylist());
    assert_eq!(r.unwrap_err(), LoadError::Malformed(Malformed::NoPositionInput));
}

#[test]
fn unknown_source() {
    let mut mesh = triangle_mesh(&["X", "Y", "Z"]);
    mesh.vertices.inputs[0].source = "nowhere".to_string();
    let r = process_polylist(&mesh, &triangle_polylist());
    assert_eq!(r.unwrap_err(), LoadError::Malformed(Malformed::UnknownSource));
}

#[test]
fn source_without_accessor() {
    let mut mesh = triangle_mesh(&["X", "Y", "Z"]);
    mesh.sources[1].accessor = None;
    let r = process_polylist(&mesh, &triangle_polylist());
    assert_eq!(r.unwrap_err(), LoadError::Malformed(Malformed::NoAccessor));
}

#[test]
fn source_not_float_array() {
    let mut mesh = triangle_mesh(&["X", "Y", "Z"]);
    mesh.sources[0].array = Some(Array::Other);
    let r = process_polylist(&mesh, &triangle_polylist());
    assert_eq!(r.unwrap_err(), LoadError::Malformed(Malformed::NotFloatArray));
    mesh.sources[0].array = None;
    let r = process_polylist(&mesh, &triangle_polylist());
    assert_eq!(r.unwrap_err(), LoadError::Malformed(Malformed::NotFloatArray));
}

#[test]
fn element_out_of_range() {
    let mesh = triangle_mesh(&["X", "Y", "Z"]);
    let mut pl = triangle_polylist();
    pl.p[4] = 3;
    let r = process_polylist(&mesh, &pl);
    assert_eq!(r.unwrap_err(), LoadError::Malformed(Malformed::ElementOutOfRange));
}

#[test]
fn index_stream_too_short() {
    let mesh = triangle_mesh(&["X", "Y", "Z"]);
    let mut pl = triangle_polylist();
    pl.p.truncate(5);
    let r = process_polylist(&mesh, &pl);
    assert_eq!(r.unwrap_err(), LoadError::Malformed(Malformed::IndexStreamTooShort));
}

#[test]
fn corner_without_position() {
    let mesh = triangle_mesh(&["X", "Y", "Z"]);
    let pl = Polylist { inputs: vec![input(0, "NORMAL", "normals")], vcount: vec![3], p: vec![0, 1, 2] };
    assert_eq!(process_polylist(&mesh, &pl).unwrap_err(), LoadError::MissingPosition);
}

#[test]
fn unknown_semantic_is_ignored() {
    let mesh = triangle_mesh(&["X", "Y", "Z"]);
    let pl = Polylist {
        inputs: vec![input(0, "VERTEX", "verts"), input(1, "TEXCOORD", "uvs")],
        vcount: vec![3],
        p: vec![2, 9, 1, 9, 0, 9],
    };
    let out = process_polylist(&mesh, &pl).unwrap();
    assert_eq!(out.vertices[0], Vertex { position: t(0.0, 1.0, 0.0), normal: None });
    assert_eq!(out.vertices[2].position, t(0.0, 0.0, 0.0));
}

#[test]
fn inputs_sharing_an_offset() {
    let mesh = triangle_mesh(&["X", "Y", "Z"]);
    let pl = Polylist {
        inputs: vec![input(0, "VERTEX", "verts"), input(0, "NORMAL", "normals")],
        vcount: vec![3],
        p: vec![1, 2, 0],
    };
    let out = process_polylist(&mesh, &pl).unwrap();
    assert_eq!(out.vertices[0], Vertex { position: t(1.0, 0.0, 0.0), normal: Some(t(0.0, 0.0, 1.0)) });
    assert_eq!(out.vertices[1].position, t(0.0, 1.0, 0.0));
    assert_eq!(out.indices, vec![0, 1, 2]);
}

#[test]
fn decoding_twice_gives_the_same_result() {
    let doc = doc_of(triangle_mesh(&["X", "Y", "Z"]));
    let a = load_mesh(&doc).unwrap();
    let b = load_mesh(&doc).unwrap();
    assert_eq!(a.vertices, b.vertices);
    assert_eq!(a.indices, b.indices);
}

#[test]
fn accessor_stride_three() {
    let acc = Accessor { count: 3, offset: 0, stride: 3, params: params(&["X", "Y", "Z"]) };
    let data: Vec<f32> = vec![1.0, 2.0, 3.0, 4.0, 5.0, 6.0, 7.0, 8.0, 9.0];
    assert_eq!(acc.access(&data, 1), Some(vec![4.0, 5.0, 6.0]));
    assert_eq!(acc.access(&data, 2), Some(vec![7.0, 8.0, 9.0]));
    assert_eq!(acc.access(&data, 3), None);
    let elem = acc.access(&data, 0).unwrap();
    assert_eq!(components(&acc.params, &elem), Ok(t(1.0, 2.0, 3.0)));
}

#[test]
fn accessor_offset_and_bounds() {
    let acc = Accessor { count: 2, offset: 1, stride: 2, params: params(&["Y", "X"]) };
    let data: Vec<f32> = vec![0.0, 1.0, 2.0, 3.0, 4.0];
    assert_eq!(acc.access(&data, 1), Some(vec![3.0, 4.0]));
    let short = Accessor { count: 5, offset: 1, stride: 2, params: vec![] };
    assert_eq!(short.access(&data, 2), None);
    let wide = Accessor { count: 5, offset: 9, stride: 1, params: vec![] };
    assert_eq!(wide.access(&data, 0), None);
}

#[test]
fn params_map_positionally() {
    let ps = params(&["Z", "Y", "X", "W"]);
    let elem: Vec<f32> = vec![1.0, 2.0, 3.0, 4.0];
    assert_eq!(components(&ps, &elem), Ok(t(3.0, 2.0, 1.0)));
    let unnamed = vec![Param { name: None }, Param { name: Some("Y".to_string()) }];
    assert_eq!(
        components(&unnamed, &vec![1.0f32, 2.0]),
        Err(LoadError::Malformed(Malformed::MissingComponent(Axis::X)))
    );
    let fewer_values: Vec<f32> = vec![1.0, 2.0];
    assert_eq!(
        components(&params(&["X", "Y", "Z"]), &fewer_values),
        Err(LoadError::Malformed(Malformed::MissingComponent(Axis::Z)))
    );
}

#[test]
fn lookups_by_id_and_semantic() {
    let mesh = triangle_mesh(&["X", "Y", "Z"]);
    assert_eq!(find_source(&mesh, "normals").unwrap().id, "normals");
    assert!(find_source(&mesh, "norm").is_none());
    assert_eq!(find_position_source(&mesh).unwrap(), "positions");
    assert_eq!(read_triple(&mesh, "positions", 1), Ok(t(1.0, 0.0, 0.0)));
    assert_eq!(read_vertex_position(&mesh, "verts", 2), Ok(t(0.0, 1.0, 0.0)));
    assert_eq!(
        read_vertex_position(&mesh, "positions", 2),
        Err(LoadError::Malformed(Malformed::ForeignVertices))
    );
}

#[test]
fn semantics_and_strings() {
    assert_eq!(semantic_of("VERTEX"), Semantic::Vertex);
    assert_eq!(semantic_of("NORMAL"), Semantic::Normal);
    assert_eq!(semantic_of("POSITION"), Semantic::Other);
    assert_eq!(semantic_of("vertex"), Semantic::Other);
    assert!(str_eq("abc", "abc"));
    assert!(!str_eq("abc", "abd"));
    assert!(!str_eq("abc", "ab"));
}

#[test]
fn offsets_are_counted_once() {
    let inputs = vec![input(0, "VERTEX", "v"), input(1, "NORMAL", "n"), input(0, "COLOR", "c"), input(3, "UV", "u")];
    assert_eq!(distinct_offset_count(&inputs), 3);
    assert_eq!(distinct_offset_count(&vec![]), 0);
}
