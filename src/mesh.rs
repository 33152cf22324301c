//! Checks on mesh data, and the shared-midpoint step of sphere refinement.
use std::collections::HashMap;
use vstd::prelude::*;

verus! {

broadcast use vstd::std_specs::hash::group_hash_axioms;

#[derive(Clone, Copy, Debug, PartialEq, Eq, Structural)]
pub enum MeshError {
    NoVertices,
    NoTriangles,
    /// More texture coordinates than vertices.
    TooManyUvs,
    /// More normals than vertices.
    TooManyNormals,
}

/// Checks the sizes of the data a mesh is built from, in this order: there
/// must be vertices and triangle indices, and no more texture coordinates or
/// normals than vertices. Returns the number of triangles, three indices each.
pub fn check_mesh_sizes(vertices: usize, indices: usize, uvs: usize, normals: usize) -> (r: Result<
    usize,
    MeshError,
>)
    ensures
        r == if vertices == 0 {
            Err(MeshError::NoVertices)
        } else if indices == 0 {
            Err(MeshError::NoTriangles)
        } else if uvs > vertices {
            Err(MeshError::TooManyUvs)
        } else if normals > vertices {
            Err(MeshError::TooManyNormals)
        } else {
            Ok((indices / 3) as usize)
        },
{
    if vertices == 0 {
        return Err(MeshError::NoVertices);
    }
    if indices == 0 {
        return Err(MeshError::NoTriangles);
    }
    if uvs > vertices {
        return Err(MeshError::TooManyUvs);
    }
    if normals > vertices {
        return Err(MeshError::TooManyNormals);
    }
    Ok(indices / 3)
}

/// The key under which the midpoint of the edge from `a` to `b` is cached.
pub open spec fn edge_key_spec(a: u32, b: u32) -> u64 {
    (a as int * 0x1_0000_0000 + b as int) as u64
}

/// The key under which the midpoint of the edge from `a` to `b` is cached;
/// distinct edges get distinct keys.
pub fn edge_key(a: u32, b: u32) -> (r: u64)
    ensures
        r == edge_key_spec(a, b),
        r as int == a as int * 0x1_0000_0000 + b as int,
{
    (a as u64) * 0x1_0000_0000 + (b as u64)
}

/// The index of the vertex halfway along the edge from `from` to `to`. An edge
/// whose midpoint is cached under either direction gives the cached index;
/// otherwise `middle`, the new vertex, is appended and cached under `from` to
/// `to`, so that the two triangles sharing an edge share its midpoint.
pub fn get_middle_point<V>(
    vertices: &mut Vec<V>,
    from: u32,
    to: u32,
    midpoints: &mut HashMap<u64, u32>,
    middle: V,
) -> (r: u32)
    requires
        old(vertices)@.len() < u32::MAX,
    ensures
        old(midpoints)@.contains_key(edge_key_spec(from, to)) ==> {
            &&& r == old(midpoints)@[edge_key_spec(from, to)]
            &&& final(vertices)@ == old(vertices)@
            &&& final(midpoints)@ == old(midpoints)@
        },
        !old(midpoints)@.contains_key(edge_key_spec(from, to)) && old(midpoints)@.contains_key(
            edge_key_spec(to, from),
        ) ==> {
            &&& r == old(midpoints)@[edge_key_spec(to, from)]
            &&& final(vertices)@ == old(vertices)@
            &&& final(midpoints)@ == old(midpoints)@
        },
        !old(midpoints)@.contains_key(edge_key_spec(from, to)) && !old(midpoints)@.contains_key(
            edge_key_spec(to, from),
        ) ==> {
            &&& r == old(vertices)@.len()
            &&& final(vertices)@ == old(vertices)@.push(middle)
            &&& final(midpoints)@ == old(midpoints)@.insert(edge_key_spec(from, to), r)
        },
{
    let forward = edge_key(from, to);
    let backward = edge_key(to, from);
    if let Some(i) = midpoints.get(&forward) {
        return *i;
    }
    if let Some(i) = midpoints.get(&backward) {
        return *i;
    }
    let i = vertices.len() as u32;
    vertices.push(middle);
    midpoints.insert(forward, i);
    i
}

} // verus!
