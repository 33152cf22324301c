//! Shader options, the shader container format, and hot-reload event filtering.
use std::collections::HashSet;
use vstd::prelude::*;

verus! {

broadcast use vstd::std_specs::hash::group_hash_axioms;

#[derive(Clone, Copy, Debug, PartialEq, Eq, Structural)]
pub enum DepthMode {
    TestAndWrite,
    Test,
    Write,
    Disabled,
}

impl DepthMode {
    /// Whether fragments are tested against the depth buffer.
    pub fn test(&self) -> (r: bool)
        ensures
            r == (*self == DepthMode::TestAndWrite || *self == DepthMode::Test),
    {
        match self {
            DepthMode::TestAndWrite | DepthMode::Test => true,
            DepthMode::Write | DepthMode::Disabled => false,
        }
    }

    /// Whether fragments write the depth buffer.
    pub fn write(&self) -> (r: bool)
        ensures
            r == (*self == DepthMode::TestAndWrite || *self == DepthMode::Write),
    {
        match self {
            DepthMode::TestAndWrite | DepthMode::Write => true,
            DepthMode::Test | DepthMode::Disabled => false,
        }
    }
}

#[derive(Clone, Copy, Debug, PartialEq, Eq, Structural)]
pub enum PolygonMode {
    FilledTriangles,
    LinedTriangles,
    Lines,
}

#[derive(Clone, Copy, Debug, PartialEq, Eq, Structural)]
pub enum CullMode {
    Back,
    Front,
    Disabled,
}

/// Fixed-function state a shader is built with.
#[derive(Clone, Copy, Debug, PartialEq, Eq, Structural)]
pub struct ShaderOptions {
    pub depth_mode: DepthMode,
    pub polygon_mode: PolygonMode,
    pub cull_mode: CullMode,
}

impl Default for ShaderOptions {
    /// Depth tested and written, filled triangles, back faces culled.
    fn default() -> (r: Self)
        ensures
            r == (ShaderOptions {
                depth_mode: DepthMode::TestAndWrite,
                polygon_mode: PolygonMode::FilledTriangles,
                cull_mode: CullMode::Back,
            }),
    {
        ShaderOptions {
            depth_mode: DepthMode::TestAndWrite,
            polygon_mode: PolygonMode::FilledTriangles,
            cull_mode: CullMode::Back,
        }
    }
}

/// The unsigned integer held little-endian in the `n` bytes of `b` from `at`.
pub open spec fn le_value(b: Seq<u8>, at: int, n: nat) -> nat
    decreases n,
{
    if n == 0 {
        0
    } else {
        b[at] as nat + 256 * le_value(b, at + 1, (n - 1) as nat)
    }
}

/// A shader container is the vertex stage's bytecode, then the fragment
/// stage's, each led by its length in eight little-endian bytes; bytes after
/// them are ignored. `None` when `b` is too short for the lengths it states.
pub open spec fn container_split(b: Seq<u8>) -> Option<(Seq<u8>, Seq<u8>)> {
    if b.len() < 8 {
        None
    } else {
        let vert_len = le_value(b, 0, 8) as int;
        if b.len() < 16 + vert_len {
            None
        } else {
            let frag_len = le_value(b, 8 + vert_len, 8) as int;
            if b.len() < 16 + vert_len + frag_len {
                None
            } else {
                Some((b.subrange(8, 8 + vert_len), b.subrange(16 + vert_len, 16 + vert_len + frag_len)))
            }
        }
    }
}

/// Relies on bincode::deserialize (bincode 1.3, whose default options use
/// fixed-width little-endian lengths and allow trailing bytes) to read a pair
/// of byte vectors: each is its length as a u64, then that many bytes.
#[verifier::external_body]
fn decode_byte_vec_pair(source: &[u8]) -> (r: Option<(Vec<u8>, Vec<u8>)>)
    ensures
        match r {
            Some((vert, frag)) => container_split(source@) == Some((vert@, frag@)),
            None => container_split(source@) is None,
        },
{
    bincode::deserialize::<(Vec<u8>, Vec<u8>)>(source).ok()
}

/// The compiled stages of a shader.
pub struct ShaderCode {
    pub vert: Vec<u8>,
    pub frag: Vec<u8>,
}

#[derive(Clone, Copy, Debug, PartialEq, Eq, Structural)]
pub enum ShaderError {
    /// The container does not hold the two stages it should.
    Malformed,
}

/// Reads a shader container; a malformed one is an error, never a panic.
pub fn parse_shader_source(source: &[u8]) -> (r: Result<ShaderCode, ShaderError>)
    ensures
        match container_split(source@) {
            Some((vert, frag)) => r is Ok && r->Ok_0.vert@ == vert && r->Ok_0.frag@ == frag,
            None => r == Err::<ShaderCode, ShaderError>(ShaderError::Malformed),
        },
{
    match decode_byte_vec_pair(source) {
        Some((vert, frag)) => Ok(ShaderCode { vert, frag }),
        None => Err(ShaderError::Malformed),
    }
}

/// Lets through one change notice per second of watch time: a single save
/// often raises several file events.
pub struct ReloadFilter {
    seen: HashSet<u64>,
}

impl ReloadFilter {
    /// The seconds for which a notice was let through.
    pub closed spec fn seen(&self) -> Set<u64> {
        self.seen@
    }

    pub fn new() -> (r: Self)
        ensures
            r.seen() == Set::<u64>::empty(),
    {
        ReloadFilter { seen: HashSet::new() }
    }

    /// Whether a notice raised at `second` should trigger a reload: only the
    /// first one for that second does.
    pub fn should_reload(&mut self, second: u64) -> (r: bool)
        ensures
            r == !old(self).seen().contains(second),
            final(self).seen() == old(self).seen().insert(second),
    {
        if self.seen.contains(&second) {
            proof {
                assert(self.seen@.insert(second) =~= self.seen@);
            }
            false
        } else {
            self.seen.insert(second);
            true
        }
    }
}

} // verus!
