//! Meshes.

use super::face::{Face, FaceIter};
use super::iter::Iter;
use crate::math::vector3::{Vector3D, Vector3DIter};
use crate::math::Color4D;
use vstd::prelude::*;

verus! {

/// Number of vertex colour channels that a mesh has room for.
pub const AI_MAX_NUMBER_OF_COLOR_SETS: usize = 8;

/// Number of texture coordinate channels that a mesh has room for.
pub const AI_MAX_NUMBER_OF_TEXTURECOORDS: usize = 8;

/// A mesh: vertices with their attributes, and the faces made of them.
///
/// Every attribute is stored per vertex: an attribute that the mesh has ranks
/// its values as the vertices are ranked, one value for each; an attribute
/// that the mesh lacks has no values at all.
pub struct Mesh {
    primitive_types: u32,
    vertices: Vec<Vector3D>,
    normals: Vec<Vector3D>,
    tangents: Vec<Vector3D>,
    bitangents: Vec<Vector3D>,
    colors: Vec<Vec<Color4D>>,
    texture_coords: Vec<Vec<Vector3D>>,
    faces: Vec<Face>,
}

/// A cursor over the meshes of a scene.
pub type MeshIter<'a> = Iter<'a, Mesh>;

/// What a mesh holds.
pub struct MeshView {
    /// Union of the bits of the primitive types that occur in the mesh.
    pub primitive_types: u32,
    /// Positions of the vertices.
    pub vertices: Seq<Vector3D>,
    pub normals: Seq<Vector3D>,
    pub tangents: Seq<Vector3D>,
    pub bitangents: Seq<Vector3D>,
    /// Vertex colours, one sequence for each channel.
    pub colors: Seq<Seq<Color4D>>,
    /// Texture coordinates, one sequence for each channel.
    pub texture_coords: Seq<Seq<Vector3D>>,
    /// The faces, each as the indices of its vertices.
    pub faces: Seq<Seq<u32>>,
}

/// Whether `attribute` is either absent or has one value for each of `n`
/// vertices.
pub open spec fn per_vertex<T>(attribute: Seq<T>, n: nat) -> bool {
    attribute.len() == 0 || attribute.len() == n
}

impl MeshView {
    /// Whether the parts fit together as a mesh: counts fit in 32 bits,
    /// there are eight colour channels and eight texture coordinate
    /// channels, and every attribute is stored per vertex.
    pub open spec fn wf(self) -> bool {
        &&& self.vertices.len() <= u32::MAX
        &&& self.faces.len() <= u32::MAX
        &&& per_vertex(self.normals, self.vertices.len())
        &&& per_vertex(self.tangents, self.vertices.len())
        &&& per_vertex(self.bitangents, self.vertices.len())
        &&& self.colors.len() == AI_MAX_NUMBER_OF_COLOR_SETS
        &&& forall|c: int|
            0 <= c < self.colors.len() ==> per_vertex(
                #[trigger] self.colors[c],
                self.vertices.len(),
            )
        &&& self.texture_coords.len() == AI_MAX_NUMBER_OF_TEXTURECOORDS
        &&& forall|c: int|
            0 <= c < self.texture_coords.len() ==> per_vertex(
                #[trigger] self.texture_coords[c],
                self.vertices.len(),
            )
    }
}

/// The value of `attribute` for vertex `id`, if there is one.
pub open spec fn value_at<T>(attribute: Seq<T>, id: u32) -> Option<T> {
    if id < attribute.len() {
        Some(attribute[id as int])
    } else {
        None
    }
}

/// Whether every attribute in `channels` is per vertex for `n` vertices.
fn all_per_vertex<T>(channels: &Vec<Vec<T>>, n: usize) -> (ok: bool)
    ensures
        ok == (forall|c: int|
            0 <= c < channels@.len() ==> per_vertex((#[trigger] channels@[c])@, n as nat)),
{
    let mut c: usize = 0;
    while c < channels.len()
        invariant
            c <= channels@.len(),
            forall|k: int| 0 <= k < c ==> per_vertex((#[trigger] channels@[k])@, n as nat),
        decreases channels@.len() - c,
    {
        let len = channels[c].len();
        if len != 0 && len != n {
            return false;
        }
        c += 1;
    }
    true
}

impl View for Mesh {
    type V = MeshView;

    closed spec fn view(&self) -> MeshView {
        MeshView {
            primitive_types: self.primitive_types,
            vertices: self.vertices@,
            normals: self.normals@,
            tangents: self.tangents@,
            bitangents: self.bitangents@,
            colors: self.colors@.map_values(|c: Vec<Color4D>| c@),
            texture_coords: self.texture_coords@.map_values(|c: Vec<Vector3D>| c@),
            faces: self.faces@.map_values(|f: Face| f@),
        }
    }
}

impl Mesh {
    #[verifier::type_invariant]
    pub closed spec fn wf(&self) -> bool {
        self@.wf()
    }

    /// The faces of the mesh.
    pub closed spec fn face_seq(&self) -> Seq<Face> {
        self.faces@
    }

    /// `face_seq` holds the faces that the view lists.
    pub proof fn lemma_face_seq(&self)
        ensures
            self.face_seq().map_values(|f: Face| f@) == self@.faces,
    {
    }

    /// Puts a mesh together from its parts, or returns `None` when the parts
    /// do not fit together.
    pub fn new(
        primitive_types: u32,
        vertices: Vec<Vector3D>,
        normals: Vec<Vector3D>,
        tangents: Vec<Vector3D>,
        bitangents: Vec<Vector3D>,
        colors: Vec<Vec<Color4D>>,
        texture_coords: Vec<Vec<Vector3D>>,
        faces: Vec<Face>,
    ) -> (r: Option<Mesh>)
        ensures
            r is Some <==> (MeshView {
                primitive_types,
                vertices: vertices@,
                normals: normals@,
                tangents: tangents@,
                bitangents: bitangents@,
                colors: colors@.map_values(|c: Vec<Color4D>| c@),
                texture_coords: texture_coords@.map_values(|c: Vec<Vector3D>| c@),
                faces: faces@.map_values(|f: Face| f@),
            }).wf(),
            r is Some ==> r->0@ == (MeshView {
                primitive_types,
                vertices: vertices@,
                normals: normals@,
                tangents: tangents@,
                bitangents: bitangents@,
                colors: colors@.map_values(|c: Vec<Color4D>| c@),
                texture_coords: texture_coords@.map_values(|c: Vec<Vector3D>| c@),
                faces: faces@.map_values(|f: Face| f@),
            }),
    {
        let n = vertices.len();
        let colors_ok = all_per_vertex(&colors, n);
        let channels_ok = all_per_vertex(&texture_coords, n);
        proof {
            let sets = colors@.map_values(|c: Vec<Color4D>| c@);
            if !colors_ok {
                let c = choose|c: int|
                    0 <= c < colors@.len() && !per_vertex((#[trigger] colors@[c])@, n as nat);
                assert(!per_vertex(sets[c], n as nat));
            }
            let channels = texture_coords@.map_values(|c: Vec<Vector3D>| c@);
            assert(forall|c: int|
                0 <= c < channels.len() ==> #[trigger] channels[c] == texture_coords@[c]@);
            if !channels_ok {
                let c = choose|c: int|
                    0 <= c < texture_coords@.len() && !per_vertex(
                        (#[trigger] texture_coords@[c])@,
                        n as nat,
                    );
                assert(!per_vertex(channels[c], n as nat));
            }
        }
        let ok = n <= u32::MAX as usize && faces.len() <= u32::MAX as usize && (normals.len() == 0
            || normals.len() == n) && (tangents.len() == 0 || tangents.len() == n) && (
        bitangents.len() == 0 || bitangents.len() == n) && colors.len()
            == AI_MAX_NUMBER_OF_COLOR_SETS && colors_ok && texture_coords.len()
            == AI_MAX_NUMBER_OF_TEXTURECOORDS && channels_ok;
        if ok {
            Some(
                Mesh {
                    primitive_types,
                    vertices,
                    normals,
                    tangents,
                    bitangents,
                    colors,
                    texture_coords,
                    faces,
                },
            )
        } else {
            None
        }
    }

    /// Union of the bits of the primitive types that occur in the mesh.
    pub fn primitive_types(&self) -> (r: u32)
        ensures
            r == self@.primitive_types,
    {
        self.primitive_types
    }

    /// Number of vertices.
    pub fn num_vertices(&self) -> (n: u32)
        ensures
            n == self@.vertices.len(),
    {
        proof {
            use_type_invariant(self);
        }
        self.vertices.len() as u32
    }

    /// A cursor over the positions of the vertices.
    pub fn vertex_iter(&self) -> (it: Vector3DIter)
        ensures
            it.remaining() == self@.vertices,
            it.remaining().len() == self@.vertices.len(),
    {
        Vector3DIter::new(self.vertices.as_slice())
    }

    /// The position of vertex `id`, or `None` when the mesh has no such
    /// vertex.
    pub fn get_vertex(&self, id: u32) -> (r: Option<Vector3D>)
        ensures
            r == value_at(self@.vertices, id),
    {
        self.vertex_data(&self.vertices, id)
    }

    /// A cursor over the normals: one for each vertex, or none at all.
    pub fn normal_iter(&self) -> (it: Vector3DIter)
        ensures
            it.remaining() == self@.normals,
            per_vertex(it.remaining(), self@.vertices.len()),
    {
        proof {
            use_type_invariant(self);
        }
        Vector3DIter::new(self.normals.as_slice())
    }

    /// The normal of vertex `id`, or `None` when the mesh has no such vertex
    /// or no normals.
    pub fn get_normal(&self, id: u32) -> (r: Option<Vector3D>)
        ensures
            r == value_at(self@.normals, id),
    {
        self.vertex_data(&self.normals, id)
    }

    /// A cursor over the tangents: one for each vertex, or none at all.
    pub fn tangent_iter(&self) -> (it: Vector3DIter)
        ensures
            it.remaining() == self@.tangents,
            per_vertex(it.remaining(), self@.vertices.len()),
    {
        proof {
            use_type_invariant(self);
        }
        Vector3DIter::new(self.tangents.as_slice())
    }

    /// The tangent of vertex `id`, or `None` when the mesh has no such
    /// vertex or no tangents.
    pub fn get_tangent(&self, id: u32) -> (r: Option<Vector3D>)
        ensures
            r == value_at(self@.tangents, id),
    {
        self.vertex_data(&self.tangents, id)
    }

    /// A cursor over the bitangents: one for each vertex, or none at all.
    pub fn bitangent_iter(&self) -> (it: Vector3DIter)
        ensures
            it.remaining() == self@.bitangents,
            per_vertex(it.remaining(), self@.vertices.len()),
    {
        proof {
            use_type_invariant(self);
        }
        Vector3DIter::new(self.bitangents.as_slice())
    }

    /// The bitangent of vertex `id`, or `None` when the mesh has no such
    /// vertex or no bitangents.
    pub fn get_bitangent(&self, id: u32) -> (r: Option<Vector3D>)
        ensures
            r == value_at(self@.bitangents, id),
    {
        self.vertex_data(&self.bitangents, id)
    }

    /// The colours of one channel: one for each vertex, or none at all.
    pub fn colors(&self, channel_id: usize) -> (r: &[Color4D])
        requires
            channel_id < AI_MAX_NUMBER_OF_COLOR_SETS,
        ensures
            r@ == self@.colors[channel_id as int],
            per_vertex(r@, self@.vertices.len()),
    {
        proof {
            use_type_invariant(self);
        }
        self.colors[channel_id].as_slice()
    }

    /// The colour of vertex `id` in one channel, or `None` when the mesh has
    /// no such vertex or the channel is not in use.
    pub fn get_color(&self, channel_id: usize, id: u32) -> (r: Option<Color4D>)
        requires
            channel_id < AI_MAX_NUMBER_OF_COLOR_SETS,
        ensures
            r == value_at(self@.colors[channel_id as int], id),
    {
        proof {
            use_type_invariant(self);
        }
        let channel = &self.colors[channel_id];
        if (id as usize) < channel.len() {
            Some(channel[id as usize])
        } else {
            None
        }
    }

    /// A cursor over the texture coordinates of one channel: one for each
    /// vertex, or none at all.
    pub fn texture_coords_iter(&self, channel_id: usize) -> (it: Vector3DIter)
        requires
            channel_id < AI_MAX_NUMBER_OF_TEXTURECOORDS,
        ensures
            it.remaining() == self@.texture_coords[channel_id as int],
            per_vertex(it.remaining(), self@.vertices.len()),
    {
        proof {
            use_type_invariant(self);
            assert(self@.texture_coords[channel_id as int]
                == self.texture_coords@[channel_id as int]@);
        }
        Vector3DIter::new(self.texture_coords[channel_id].as_slice())
    }

    /// The texture coordinate of vertex `id` in one channel, or `None` when
    /// the mesh has no such vertex or the channel is not in use.
    pub fn get_texture_coord(&self, channel_id: usize, id: u32) -> (r: Option<Vector3D>)
        requires
            channel_id < AI_MAX_NUMBER_OF_TEXTURECOORDS,
        ensures
            r == value_at(self@.texture_coords[channel_id as int], id),
    {
        proof {
            use_type_invariant(self);
        }
        self.vertex_data(&self.texture_coords[channel_id], id)
    }

    /// Number of faces.
    pub fn num_faces(&self) -> (n: u32)
        ensures
            n == self@.faces.len(),
    {
        proof {
            use_type_invariant(self);
        }
        self.faces.len() as u32
    }

    /// A cursor over the faces.
    pub fn face_iter(&self) -> (it: FaceIter)
        ensures
            it.remaining() == self.face_seq(),
            it.remaining().len() == self@.faces.len(),
    {
        Iter::new(self.faces.as_slice())
    }

    /// Face `id`, or `None` when the mesh has no such face.
    pub fn get_face(&self, id: u32) -> (r: Option<&Face>)
        ensures
            r is Some <==> id < self@.faces.len(),
            r is Some ==> *r->0 == self.face_seq()[id as int] && r->0@ == self@.faces[id as int],
    {
        if (id as usize) < self.faces.len() {
            Some(&self.faces[id as usize])
        } else {
            None
        }
    }

    /// The value of a per-vertex attribute for vertex `id`, or `None` when
    /// the attribute has no value for it.
    fn vertex_data(&self, array: &Vec<Vector3D>, id: u32) -> (r: Option<Vector3D>)
        ensures
            r == value_at(array@, id),
    {
        if (id as usize) < array.len() {
            Some(array[id as usize])
        } else {
            None
        }
    }
}

} // verus!
