//! Faces: the `f` lines, resolved against the vertex data read so far.

use crate::error::{ParseError, RejectedLine};
use crate::index::{index_of_token, position_of, resolve_index, resolves, slot_index};
use crate::pattern::{
    capture_groups, is_whole_line, match_groups, whole_line, Groups, GroupsModel,
};
use crate::vertex::geometric::GeometricVertex;
use crate::vertex::normal::VertexNormal;
use crate::vertex::texture::TextureVertex;
use crate::vertex::Components;
use crate::views::views;
use vstd::prelude::*;

verus! {

/// The shape of a face line: `f` and three corners. A corner is a vertex
/// index, which up to two further indices may follow, each after a `/`: that
/// of a texture coordinate, which may be left empty, and that of a normal.
pub const PATTERN: &'static str =
    r"f (?P<v0>-*\d+)/?(?P<t0>-*\d+)?/?(?P<n0>-*\d+)? (?P<v1>-*\d+)/?(?P<t1>-*\d+)?/?(?P<n1>-*\d+)? (?P<v2>-*\d+)/?(?P<t2>-*\d+)?/?(?P<n2>-*\d+)?";

/// The number of capture groups of [`PATTERN`], the whole match included.
pub const GROUP_COUNT: usize = 10;

/// The slot of a corner in which the index of a vertex stands.
pub const VERTEX_SLOT: usize = 0;

/// The slot of a corner in which the index of a texture coordinate stands.
pub const TEXTURE_SLOT: usize = 1;

/// The slot of a corner in which the index of a normal stands.
pub const NORMAL_SLOT: usize = 2;

/// What a [`Face`] holds: copies of the data of its three corners.
pub struct FaceModel {
    pub vertices: Seq<Components>,
    pub texture_coordinates: Option<Seq<Components>>,
    pub normals: Option<Seq<Components>>,
}

/// The three indices that stand in one slot of the three corners.
pub open spec fn corner_indices(groups: Seq<Option<Seq<char>>>, slot: int) -> (int, int, int) {
    (slot_index(groups[1 + slot]), slot_index(groups[4 + slot]), slot_index(groups[7 + slot]))
}

/// Three indices as mathematical integers.
pub open spec fn as_ints(indices: (i32, i32, i32)) -> (int, int, int) {
    (indices.0 as int, indices.1 as int, indices.2 as int)
}

/// Whether each of the three indices names an element of a collection of
/// `len` elements.
pub open spec fn all_resolve(indices: (int, int, int), len: nat) -> bool {
    &&& resolves(indices.0, len)
    &&& resolves(indices.1, len)
    &&& resolves(indices.2, len)
}

/// The three elements of `items` that the indices name.
pub open spec fn picked<T>(items: Seq<T>, indices: (int, int, int)) -> Seq<T> {
    seq![
        items[position_of(indices.0, items.len())],
        items[position_of(indices.1, items.len())],
        items[position_of(indices.2, items.len())],
    ]
}

/// Whether a collection was handed in and holds anything: only then does a
/// face take data from it.
pub open spec fn supplied<T>(items: Option<Seq<T>>) -> bool {
    items is Some && items->0.len() > 0
}

/// The data of one kind that a face takes from a collection that may be
/// absent.
pub open spec fn picked_if_supplied<T>(items: Option<Seq<T>>, indices: (int, int, int)) -> Option<
    Seq<T>,
> {
    if supplied(items) {
        Some(picked(items->0, indices))
    } else {
        None
    }
}

/// The face that the groups of a search give for `line` against the data
/// read so far.
///
/// A match that is not the whole of `line` is a
/// [`ParseError::LineShapeMismatch`]: a line with anything before the `f` or
/// after the third corner, such as a fourth corner, is no triangle. So are
/// fewer groups than [`PATTERN`] has.
/// The vertex indices must name elements of `vertices`; those of texture
/// coordinates and of normals must name elements of their collection where
/// one is supplied, and are not looked at where none is. An index that names
/// no element is a [`ParseError::IndexOutOfRange`].
pub open spec fn face_of(
    groups: GroupsModel,
    line: Seq<char>,
    vertices: Seq<Components>,
    tex_coords: Option<Seq<Components>>,
    normals: Option<Seq<Components>>,
) -> Result<FaceModel, ParseError> {
    if !whole_line(groups, line) || groups->0.len() < GROUP_COUNT {
        Err(ParseError::LineShapeMismatch)
    } else {
        let v = corner_indices(groups->0, VERTEX_SLOT as int);
        let t = corner_indices(groups->0, TEXTURE_SLOT as int);
        let n = corner_indices(groups->0, NORMAL_SLOT as int);
        if !all_resolve(v, vertices.len()) {
            Err(ParseError::IndexOutOfRange)
        } else if supplied(tex_coords) && !all_resolve(t, tex_coords->0.len()) {
            Err(ParseError::IndexOutOfRange)
        } else if supplied(normals) && !all_resolve(n, normals->0.len()) {
            Err(ParseError::IndexOutOfRange)
        } else {
            Ok(
                FaceModel {
                    vertices: picked(vertices, v),
                    texture_coordinates: picked_if_supplied(tex_coords, t),
                    normals: picked_if_supplied(normals, n),
                },
            )
        }
    }
}

/// The corners of a face are the elements that its vertex indices name: a
/// positive index `i` names element `i - 1`, and a negative index `-k` the
/// `k`-th element from the end, so that -1 names the last. No face has a
/// corner with index 0.
pub proof fn lemma_face_vertices(
    groups: GroupsModel,
    line: Seq<char>,
    vertices: Seq<Components>,
    tex_coords: Option<Seq<Components>>,
    normals: Option<Seq<Components>>,
    corner: int,
)
    requires
        face_of(groups, line, vertices, tex_coords, normals) is Ok,
        0 <= corner < 3,
    ensures
        ({
            let face = face_of(groups, line, vertices, tex_coords, normals)->Ok_0;
            let index = slot_index(groups->0[1 + 3 * corner]);
            &&& face.vertices.len() == 3
            &&& index != 0
            &&& -vertices.len() <= index <= vertices.len()
            &&& index > 0 ==> face.vertices[corner] == vertices[index - 1]
            &&& index < 0 ==> face.vertices[corner] == vertices[vertices.len() + index]
        }),
{
}

/// A face has texture coordinates exactly when a collection of them that is
/// not empty was handed in, and they are then the elements that its texture
/// indices name. The same holds of its normals.
pub proof fn lemma_face_attributes(
    groups: GroupsModel,
    line: Seq<char>,
    vertices: Seq<Components>,
    tex_coords: Option<Seq<Components>>,
    normals: Option<Seq<Components>>,
    corner: int,
)
    requires
        face_of(groups, line, vertices, tex_coords, normals) is Ok,
        0 <= corner < 3,
    ensures
        ({
            let face = face_of(groups, line, vertices, tex_coords, normals)->Ok_0;
            let t = slot_index(groups->0[2 + 3 * corner]);
            let n = slot_index(groups->0[3 + 3 * corner]);
            &&& face.texture_coordinates is Some <==> supplied(tex_coords)
            &&& face.normals is Some <==> supplied(normals)
            &&& supplied(tex_coords) ==> resolves(t, tex_coords->0.len())
                && face.texture_coordinates->0[corner] == tex_coords->0[position_of(
                t,
                tex_coords->0.len(),
            )]
            &&& supplied(normals) ==> resolves(n, normals->0.len()) && face.normals->0[corner]
                == normals->0[position_of(n, normals->0.len())]
        }),
{
}

/// A line is turned down when the match is not the whole of it, whatever the
/// collections hold: a record that stands inside a longer line, or one with
/// a corner too many, is no face.
pub proof fn lemma_partial_match_is_rejected(
    groups: GroupsModel,
    line: Seq<char>,
    vertices: Seq<Components>,
    tex_coords: Option<Seq<Components>>,
    normals: Option<Seq<Components>>,
)
    requires
        !whole_line(groups, line),
    ensures
        face_of(groups, line, vertices, tex_coords, normals) == Err::<FaceModel, ParseError>(
            ParseError::LineShapeMismatch,
        ),
{
}

/// The model of a collection that is handed in by reference, if at all.
pub open spec fn collection_views<T: View>(items: Option<&Vec<T>>) -> Option<Seq<T::V>> {
    match items {
        Some(present) => Some(views(present@)),
        None => None,
    }
}

/// A triangle: copies of the positions of its three corners, and of their
/// texture coordinates and normals where it has them.
#[derive(Debug, PartialEq, Eq)]
pub struct Face {
    vertices: [GeometricVertex; 3],
    texture_coordinates: Option<[TextureVertex; 3]>,
    normals: Option<[VertexNormal; 3]>,
}

impl View for Face {
    type V = FaceModel;

    closed spec fn view(&self) -> FaceModel {
        FaceModel {
            vertices: views(self.vertices@),
            texture_coordinates: match self.texture_coordinates {
                Some(present) => Some(views(present@)),
                None => None,
            },
            normals: match self.normals {
                Some(present) => Some(views(present@)),
                None => None,
            },
        }
    }
}

impl Default for Face {
    fn default() -> (face: Self)
        ensures
            face@.vertices == seq![GeometricVertex::default_model(); 3],
            face@.texture_coordinates is None,
            face@.normals is None,
    {
        Face {
            vertices: [
                GeometricVertex::default(),
                GeometricVertex::default(),
                GeometricVertex::default(),
            ],
            texture_coordinates: None,
            normals: None,
        }
    }
}

impl Face {
    /// Whether `result` is what parsing `line` against the three collections
    /// must give: the face that [`face_of`] describes, or the line turned
    /// down with its reason.
    pub open spec fn parses_to(
        line: Seq<char>,
        vertices: Seq<Components>,
        tex_coords: Option<Seq<Components>>,
        normals: Option<Seq<Components>>,
        result: Result<Self, RejectedLine>,
    ) -> bool {
        Self::reads_as(capture_groups(PATTERN@, line), line, vertices, tex_coords, normals, result)
    }

    /// Whether `result` is what a search that found `groups` in `line` must
    /// give against the three collections.
    pub open spec fn reads_as(
        groups: GroupsModel,
        line: Seq<char>,
        vertices: Seq<Components>,
        tex_coords: Option<Seq<Components>>,
        normals: Option<Seq<Components>>,
        result: Result<Self, RejectedLine>,
    ) -> bool {
        match result {
            Ok(face) => face_of(groups, line, vertices, tex_coords, normals) == Ok::<
                FaceModel,
                ParseError,
            >(face@),
            Err(rejected) => {
                &&& face_of(groups, line, vertices, tex_coords, normals) == Err::<
                    FaceModel,
                    ParseError,
                >(rejected@.reason)
                &&& rejected@.line == line
            },
        }
    }

    /// The positions of the three corners.
    pub fn vertices(&self) -> (vertices: &[GeometricVertex; 3])
        ensures
            views(vertices@) == self@.vertices,
    {
        &self.vertices
    }

    /// The texture coordinates of the three corners, if the face has them.
    pub fn texture_coordinates(&self) -> (coordinates: Option<&[TextureVertex; 3]>)
        ensures
            coordinates is Some <==> self@.texture_coordinates is Some,
            coordinates is Some ==> views(coordinates->0@) == self@.texture_coordinates->0,
    {
        self.texture_coordinates.as_ref()
    }

    /// The normals of the three corners, if the face has them.
    pub fn normals(&self) -> (normals: Option<&[VertexNormal; 3]>)
        ensures
            normals is Some <==> self@.normals is Some,
            normals is Some ==> views(normals->0@) == self@.normals->0,
    {
        self.normals.as_ref()
    }

    /// Sets the positions of the three corners to copies of the elements of
    /// `vertices` that `indices` name. If one of them names none, the face
    /// stays as it was.
    pub fn set_vertices_by_index(
        &mut self,
        indices: (i32, i32, i32),
        vertices: &Vec<GeometricVertex>,
    ) -> (result: Result<(), ParseError>)
        ensures
            result is Ok <==> all_resolve(as_ints(indices), vertices@.len()),
            result is Ok ==> final(self)@ == (FaceModel {
                vertices: picked(views(vertices@), as_ints(indices)),
                ..old(self)@
            }),
            result is Err ==> result->Err_0 == ParseError::IndexOutOfRange,
            result is Err ==> final(self)@ == old(self)@,
    {
        let len = vertices.len();
        let first = resolve_index(indices.0, len);
        let second = resolve_index(indices.1, len);
        let third = resolve_index(indices.2, len);
        match (first, second, third) {
            (Some(v0), Some(v1), Some(v2)) => {
                let copies = [vertices[v0].clone(), vertices[v1].clone(), vertices[v2].clone()];
                assert(views(copies@) =~= picked(views(vertices@), as_ints(indices)));
                self.vertices = copies;
                Ok(())
            },
            _ => Err(ParseError::IndexOutOfRange),
        }
    }

    /// Sets the texture coordinates of the three corners to copies of the
    /// elements of `tex_coords` that `indices` name. If one of them names
    /// none, the face stays as it was.
    pub fn set_texture_coords_by_index(
        &mut self,
        indices: (i32, i32, i32),
        tex_coords: &Vec<TextureVertex>,
    ) -> (result: Result<(), ParseError>)
        ensures
            result is Ok <==> all_resolve(as_ints(indices), tex_coords@.len()),
            result is Ok ==> final(self)@ == (FaceModel {
                texture_coordinates: Some(picked(views(tex_coords@), as_ints(indices))),
                ..old(self)@
            }),
            result is Err ==> result->Err_0 == ParseError::IndexOutOfRange,
            result is Err ==> final(self)@ == old(self)@,
    {
        let len = tex_coords.len();
        let first = resolve_index(indices.0, len);
        let second = resolve_index(indices.1, len);
        let third = resolve_index(indices.2, len);
        match (first, second, third) {
            (Some(t0), Some(t1), Some(t2)) => {
                let copies =
                    [tex_coords[t0].clone(), tex_coords[t1].clone(), tex_coords[t2].clone()];
                assert(views(copies@) =~= picked(views(tex_coords@), as_ints(indices)));
                self.texture_coordinates = Some(copies);
                Ok(())
            },
            _ => Err(ParseError::IndexOutOfRange),
        }
    }

    /// Sets the normals of the three corners to copies of the elements of
    /// `normals` that `indices` name. If one of them names none, the face
    /// stays as it was.
    pub fn set_normals_by_index(
        &mut self,
        indices: (i32, i32, i32),
        normals: &Vec<VertexNormal>,
    ) -> (result: Result<(), ParseError>)
        ensures
            result is Ok <==> all_resolve(as_ints(indices), normals@.len()),
            result is Ok ==> final(self)@ == (FaceModel {
                normals: Some(picked(views(normals@), as_ints(indices))),
                ..old(self)@
            }),
            result is Err ==> result->Err_0 == ParseError::IndexOutOfRange,
            result is Err ==> final(self)@ == old(self)@,
    {
        let len = normals.len();
        let first = resolve_index(indices.0, len);
        let second = resolve_index(indices.1, len);
        let third = resolve_index(indices.2, len);
        match (first, second, third) {
            (Some(n0), Some(n1), Some(n2)) => {
                let copies = [normals[n0].clone(), normals[n1].clone(), normals[n2].clone()];
                assert(views(copies@) =~= picked(views(normals@), as_ints(indices)));
                self.normals = Some(copies);
                Ok(())
            },
            _ => Err(ParseError::IndexOutOfRange),
        }
    }

    /// Builds the face from what a search of `line` found.
    pub fn from_groups(
        groups: Groups,
        line: &str,
        vertices: &Vec<GeometricVertex>,
        tex_coords: Option<&Vec<TextureVertex>>,
        normals: Option<&Vec<VertexNormal>>,
    ) -> (result: Result<Self, RejectedLine>)
        ensures
            Self::reads_as(
                groups.deep_view(),
                line@,
                views(vertices@),
                collection_views(tex_coords),
                collection_views(normals),
                result,
            ),
            result is Ok <==> face_of(
                groups.deep_view(),
                line@,
                views(vertices@),
                collection_views(tex_coords),
                collection_views(normals),
            ) is Ok,
            !whole_line(groups.deep_view(), line@) ==> result is Err
                && result->Err_0@.reason == ParseError::LineShapeMismatch,
    {
        if !is_whole_line(&groups, line) {
            return Err(RejectedLine::new(ParseError::LineShapeMismatch, line));
        }
        let found = groups.unwrap();
        if found.len() < GROUP_COUNT {
            return Err(RejectedLine::new(ParseError::LineShapeMismatch, line));
        }
        let mut face = Face::default();

        let v = read_corner_indices(&found, VERTEX_SLOT);
        if let Err(reason) = face.set_vertices_by_index(v, vertices) {
            return Err(RejectedLine::new(reason, line));
        }
        if let Some(tex_coords) = tex_coords {
            if tex_coords.len() > 0 {
                let t = read_corner_indices(&found, TEXTURE_SLOT);
                if let Err(reason) = face.set_texture_coords_by_index(t, tex_coords) {
                    return Err(RejectedLine::new(reason, line));
                }
            }
        }
        if let Some(normals) = normals {
            if normals.len() > 0 {
                let n = read_corner_indices(&found, NORMAL_SLOT);
                if let Err(reason) = face.set_normals_by_index(n, normals) {
                    return Err(RejectedLine::new(reason, line));
                }
            }
        }
        Ok(face)
    }

    /// Parses an `f` line against the vertex data read so far.
    ///
    /// The line must have the shape of [`PATTERN`] from its first character
    /// to its last: one with anything before the `f` or after the third
    /// corner is turned down. The positions of the three corners are always taken from `vertices`.
    /// Texture coordinates and normals are taken where their collection is
    /// handed in and holds anything; the face then has them, and else it has
    /// none. A positive index counts from the first element, which is 1; any
    /// other counts back from the end, -1 being the last element. A slot
    /// that the line leaves out, or whose text is no 32-bit integer, counts
    /// as index 0, which names no element.
    pub fn from_line(
        line: &str,
        vertices: &Vec<GeometricVertex>,
        tex_coords: Option<&Vec<TextureVertex>>,
        normals: Option<&Vec<VertexNormal>>,
    ) -> (result: Result<Self, RejectedLine>)
        ensures
            Self::parses_to(
                line@,
                views(vertices@),
                collection_views(tex_coords),
                collection_views(normals),
                result,
            ),
            result is Ok <==> face_of(
                capture_groups(PATTERN@, line@),
                line@,
                views(vertices@),
                collection_views(tex_coords),
                collection_views(normals),
            ) is Ok,
            !whole_line(capture_groups(PATTERN@, line@), line@) ==> result is Err
                && result->Err_0@.reason == ParseError::LineShapeMismatch,
    {
        Self::from_groups(match_groups(PATTERN, line), line, vertices, tex_coords, normals)
    }

    /// Parsing keeps no state: two results of parsing the same line against
    /// the same collections are the same, both the same face or both the
    /// same rejection.
    pub proof fn lemma_from_line_repeatable(
        line: Seq<char>,
        vertices: Seq<Components>,
        tex_coords: Option<Seq<Components>>,
        normals: Option<Seq<Components>>,
        first: Result<Self, RejectedLine>,
        second: Result<Self, RejectedLine>,
    )
        requires
            Self::parses_to(line, vertices, tex_coords, normals, first),
            Self::parses_to(line, vertices, tex_coords, normals, second),
        ensures
            first is Ok <==> second is Ok,
            first is Ok ==> first->Ok_0@ == second->Ok_0@,
            first is Err ==> first->Err_0@ == second->Err_0@,
    {
    }
}

/// Reads the index that stands in one slot of a face line.
fn read_slot_index(slot: &Option<String>) -> (index: i32)
    ensures
        index == slot_index(slot.deep_view()),
{
    match slot {
        Some(token) => index_of_token(token.as_str()),
        None => 0,
    }
}

/// Reads the three indices that stand in one slot of the three corners.
fn read_corner_indices(found: &Vec<Option<String>>, slot: usize) -> (indices: (i32, i32, i32))
    requires
        found@.len() >= GROUP_COUNT,
        slot <= NORMAL_SLOT,
    ensures
        as_ints(indices) == corner_indices(found.deep_view(), slot as int),
{
    (
        read_slot_index(&found[1 + slot]),
        read_slot_index(&found[4 + slot]),
        read_slot_index(&found[7 + slot]),
    )
}

} // verus!
