use vstd::prelude::*;

verus! {

/// Options for processing the mesh during loading.
///
/// With every flag `false` the loaded data represents the input as closely
/// as possible.  `single_index` is mutually exclusive with both
/// `merge_identical_points` and `reorder_data`; [`LoadOptions::is_valid`]
/// checks this.
#[derive(Debug, Clone, Copy, PartialEq, Eq, Structural)]
pub struct LoadOptions {
    /// Merge bit-identical attribute tuples into one entry, rewriting the
    /// index streams.  Mutually exclusive with `single_index`.
    pub merge_identical_points: bool,
    /// Reorder normal and texture-coordinate data so that their separate
    /// index streams can be dropped.  Mutually exclusive with
    /// `single_index`.
    pub reorder_data: bool,
    /// Create a single index stream shared by all attributes, duplicating
    /// vertices where attribute granularity differs.
    pub single_index: bool,
    /// Triangulate all faces into triangle fans; points and lines become
    /// degenerate triangles via vertex repetition.
    pub triangulate: bool,
    /// Drop faces that consist of a single vertex.
    pub ignore_points: bool,
    /// Drop faces that consist of two vertices.
    pub ignore_lines: bool,
}

impl LoadOptions {
    /// Whether this combination of flags is free of mutually exclusive
    /// settings.
    pub open spec fn is_valid_spec(self) -> bool {
        !(self.single_index && (self.merge_identical_points || self.reorder_data))
    }

    /// Checks that these options do not combine mutually exclusive flags:
    /// `single_index` must not be set together with either
    /// `merge_identical_points` or `reorder_data`.
    pub fn is_valid(&self) -> (r: bool)
        ensures
            r == self.is_valid_spec(),
    {
        let other_flags = self.merge_identical_points || self.reorder_data;
        (self.single_index != other_flags) || (!self.single_index && !other_flags)
    }
}

impl Default for LoadOptions {
    /// All flags off: keep the data as close to the input as possible.
    fn default() -> (r: Self)
        ensures
            r == (LoadOptions {
                merge_identical_points: false,
                reorder_data: false,
                single_index: false,
                triangulate: false,
                ignore_points: false,
                ignore_lines: false,
            }),
    {
        LoadOptions {
            merge_identical_points: false,
            reorder_data: false,
            single_index: false,
            triangulate: false,
            ignore_points: false,
            ignore_lines: false,
        }
    }
}

/// Typical [`LoadOptions`] for using meshes in a GPU/realtime context:
/// triangulated, a single shared index, points and lines discarded.
pub fn gpu_load_options() -> (r: LoadOptions)
    ensures
        r == (LoadOptions {
            merge_identical_points: false,
            reorder_data: false,
            single_index: true,
            triangulate: true,
            ignore_points: true,
            ignore_lines: true,
        }),
{
    LoadOptions {
        merge_identical_points: false,
        reorder_data: false,
        single_index: true,
        triangulate: true,
        ignore_points: true,
        ignore_lines: true,
    }
}

/// Typical [`LoadOptions`] for offline rendering: faces kept as they are,
/// identical points merged and attribute data reordered so a single index
/// suffices; points and lines discarded.
pub fn offline_rendering_load_options() -> (r: LoadOptions)
    ensures
        r == (LoadOptions {
            merge_identical_points: true,
            reorder_data: true,
            single_index: false,
            triangulate: false,
            ignore_points: true,
            ignore_lines: true,
        }),
{
    LoadOptions {
        merge_identical_points: true,
        reorder_data: true,
        single_index: false,
        triangulate: false,
        ignore_points: true,
        ignore_lines: true,
    }
}

} // verus!
