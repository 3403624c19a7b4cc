use vstd::prelude::*;

verus! {

/// Possible errors that may occur while loading `OBJ` and `MTL` data.
#[derive(Debug, Clone, Copy, PartialEq, Eq, Structural)]
pub enum LoadError {
    OpenFileFailed,
    ReadError,
    UnrecognizedCharacter,
    PositionParseError,
    NormalParseError,
    TexcoordParseError,
    FaceParseError,
    MaterialParseError,
    InvalidObjectName,
    InvalidPolygon,
    FaceVertexOutOfBounds,
    FaceTexCoordOutOfBounds,
    FaceNormalOutOfBounds,
    FaceColorOutOfBounds,
    InvalidLoadOptionConfig,
    GenericFailure,
}

impl LoadError {
    /// A short human-readable description of the error.
    pub fn message(&self) -> (r: &'static str)
        ensures
            r@ == self.message_spec(),
    {
        match *self {
            LoadError::OpenFileFailed => "open file failed",
            LoadError::ReadError => "read error",
            LoadError::UnrecognizedCharacter => "unrecognized character",
            LoadError::PositionParseError => "position parse error",
            LoadError::NormalParseError => "normal parse error",
            LoadError::TexcoordParseError => "texcoord parse error",
            LoadError::FaceParseError => "face parse error",
            LoadError::MaterialParseError => "material parse error",
            LoadError::InvalidObjectName => "invalid object name",
            LoadError::InvalidPolygon => "invalid polygon",
            LoadError::FaceVertexOutOfBounds => "face vertex index out of bounds",
            LoadError::FaceTexCoordOutOfBounds => "face texcoord index out of bounds",
            LoadError::FaceNormalOutOfBounds => "face normal index out of bounds",
            LoadError::FaceColorOutOfBounds => "face vertex color index out of bounds",
            LoadError::InvalidLoadOptionConfig => "mutually exclusive load options",
            LoadError::GenericFailure => "generic failure",
        }
    }

    /// The errors the face exporters can produce: a bounds failure on
    /// one of the attribute channels, a degenerate polygon under
    /// triangulation, or the index-counter guard.
    pub open spec fn is_export_error(self) -> bool {
        ||| self is FaceVertexOutOfBounds
        ||| self is FaceTexCoordOutOfBounds
        ||| self is FaceNormalOutOfBounds
        ||| self is FaceColorOutOfBounds
        ||| self is InvalidPolygon
        ||| self is GenericFailure
    }

    /// What [`LoadError::message`] returns for each variant.
    pub open spec fn message_spec(self) -> Seq<char> {
        match self {
            LoadError::OpenFileFailed => "open file failed"@,
            LoadError::ReadError => "read error"@,
            LoadError::UnrecognizedCharacter => "unrecognized character"@,
            LoadError::PositionParseError => "position parse error"@,
            LoadError::NormalParseError => "normal parse error"@,
            LoadError::TexcoordParseError => "texcoord parse error"@,
            LoadError::FaceParseError => "face parse error"@,
            LoadError::MaterialParseError => "material parse error"@,
            LoadError::InvalidObjectName => "invalid object name"@,
            LoadError::InvalidPolygon => "invalid polygon"@,
            LoadError::FaceVertexOutOfBounds => "face vertex index out of bounds"@,
            LoadError::FaceTexCoordOutOfBounds => "face texcoord index out of bounds"@,
            LoadError::FaceNormalOutOfBounds => "face normal index out of bounds"@,
            LoadError::FaceColorOutOfBounds => "face vertex color index out of bounds"@,
            LoadError::InvalidLoadOptionConfig => "mutually exclusive load options"@,
            LoadError::GenericFailure => "generic failure"@,
        }
    }
}

} // verus!
