//! Visual descriptors: what a node draws, and the content-addressed sources
//! textures are loaded from.

use vstd::prelude::*;
use crate::identity::UIIdentifier;

verus! {

/// What a node's own visual is: a texture loaded from a path, or a glyph of
/// a font.
#[derive(Debug)]
pub enum TextureMeta {
    Texture { path: String },
    Font { font_path: String, character: char },
}

impl TextureMeta {
    /// Structural equality, with strings compared by contents.
    pub open spec fn spec_eq(self, other: Self) -> bool {
        match (self, other) {
            (TextureMeta::Texture { path: p1 }, TextureMeta::Texture { path: p2 }) => p1@ == p2@,
            (
                TextureMeta::Font { font_path: f1, character: c1 },
                TextureMeta::Font { font_path: f2, character: c2 },
            ) => f1@ == f2@ && c1 == c2,
            _ => false,
        }
    }

    /// An equal, independently owned copy.
    pub fn duplicate(&self) -> (r: Self)
        ensures
            r == *self,
    {
        match self {
            TextureMeta::Texture { path } => TextureMeta::Texture { path: path.clone() },
            TextureMeta::Font { font_path, character } => TextureMeta::Font {
                font_path: font_path.clone(),
                character: *character,
            },
        }
    }
}

impl PartialEq for TextureMeta {
    fn eq(&self, other: &Self) -> (r: bool) {
        match (self, other) {
            (TextureMeta::Texture { path: p1 }, TextureMeta::Texture { path: p2 }) => *p1 == *p2,
            (
                TextureMeta::Font { font_path: f1, character: c1 },
                TextureMeta::Font { font_path: f2, character: c2 },
            ) => *f1 == *f2 && *c1 == *c2,
            _ => false,
        }
    }
}

impl vstd::std_specs::cmp::PartialEqSpecImpl for TextureMeta {
    open spec fn obeys_eq_spec() -> bool {
        true
    }

    open spec fn eq_spec(&self, other: &Self) -> bool {
        self.spec_eq(*other)
    }
}

/// A content-addressed description of where a texture comes from: a file, a
/// rasterized glyph, a solid color, or a composited UI subtree keyed by
/// identity and version.
#[derive(Debug)]
pub enum TextureSource {
    FilePath(String),
    TextCharacter { character: char, font_file_path: String },
    PureColor { red: u8, green: u8, blue: u8 },
    UI { version: u64, id: UIIdentifier },
}

impl TextureSource {
    pub open spec fn spec_eq(self, other: Self) -> bool {
        match (self, other) {
            (TextureSource::FilePath(p1), TextureSource::FilePath(p2)) => p1@ == p2@,
            (
                TextureSource::TextCharacter { character: c1, font_file_path: f1 },
                TextureSource::TextCharacter { character: c2, font_file_path: f2 },
            ) => c1 == c2 && f1@ == f2@,
            (
                TextureSource::PureColor { red: r1, green: g1, blue: b1 },
                TextureSource::PureColor { red: r2, green: g2, blue: b2 },
            ) => r1 == r2 && g1 == g2 && b1 == b2,
            (
                TextureSource::UI { version: v1, id: i1 },
                TextureSource::UI { version: v2, id: i2 },
            ) => v1 == v2 && i1.spec_eq(i2),
            _ => false,
        }
    }

    /// An equal, independently owned copy.
    pub fn duplicate(&self) -> (r: Self)
        ensures
            r == *self,
    {
        match self {
            TextureSource::FilePath(p) => TextureSource::FilePath(p.clone()),
            TextureSource::TextCharacter { character, font_file_path } => {
                TextureSource::TextCharacter {
                    character: *character,
                    font_file_path: font_file_path.clone(),
                }
            },
            TextureSource::PureColor { red, green, blue } => TextureSource::PureColor {
                red: *red,
                green: *green,
                blue: *blue,
            },
            TextureSource::UI { version, id } => TextureSource::UI {
                version: *version,
                id: id.duplicate(),
            },
        }
    }
}

} // verus!
