//! Defines the [PdfBitmapSizing] struct: the target sizes, maximum sizes and rotations that
//! a bitmap configuration applies when a page is rendered into a bitmap.
//!
//! Scale factors and the arithmetic on page sizes in points are floating-point values; they
//! are kept beside these settings where the page is rendered.

use crate::bitmap::PdfBitmapRotation;
use vstd::prelude::*;

verus! {

/// The orientation of a page: landscape when it is wider than it is tall, otherwise portrait.
#[derive(Copy, Clone, Debug, PartialEq, Eq, Structural)]
pub enum PdfPageOrientation {
    Portrait,
    Landscape,
}

/// The integer settings of a bitmap configuration: target and maximum pixel sizes, and the
/// rotation applied to portrait and to landscape pages, each with whether the maximum sizes
/// are swapped along with the rotation.
#[derive(Copy, Clone, Debug, PartialEq, Eq, Structural)]
pub struct PdfBitmapSizing {
    pub target_width: Option<u16>,
    pub target_height: Option<u16>,
    pub maximum_width: Option<u16>,
    pub maximum_height: Option<u16>,
    pub portrait_rotation: PdfBitmapRotation,
    pub portrait_rotation_do_rotate_constraints: bool,
    pub landscape_rotation: PdfBitmapRotation,
    pub landscape_rotation_do_rotate_constraints: bool,
}

/// A quarter or three-quarter turn, the rotations that swap width and height.
pub open spec fn spec_is_quarter_turn(rotation: PdfBitmapRotation) -> bool {
    rotation == PdfBitmapRotation::Degrees90 || rotation == PdfBitmapRotation::Degrees270
}

impl PdfBitmapSizing {
    /// Creates new settings with nothing configured: no target or maximum sizes, and no
    /// rotation.
    pub fn new() -> (r: Self)
        ensures
            r == (PdfBitmapSizing {
                target_width: None,
                target_height: None,
                maximum_width: None,
                maximum_height: None,
                portrait_rotation: PdfBitmapRotation::Degrees0,
                portrait_rotation_do_rotate_constraints: false,
                landscape_rotation: PdfBitmapRotation::Degrees0,
                landscape_rotation_do_rotate_constraints: false,
            }),
    {
        PdfBitmapSizing {
            target_width: None,
            target_height: None,
            maximum_width: None,
            maximum_height: None,
            portrait_rotation: PdfBitmapRotation::Degrees0,
            portrait_rotation_do_rotate_constraints: false,
            landscape_rotation: PdfBitmapRotation::Degrees0,
            landscape_rotation_do_rotate_constraints: false,
        }
    }

    /// Sets the target pixel width and height of the bitmap.
    pub fn set_target_size(self, width: u16, height: u16) -> (r: Self)
        ensures
            r == (PdfBitmapSizing { target_width: Some(width), target_height: Some(height), ..self }),
    {
        self.set_target_width(width).set_target_height(height)
    }

    /// Sets the target pixel width of the bitmap.
    pub fn set_target_width(self, width: u16) -> (r: Self)
        ensures
            r == (PdfBitmapSizing { target_width: Some(width), ..self }),
    {
        PdfBitmapSizing { target_width: Some(width), ..self }
    }

    /// Sets the target pixel height of the bitmap.
    pub fn set_target_height(self, height: u16) -> (r: Self)
        ensures
            r == (PdfBitmapSizing { target_height: Some(height), ..self }),
    {
        PdfBitmapSizing { target_height: Some(height), ..self }
    }

    /// Sets the maximum pixel width of the bitmap.
    pub fn set_maximum_width(self, width: u16) -> (r: Self)
        ensures
            r == (PdfBitmapSizing { maximum_width: Some(width), ..self }),
    {
        PdfBitmapSizing { maximum_width: Some(width), ..self }
    }

    /// Sets the maximum pixel height of the bitmap.
    pub fn set_maximum_height(self, height: u16) -> (r: Self)
        ensures
            r == (PdfBitmapSizing { maximum_height: Some(height), ..self }),
    {
        PdfBitmapSizing { maximum_height: Some(height), ..self }
    }

    /// Sizes the bitmap for a display of the given size: the target width and the maximum
    /// width are the display width, the maximum height is the display height, and landscape
    /// pages are turned a quarter turn with their maximum sizes swapped.
    pub fn scale_page_to_display_size(self, width: u16, height: u16) -> (r: Self)
        ensures
            r == (PdfBitmapSizing {
                target_width: Some(width),
                maximum_width: Some(width),
                maximum_height: Some(height),
                landscape_rotation: PdfBitmapRotation::Degrees90,
                landscape_rotation_do_rotate_constraints: true,
                ..self
            }),
    {
        self.set_target_width(width).set_maximum_width(width).set_maximum_height(
            height,
        ).rotate_if_landscape(PdfBitmapRotation::Degrees90, true)
    }

    /// Applies the given rotation to both portrait and landscape pages.
    pub fn rotate(self, rotation: PdfBitmapRotation, do_rotate_constraints: bool) -> (r: Self)
        ensures
            r == self.spec_rotate_if_portrait(rotation, do_rotate_constraints).spec_rotate_if_landscape(
                rotation,
                do_rotate_constraints,
            ),
    {
        self.rotate_if_portait(rotation, do_rotate_constraints).rotate_if_landscape(
            rotation,
            do_rotate_constraints,
        )
    }

    /// The settings after [PdfBitmapSizing::rotate_if_portait()].
    pub open spec fn spec_rotate_if_portrait(
        self,
        rotation: PdfBitmapRotation,
        do_rotate_constraints: bool,
    ) -> Self {
        PdfBitmapSizing {
            portrait_rotation: rotation,
            portrait_rotation_do_rotate_constraints: if spec_is_quarter_turn(rotation) {
                do_rotate_constraints
            } else {
                self.portrait_rotation_do_rotate_constraints
            },
            ..self
        }
    }

    /// The settings after [PdfBitmapSizing::rotate_if_landscape()].
    pub open spec fn spec_rotate_if_landscape(
        self,
        rotation: PdfBitmapRotation,
        do_rotate_constraints: bool,
    ) -> Self {
        PdfBitmapSizing {
            landscape_rotation: rotation,
            landscape_rotation_do_rotate_constraints: if spec_is_quarter_turn(rotation) {
                do_rotate_constraints
            } else {
                self.landscape_rotation_do_rotate_constraints
            },
            ..self
        }
    }

    /// Applies the given rotation to portrait pages. The choice of swapping the maximum sizes
    /// is recorded only for a quarter or three-quarter turn.
    pub fn rotate_if_portait(self, rotation: PdfBitmapRotation, do_rotate_constraints: bool) -> (r:
        Self)
        ensures
            r == self.spec_rotate_if_portrait(rotation, do_rotate_constraints),
    {
        let do_rotate = if rotation == PdfBitmapRotation::Degrees90 || rotation
            == PdfBitmapRotation::Degrees270 {
            do_rotate_constraints
        } else {
            self.portrait_rotation_do_rotate_constraints
        };
        PdfBitmapSizing {
            portrait_rotation: rotation,
            portrait_rotation_do_rotate_constraints: do_rotate,
            ..self
        }
    }

    /// Applies the given rotation to landscape pages. The choice of swapping the maximum sizes
    /// is recorded only for a quarter or three-quarter turn.
    pub fn rotate_if_landscape(self, rotation: PdfBitmapRotation, do_rotate_constraints: bool) -> (r:
        Self)
        ensures
            r == self.spec_rotate_if_landscape(rotation, do_rotate_constraints),
    {
        let do_rotate = if rotation == PdfBitmapRotation::Degrees90 || rotation
            == PdfBitmapRotation::Degrees270 {
            do_rotate_constraints
        } else {
            self.landscape_rotation_do_rotate_constraints
        };
        PdfBitmapSizing {
            landscape_rotation: rotation,
            landscape_rotation_do_rotate_constraints: do_rotate,
            ..self
        }
    }

    /// The rotation applied to a page of the given orientation, and whether the maximum
    /// sizes are swapped: the rotation configured for that orientation, or no rotation
    /// without swapping when none is configured.
    pub open spec fn spec_rotation_for(self, orientation: PdfPageOrientation) -> (
        PdfBitmapRotation,
        bool,
    ) {
        if orientation == PdfPageOrientation::Portrait && self.portrait_rotation
            != PdfBitmapRotation::Degrees0 {
            (self.portrait_rotation, self.portrait_rotation_do_rotate_constraints)
        } else if orientation == PdfPageOrientation::Landscape && self.landscape_rotation
            != PdfBitmapRotation::Degrees0 {
            (self.landscape_rotation, self.landscape_rotation_do_rotate_constraints)
        } else {
            (PdfBitmapRotation::Degrees0, false)
        }
    }

    /// Returns the rotation applied to a page of the given orientation, and whether the
    /// maximum sizes are swapped.
    pub fn rotation_for(&self, orientation: PdfPageOrientation) -> (r: (PdfBitmapRotation, bool))
        ensures
            r == self.spec_rotation_for(orientation),
    {
        if orientation == PdfPageOrientation::Portrait && self.portrait_rotation
            != PdfBitmapRotation::Degrees0 {
            (self.portrait_rotation, self.portrait_rotation_do_rotate_constraints)
        } else if orientation == PdfPageOrientation::Landscape && self.landscape_rotation
            != PdfBitmapRotation::Degrees0 {
            (self.landscape_rotation, self.landscape_rotation_do_rotate_constraints)
        } else {
            (PdfBitmapRotation::Degrees0, false)
        }
    }

    /// Returns the maximum width and height that constrain the bitmap: swapped when the
    /// rotation swaps them.
    pub fn constraints(&self, do_rotate_constraints: bool) -> (r: (Option<u16>, Option<u16>))
        ensures
            r == (if do_rotate_constraints {
                (self.maximum_height, self.maximum_width)
            } else {
                (self.maximum_width, self.maximum_height)
            }),
    {
        if do_rotate_constraints {
            (self.maximum_height, self.maximum_width)
        } else {
            (self.maximum_width, self.maximum_height)
        }
    }
}

/// The rotation handed to the renderer: `None` when the page is not rotated.
pub fn rendered_rotation(rotation: PdfBitmapRotation) -> (r: Option<PdfBitmapRotation>)
    ensures
        r == (if rotation == PdfBitmapRotation::Degrees0 {
            None
        } else {
            Some(rotation)
        }),
{
    if rotation == PdfBitmapRotation::Degrees0 {
        None
    } else {
        Some(rotation)
    }
}

/// Rotating both orientations is the same as rotating each: portrait and landscape pages
/// get the given rotation, and the choice of swapping the maximum sizes is recorded for
/// both exactly when the rotation is a quarter or three-quarter turn. Sizes are unchanged.
pub proof fn lemma_rotate_applies_to_both_orientations(
    s: PdfBitmapSizing,
    rotation: PdfBitmapRotation,
    do_rotate_constraints: bool,
    orientation: PdfPageOrientation,
)
    requires
        rotation != PdfBitmapRotation::Degrees0,
    ensures
        ({
            let t = s.spec_rotate_if_portrait(rotation, do_rotate_constraints).spec_rotate_if_landscape(
                rotation,
                do_rotate_constraints,
            );
            &&& t.spec_rotation_for(orientation).0 == rotation
            &&& spec_is_quarter_turn(rotation) ==> t.spec_rotation_for(orientation).1
                == do_rotate_constraints
            &&& t.target_width == s.target_width && t.target_height == s.target_height
            &&& t.maximum_width == s.maximum_width && t.maximum_height == s.maximum_height
        }),
{
}

/// A page's rotation depends only on the setting for its own orientation: two settings that
/// agree on the rotation configured for an orientation, and on whether it swaps the maximum
/// sizes, rotate pages of that orientation alike, whatever they say of the other orientation.
pub proof fn lemma_rotation_depends_only_on_own_orientation(
    s: PdfBitmapSizing,
    t: PdfBitmapSizing,
    orientation: PdfPageOrientation,
)
    requires
        orientation == PdfPageOrientation::Portrait ==> s.portrait_rotation == t.portrait_rotation
            && s.portrait_rotation_do_rotate_constraints == t.portrait_rotation_do_rotate_constraints,
        orientation == PdfPageOrientation::Landscape ==> s.landscape_rotation
            == t.landscape_rotation && s.landscape_rotation_do_rotate_constraints
            == t.landscape_rotation_do_rotate_constraints,
    ensures
        s.spec_rotation_for(orientation) == t.spec_rotation_for(orientation),
{
}

/// Setting the rotation of one orientation leaves pages of the other orientation as they
/// were: rotating portrait pages does not change how landscape pages are rotated, and the
/// other way round.
pub proof fn lemma_rotating_one_orientation_leaves_the_other(
    s: PdfBitmapSizing,
    rotation: PdfBitmapRotation,
    do_rotate_constraints: bool,
)
    ensures
        s.spec_rotate_if_portrait(rotation, do_rotate_constraints).spec_rotation_for(
            PdfPageOrientation::Landscape,
        ) == s.spec_rotation_for(PdfPageOrientation::Landscape),
        s.spec_rotate_if_landscape(rotation, do_rotate_constraints).spec_rotation_for(
            PdfPageOrientation::Portrait,
        ) == s.spec_rotation_for(PdfPageOrientation::Portrait),
{
}

/// A page is rotated by the rotation configured for its orientation, swapping the maximum
/// sizes as configured for it; with no rotation configured for its orientation it is not
/// rotated and the maximum sizes are not swapped.
pub proof fn lemma_page_gets_its_orientation_rotation(s: PdfBitmapSizing)
    ensures
        s.portrait_rotation == PdfBitmapRotation::Degrees0 ==> s.spec_rotation_for(
            PdfPageOrientation::Portrait,
        ) == (PdfBitmapRotation::Degrees0, false),
        s.portrait_rotation != PdfBitmapRotation::Degrees0 ==> s.spec_rotation_for(
            PdfPageOrientation::Portrait,
        ) == (s.portrait_rotation, s.portrait_rotation_do_rotate_constraints),
        s.landscape_rotation == PdfBitmapRotation::Degrees0 ==> s.spec_rotation_for(
            PdfPageOrientation::Landscape,
        ) == (PdfBitmapRotation::Degrees0, false),
        s.landscape_rotation != PdfBitmapRotation::Degrees0 ==> s.spec_rotation_for(
            PdfPageOrientation::Landscape,
        ) == (s.landscape_rotation, s.landscape_rotation_do_rotate_constraints),
        s.spec_rotation_for(PdfPageOrientation::Portrait).1 ==> s.portrait_rotation_do_rotate_constraints,
        s.spec_rotation_for(PdfPageOrientation::Landscape).1 ==> s.landscape_rotation_do_rotate_constraints,
{
}

} // verus!
