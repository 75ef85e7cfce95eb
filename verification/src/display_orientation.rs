//! The four ways the panel can be mounted, and the map from the points a caller draws at
//! (logical points) to the pixels of the panel (physical points).
use vstd::prelude::*;

verus! {

/// How the picture is turned on the panel.
#[derive(Clone, Copy, PartialEq, Eq, Debug, Structural)]
pub enum DisplayOrientation {
    Portrait,
    Landscape,
    PortraitFlipped,
    LandscapeFlipped,
}

impl DisplayOrientation {
    /// Whether the picture lies on its side, so that its width runs along the panel's height.
    pub open spec fn swaps_axes(self) -> bool {
        match self {
            DisplayOrientation::Portrait => false,
            DisplayOrientation::Landscape => true,
            DisplayOrientation::PortraitFlipped => false,
            DisplayOrientation::LandscapeFlipped => true,
        }
    }

    /// The width of the picture on a panel of `width` by `height` pixels.
    pub open spec fn logical_width(self, width: int, height: int) -> int {
        if self.swaps_axes() {
            height
        } else {
            width
        }
    }

    /// The height of the picture on a panel of `width` by `height` pixels.
    pub open spec fn logical_height(self, width: int, height: int) -> int {
        if self.swaps_axes() {
            width
        } else {
            height
        }
    }

    /// The physical point of logical point `(x, y)` on a panel of `width` by `height` pixels.
    pub open spec fn transform(self, width: int, height: int, x: int, y: int) -> (int, int) {
        match self {
            DisplayOrientation::Portrait => (x, y),
            DisplayOrientation::Landscape => (y, height - 1 - x),
            DisplayOrientation::LandscapeFlipped => (width - 1 - y, x),
            DisplayOrientation::PortraitFlipped => (width - 1 - x, height - 1 - y),
        }
    }

    /// The orientation that turns the picture back: the other landscape for a landscape, and
    /// the orientation itself for a portrait.
    pub open spec fn inverse(self) -> DisplayOrientation {
        match self {
            DisplayOrientation::Portrait => DisplayOrientation::Portrait,
            DisplayOrientation::Landscape => DisplayOrientation::LandscapeFlipped,
            DisplayOrientation::PortraitFlipped => DisplayOrientation::PortraitFlipped,
            DisplayOrientation::LandscapeFlipped => DisplayOrientation::Landscape,
        }
    }

}

/// Whether `(x, y)` is a pixel of a grid of `width` by `height` pixels.
pub open spec fn in_grid(width: int, height: int, x: int, y: int) -> bool {
    0 <= x < width && 0 <= y < height
}

/// A logical point lies in the picture exactly if its physical point lies on the panel.
pub proof fn lemma_transform_keeps_grid(
    orientation: DisplayOrientation,
    width: int,
    height: int,
    x: int,
    y: int,
)
    ensures
        in_grid(
            orientation.logical_width(width, height),
            orientation.logical_height(width, height),
            x,
            y,
        ) <==> in_grid(
            width,
            height,
            orientation.transform(width, height, x, y).0,
            orientation.transform(width, height, x, y).1,
        ),
{
}

/// Two logical points with the same physical point are the same point.
pub proof fn lemma_transform_is_injective(
    orientation: DisplayOrientation,
    width: int,
    height: int,
    x1: int,
    y1: int,
    x2: int,
    y2: int,
)
    requires
        orientation.transform(width, height, x1, y1) == orientation.transform(
            width,
            height,
            x2,
            y2,
        ),
    ensures
        x1 == x2,
        y1 == y2,
{
}

/// The inverse orientation, taken on a panel that has the picture's extent, turns every
/// physical point back into its logical point, and the orientation turns it forth again.
pub proof fn lemma_transform_inverse(
    orientation: DisplayOrientation,
    width: int,
    height: int,
    x: int,
    y: int,
)
    ensures
        ({
            let (px, py) = orientation.transform(width, height, x, y);
            orientation.inverse().transform(
                orientation.logical_width(width, height),
                orientation.logical_height(width, height),
                px,
                py,
            ) == (x, y)
        }),
        ({
            let (lx, ly) = orientation.inverse().transform(
                orientation.logical_width(width, height),
                orientation.logical_height(width, height),
                x,
                y,
            );
            orientation.transform(width, height, lx, ly) == (x, y)
        }),
        orientation.inverse().inverse() == orientation,
{
}

/// Every pixel of the panel is the physical point of a logical point of the picture: with the
/// two laws above, the transform is a bijection from the picture onto the panel.
pub proof fn lemma_transform_is_onto(
    orientation: DisplayOrientation,
    width: int,
    height: int,
    px: int,
    py: int,
)
    requires
        in_grid(width, height, px, py),
    ensures
        exists|x: int, y: int|
            in_grid(
                orientation.logical_width(width, height),
                orientation.logical_height(width, height),
                x,
                y,
            ) && #[trigger] orientation.transform(width, height, x, y) == (px, py),
{
    let (x, y) = orientation.inverse().transform(
        orientation.logical_width(width, height),
        orientation.logical_height(width, height),
        px,
        py,
    );
    lemma_transform_inverse(orientation, width, height, px, py);
    lemma_transform_keeps_grid(orientation, width, height, x, y);
    assert(orientation.transform(width, height, x, y) == (px, py));
}

} // verus!
