use crate::building_points::process_building_components_sequential;
use crate::model::Building;
use vstd::prelude::*;

verus! {

/// How the offset into a building's local frame is found.
#[derive(Clone, Copy, Debug, PartialEq, Eq, Structural)]
pub enum TranslationStrategy {
    /// The offset is minus the midpoint of the envelope's two corners.
    EnvelopeCentre,
    /// The offset is minus the mean of the points of the building's shell.
    MeanOfPoints,
}

/// What the offset of a building is to be computed from.
pub enum OffsetInput<P> {
    /// Translation is switched off: the offset is zero.
    Disabled,
    /// Translation was asked for, but the building has no envelope, or its
    /// shell has no points: the offset stays zero and the caller reports it.
    Undefined,
    /// The two corners of the envelope.
    Corners { lower: P, upper: P },
    /// The points of the shell, of which there is at least one.
    Points { points: Vec<P> },
}

/// What the offset of a building is to be computed from, as a mathematical
/// value.
pub open spec fn offset_input_of<P>(
    enabled: bool,
    strategy: TranslationStrategy,
    building: Building<P>,
    input: OffsetInput<P>,
) -> bool {
    if !enabled {
        input is Disabled
    } else {
        match strategy {
            TranslationStrategy::EnvelopeCentre => match building.envelope {
                Some(envelope) => input matches OffsetInput::Corners { lower, upper }
                    && lower == envelope.lower_corner && upper == envelope.upper_corner,
                None => input is Undefined,
            },
            TranslationStrategy::MeanOfPoints => if building.component_points().len() == 0 {
                input is Undefined
            } else {
                input matches OffsetInput::Points { points } && points@
                    == building.component_points()
            },
        }
    }
}

/// Decides what the offset of a building is computed from. The arithmetic on
/// the coordinates is the caller's; a missing envelope and an empty shell are
/// told apart from a translation that is switched off, so that the caller can
/// report them and go on untranslated.
pub fn offset_input<P: Copy>(
    enabled: bool,
    strategy: TranslationStrategy,
    building: &Building<P>,
) -> (input: OffsetInput<P>)
    ensures
        offset_input_of(enabled, strategy, *building, input),
{
    if !enabled {
        return OffsetInput::Disabled;
    }
    match strategy {
        TranslationStrategy::EnvelopeCentre => match &building.envelope {
            Some(envelope) => OffsetInput::Corners {
                lower: envelope.lower_corner,
                upper: envelope.upper_corner,
            },
            None => OffsetInput::Undefined,
        },
        TranslationStrategy::MeanOfPoints => {
            let points = process_building_components_sequential(building);
            if points.len() == 0 {
                OffsetInput::Undefined
            } else {
                OffsetInput::Points { points }
            }
        },
    }
}

} // verus!
