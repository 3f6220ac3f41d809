//! Camera calibration as read at startup.
//!
//! The calibration comes from a settings document of the image processor, or
//! from built-in values where none is given. The numbers themselves are the
//! caller's; decided here is which parts the document has to have, what is
//! used where a part is missing, and how the projection matrix is laid out.

use vstd::prelude::*;

verus! {

/// Number of distortion coefficients used where the document's are not.
pub const DEFAULT_DISTORTION_LEN: usize = 5;

/// Number of elements of the camera matrix.
pub const CAMERA_MATRIX_LEN: usize = 9;

/// Number of elements of the projection matrix.
pub const PROJECTION_LEN: usize = 12;

/// Image width used where the document names none.
pub const DEFAULT_WIDTH: u32 = 1920;

/// Image height used where the document names none.
pub const DEFAULT_HEIGHT: u32 = 1080;

/// What a settings document holds, as far as it decides the calibration.
#[derive(Clone, Copy, Debug, PartialEq, Eq, Structural)]
pub struct CalibrationShape {
    /// Whether the processor's own correction is bypassed; false where the
    /// document does not say.
    pub bypass: bool,
    /// Whether the document has its list of configurations.
    pub has_configs: bool,
    /// Length of the list of distortion coefficients, if the first
    /// configuration has one.
    pub distortion_len: Option<usize>,
    /// Length of the camera matrix, if the first configuration has one.
    pub matrix_len: Option<usize>,
    /// Image width, if the first configuration names one.
    pub width: Option<u32>,
    /// Image height, if the first configuration names one.
    pub height: Option<u32>,
}

/// Why a settings document gives no calibration.
#[derive(Clone, Copy, Debug, PartialEq, Eq, Structural)]
pub enum CalibrationError {
    /// The list of configurations is missing.
    NoConfigs,
    /// Correction is bypassed, and the distortion coefficients are missing.
    NoDistortion,
    /// The camera matrix is missing.
    NoCameraMatrix,
    /// The camera matrix has not nine elements. Carried along is the number
    /// of distortion coefficients that would have been used.
    WrongMatrixLength(usize),
}

/// Where the distortion coefficients come from.
#[derive(Clone, Copy, Debug, PartialEq, Eq, Structural)]
pub enum Distortion {
    /// The document's list, of this length.
    Document(usize),
    /// This many zeros: the processor has corrected the image already.
    Zeros(usize),
}

impl Distortion {
    /// Number of coefficients.
    pub open spec fn len(self) -> usize {
        match self {
            Distortion::Document(len) => len,
            Distortion::Zeros(len) => len,
        }
    }
}

/// How the calibration is put together from a document.
#[derive(Clone, Copy, Debug, PartialEq, Eq, Structural)]
pub struct CalibrationPlan {
    pub distortion: Distortion,
    pub width: u32,
    pub height: u32,
    /// Whether the width had to be taken from the defaults.
    pub width_missing: bool,
    /// Whether the height had to be taken from the defaults.
    pub height_missing: bool,
}

/// The distortion coefficients that a document calls for, if it has what
/// they need.
pub open spec fn distortion_of(shape: CalibrationShape) -> Option<Distortion> {
    if shape.bypass {
        match shape.distortion_len {
            Some(len) => Some(Distortion::Document(len)),
            None => None,
        }
    } else {
        Some(Distortion::Zeros(DEFAULT_DISTORTION_LEN))
    }
}

/// What a document yields. The parts are looked for in a fixed order, and
/// the first one found wanting decides the error: the list of
/// configurations, the distortion coefficients, the camera matrix, the
/// length of the camera matrix.
pub open spec fn plan_of(shape: CalibrationShape) -> Result<CalibrationPlan, CalibrationError> {
    if !shape.has_configs {
        Err(CalibrationError::NoConfigs)
    } else if distortion_of(shape) is None {
        Err(CalibrationError::NoDistortion)
    } else if shape.matrix_len is None {
        Err(CalibrationError::NoCameraMatrix)
    } else if shape.matrix_len != Some(CAMERA_MATRIX_LEN) {
        Err(CalibrationError::WrongMatrixLength(distortion_of(shape)->0.len()))
    } else {
        Ok(
            CalibrationPlan {
                distortion: distortion_of(shape)->0,
                width: match shape.width {
                    Some(width) => width,
                    None => DEFAULT_WIDTH,
                },
                height: match shape.height {
                    Some(height) => height,
                    None => DEFAULT_HEIGHT,
                },
                width_missing: shape.width is None,
                height_missing: shape.height is None,
            },
        )
    }
}

/// Decides how the calibration is put together from a settings document, or
/// why it cannot be.
pub fn plan_calibration(shape: &CalibrationShape) -> (plan: Result<
    CalibrationPlan,
    CalibrationError,
>)
    ensures
        plan == plan_of(*shape),
{
    if !shape.has_configs {
        return Err(CalibrationError::NoConfigs);
    }
    let distortion = if shape.bypass {
        match shape.distortion_len {
            Some(len) => Distortion::Document(len),
            None => {
                return Err(CalibrationError::NoDistortion);
            },
        }
    } else {
        Distortion::Zeros(DEFAULT_DISTORTION_LEN)
    };
    let matrix_len = match shape.matrix_len {
        Some(len) => len,
        None => {
            return Err(CalibrationError::NoCameraMatrix);
        },
    };
    if matrix_len != CAMERA_MATRIX_LEN {
        let used = match distortion {
            Distortion::Document(len) => len,
            Distortion::Zeros(len) => len,
        };
        return Err(CalibrationError::WrongMatrixLength(used));
    }
    let (width, width_missing) = match shape.width {
        Some(width) => (width, false),
        None => (DEFAULT_WIDTH, true),
    };
    let (height, height_missing) = match shape.height {
        Some(height) => (height, false),
        None => (DEFAULT_HEIGHT, true),
    };
    Ok(CalibrationPlan { distortion, width, height, width_missing, height_missing })
}

/// The calibration used without a document: no distortion, default size.
pub fn default_plan() -> (plan: CalibrationPlan)
    ensures
        plan == (CalibrationPlan {
            distortion: Distortion::Zeros(DEFAULT_DISTORTION_LEN),
            width: DEFAULT_WIDTH,
            height: DEFAULT_HEIGHT,
            width_missing: false,
            height_missing: false,
        }),
{
    CalibrationPlan {
        distortion: Distortion::Zeros(DEFAULT_DISTORTION_LEN),
        width: DEFAULT_WIDTH,
        height: DEFAULT_HEIGHT,
        width_missing: false,
        height_missing: false,
    }
}

/// The camera matrix used without a document, row by row: focal length 1270
/// both ways, principal point at (960, 540).
pub open spec fn default_camera_matrix() -> Seq<u32> {
    seq![1270u32, 0u32, 960u32, 0u32, 1270u32, 540u32, 0u32, 0u32, 1u32]
}

/// The element at place `index` of the camera matrix used without a
/// document.
pub fn default_camera_matrix_at(index: usize) -> (value: u32)
    requires
        index < CAMERA_MATRIX_LEN,
    ensures
        value == default_camera_matrix()[index as int],
{
    if index == 0 || index == 4 {
        1270
    } else if index == 2 {
        960
    } else if index == 5 {
        540
    } else if index == 8 {
        1
    } else {
        0
    }
}

/// The place in the camera matrix from which place `index` of the
/// projection matrix is filled; none where the projection matrix holds zero.
///
/// The projection matrix has three rows of four: each row of the camera
/// matrix with a zero behind it.
pub open spec fn projection_source_of(index: int) -> Option<int> {
    if index % 4 == 3 {
        None
    } else {
        Some(3 * (index / 4) + index % 4)
    }
}

/// The place in the camera matrix from which place `index` of the
/// projection matrix is filled; none where the projection matrix holds zero.
pub fn projection_source(index: usize) -> (source: Option<usize>)
    requires
        index < PROJECTION_LEN,
    ensures
        source is Some <==> projection_source_of(index as int) is Some,
        source matches Some(k) ==> k < CAMERA_MATRIX_LEN && projection_source_of(index as int)
            == Some(k as int),
{
    if index % 4 == 3 {
        None
    } else {
        Some(3 * (index / 4) + index % 4)
    }
}

/// Every element of the camera matrix goes to exactly one place of the
/// projection matrix: row and column stay, and the rows get one longer.
pub proof fn projection_keeps_camera_matrix(k: int)
    requires
        0 <= k < CAMERA_MATRIX_LEN,
    ensures
        projection_source_of(4 * (k / 3) + k % 3) == Some(k),
        forall|i: int|
            0 <= i < PROJECTION_LEN && projection_source_of(i) == Some(k) ==> i == 4 * (k / 3) + k
                % 3,
{
    assert forall|i: int| 0 <= i < PROJECTION_LEN && projection_source_of(i) == Some(k) implies i
        == 4 * (k / 3) + k % 3 by {
        let row = i / 4;
        let column = i % 4;
        assert(k == 3 * row + column);
        assert(0 <= column < 3);
    }
}

} // verus!
