use edgefirst_camera::calib::{
    default_camera_matrix_at, default_plan, plan_calibration, projection_source, CalibrationError,
    CalibrationPlan, CalibrationShape, Distortion,
};

fn complete() -> CalibrationShape {
    CalibrationShape {
        bypass: false,
        has_configs: true,
        distortion_len: Some(8),
        matrix_len: Some(9),
        width: Some(3840),
        height: Some(2160),
    }
}

#[test]
fn a_complete_document_gives_a_plan() {
    assert_eq!(
        plan_calibration(&complete()),
        Ok(CalibrationPlan {
            distortion: Distortion::Zeros(5),
            width: 3840,
            height: 2160,
            width_missing: false,
            height_missing: false,
        })
    );
    let bypass = CalibrationShape { bypass: true, ..complete() };
    assert_eq!(plan_calibration(&bypass).unwrap().distortion, Distortion::Document(8));
}

#[test]
fn missing_sizes_fall_back_to_1080p() {
    let shape = CalibrationShape { width: None, height: None, ..complete() };
    assert_eq!(
        plan_calibration(&shape),
        Ok(CalibrationPlan {
            distortion: Distortion::Zeros(5),
            width: 1920,
            height: 1080,
            width_missing: true,
            height_missing: true,
        })
    );
    let shape = CalibrationShape { height: None, ..complete() };
    let plan = plan_calibration(&shape).unwrap();
    assert_eq!((plan.width, plan.height), (3840, 1080));
    assert_eq!((plan.width_missing, plan.height_missing), (false, true));
}

#[test]
fn each_missing_part_has_its_error() {
    let shape = CalibrationShape { has_configs: false, ..complete() };
    assert_eq!(plan_calibration(&shape), Err(CalibrationError::NoConfigs));
    let shape = CalibrationShape { bypass: true, distortion_len: None, ..complete() };
    assert_eq!(plan_calibration(&shape), Err(CalibrationError::NoDistortion));
    let shape = CalibrationShape { matrix_len: None, ..complete() };
    assert_eq!(plan_calibration(&shape), Err(CalibrationError::NoCameraMatrix));
    let shape = CalibrationShape { matrix_len: Some(8), ..complete() };
    assert_eq!(plan_calibration(&shape), Err(CalibrationError::WrongMatrixLength(5)));
    let shape = CalibrationShape { matrix_len: Some(12), bypass: true, ..complete() };
    assert_eq!(plan_calibration(&shape), Err(CalibrationError::WrongMatrixLength(8)));
}

#[test]
fn the_first_missing_part_decides() {
    let nothing = CalibrationShape {
        bypass: true,
        has_configs: false,
        distortion_len: None,
        matrix_len: None,
        width: None,
        height: None,
    };
    assert_eq!(plan_calibration(&nothing), Err(CalibrationError::NoConfigs));
    let shape = CalibrationShape { has_configs: true, ..nothing };
    assert_eq!(plan_calibration(&shape), Err(CalibrationError::NoDistortion));
    let shape = CalibrationShape { has_configs: true, bypass: false, ..nothing };
    assert_eq!(plan_calibration(&shape), Err(CalibrationError::NoCameraMatrix));
    // Without bypass the document's distortion coefficients are not needed.
    let shape = CalibrationShape { distortion_len: None, ..complete() };
    assert!(plan_calibration(&shape).is_ok());
}

#[test]
fn the_built_in_calibration() {
    assert_eq!(
        default_plan(),
        CalibrationPlan {
            distortion: Distortion::Zeros(5),
            width: 1920,
            height: 1080,
            width_missing: false,
            height_missing: false,
        }
    );
    let k: Vec<u32> = (0..9).map(default_camera_matrix_at).collect();
    assert_eq!(k, vec![1270, 0, 960, 0, 1270, 540, 0, 0, 1]);
}

#[test]
fn the_projection_matrix_is_the_camera_matrix_with_a_zero_column() {
    let sources: Vec<Option<usize>> = (0..12).map(projection_source).collect();
    assert_eq!(
        sources,
        vec![
            Some(0),
            Some(1),
            Some(2),
            None,
            Some(3),
            Some(4),
            Some(5),
            None,
            Some(6),
            Some(7),
            Some(8),
            None
        ]
    );
    let k: Vec<u32> = (0..9).map(default_camera_matrix_at).collect();
    let p: Vec<u32> = sources.iter().map(|s| s.map_or(0, |i| k[i])).collect();
    assert_eq!(p, vec![1270, 0, 960, 0, 0, 1270, 540, 0, 0, 0, 1, 0]);
}
