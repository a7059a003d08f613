use raytracer::integrator::{integrator_step, RadianceStep};

#[test]
fn test_integrator_depth_zero_terminates() {
    // with the budget spent, every ray contributes black
    for &hit in &[false, true] {
        for &scattered in &[false, true] {
            assert_eq!(integrator_step(0, hit, scattered), RadianceStep::Terminate);
            assert_eq!(integrator_step(-3, hit, scattered), RadianceStep::Terminate);
        }
    }
}

#[test]
fn test_integrator_dispatch() {
    assert_eq!(integrator_step(1, false, false), RadianceStep::Background);
    assert_eq!(integrator_step(5, true, false), RadianceStep::EmittedOnly);
    assert_eq!(
        integrator_step(5, true, true),
        RadianceStep::EmittedPlusScattered
    );
}
