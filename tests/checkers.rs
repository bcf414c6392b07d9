use upkit_x509::basic_constraints::BasicConstraints;
use upkit_x509::checkers::BasicConstraintsChecker;

#[test]
fn check_basic_constraints_checker() {
    assert!(!BasicConstraintsChecker::is_ca_with_sufficient_path_len(
        Some(BasicConstraints::new_leaf()),
        0
    ));
    assert!(BasicConstraintsChecker::is_ca_with_sufficient_path_len(
        Some(BasicConstraints::new_ca(None)),
        3
    ));
    assert!(BasicConstraintsChecker::is_ca_with_sufficient_path_len(
        Some(BasicConstraints::new_ca(Some(3))),
        3
    ));
}
